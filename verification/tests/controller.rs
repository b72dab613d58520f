use uiuapp::controller::{Controller, Press, RADIAL_DELAY_MS};
use uiuapp::{Icon, Point, Prim, EXPERIMENTAL_ICON};

fn cell_abc() -> Vec<Icon> {
    vec![
        Icon::Single(Prim::Add),
        Icon::Single(Prim::Sub),
        Icon::Single(Prim::Mul),
    ]
}

fn cell_with_four_alternates() -> Vec<Icon> {
    vec![
        Icon::Single(Prim::Add),
        Icon::Single(Prim::Sub),
        Icon::Single(Prim::Mul),
        Icon::Single(Prim::Div),
        Icon::Single(Prim::Modulus),
    ]
}

fn at(x: i32, y: i32) -> Point {
    Point { x, y }
}

#[test]
fn delay_is_half_a_second() {
    assert_eq!(RADIAL_DELAY_MS, 500);
}

#[test]
fn new_controller_is_at_rest() {
    let c = Controller::new();
    assert_eq!(c.pending(), None);
    assert!(!c.info().active);
    assert!(c.info().glyphs.is_empty());
}

#[test]
fn press_schedules_a_timer() {
    let mut c = Controller::new();
    let press = c.pointer_down(at(4, 4), cell_abc());
    assert_eq!(press, Press { cancel: None, schedule: Some(0) });
    assert_eq!(c.pending(), Some(0));
    assert_eq!(c.info().starting_position, at(4, 4));
    assert!(!c.info().active);
}

#[test]
fn second_press_cancels_the_first_timer() {
    let mut c = Controller::new();
    c.pointer_down(at(4, 4), cell_abc());
    let press = c.pointer_down(at(6, 6), cell_with_four_alternates());
    assert_eq!(press, Press { cancel: Some(0), schedule: Some(1) });
    assert_eq!(c.info().glyphs, cell_with_four_alternates());
    assert!(!c.timer_fired(0));
    assert!(!c.info().active);
    assert!(c.timer_fired(1));
    assert!(c.info().active);
}

#[test]
fn tap_types_the_default() {
    let mut c = Controller::new();
    let mut input = String::from("1 ");
    c.pointer_down(at(4, 4), cell_abc());
    let cancel = c.pointer_up(&mut input);
    assert_eq!(cancel, Some(0));
    assert_eq!(input, "1 +");
    assert_eq!(c.pending(), None);
    assert!(c.info().glyphs.is_empty());
    assert!(!c.info().active);
}

#[test]
fn timer_cancellation() {
    let mut c = Controller::new();
    let mut input = String::new();
    let press = c.pointer_down(at(4, 4), cell_with_four_alternates());
    c.pointer_move(at(4, 60), 180);
    assert!(!c.info().active);
    c.pointer_up(&mut input);
    assert_eq!(input, "+");
    // The timer fires late: nothing happens.
    assert!(!c.timer_fired(press.schedule.unwrap()));
    assert!(!c.info().active);
    assert!(c.info().glyphs.is_empty());
    assert_eq!(c.pending(), None);
    assert_eq!(c.info().starting_position, at(0, 0));
    let mut later = String::new();
    assert_eq!(c.pointer_up(&mut later), None);
    assert_eq!(later, "");
}

#[test]
fn late_timer_does_not_arm_the_next_gesture() {
    let mut c = Controller::new();
    let mut input = String::new();
    let first = c.pointer_down(at(4, 4), cell_abc());
    c.pointer_up(&mut input);
    let second = c.pointer_down(at(4, 4), cell_abc());
    assert_ne!(first.schedule, second.schedule);
    assert!(!c.timer_fired(first.schedule.unwrap()));
    assert!(!c.info().active);
    assert_eq!(c.pending(), second.schedule);
    c.pointer_up(&mut input);
    assert_eq!(input, "++");
}

#[test]
fn hold_then_drag_types_the_alternate() {
    let mut c = Controller::new();
    let mut input = String::new();
    let press = c.pointer_down(at(100, 100), cell_with_four_alternates());
    assert!(c.timer_fired(press.schedule.unwrap()));
    assert!(c.info().active);
    assert_eq!(c.pending(), None);
    assert_eq!(c.info().current_selection, 0);
    c.pointer_move(at(100, 160), 180);
    assert_eq!(c.info().current_selection, 2);
    assert_eq!(c.info().current_position, at(100, 160));
    let cancel = c.pointer_up(&mut input);
    assert_eq!(cancel, None);
    assert_eq!(input, "÷");
}

#[test]
fn drag_then_hold_opens_on_the_dragged_alternate() {
    let mut c = Controller::new();
    let mut input = String::new();
    let press = c.pointer_down(at(100, 100), cell_with_four_alternates());
    c.pointer_move(at(40, 100), 270);
    assert!(!c.info().active);
    assert!(c.timer_fired(press.schedule.unwrap()));
    assert!(c.info().active);
    assert_eq!(c.info().current_selection, 3);
    assert_eq!(c.info().current_position, at(40, 100));
    c.pointer_up(&mut input);
    assert_eq!(input, "◿");
}

#[test]
fn held_press_without_moving_points_at_the_first_alternate() {
    let mut c = Controller::new();
    let mut input = String::new();
    let press = c.pointer_down(at(9, 9), cell_abc());
    assert!(c.timer_fired(press.schedule.unwrap()));
    c.pointer_up(&mut input);
    assert_eq!(input, "-");
}

#[test]
fn timer_fires_once() {
    let mut c = Controller::new();
    let press = c.pointer_down(at(9, 9), cell_abc());
    assert!(c.timer_fired(press.schedule.unwrap()));
    assert!(!c.timer_fired(press.schedule.unwrap()));
    assert!(c.info().active);
}

#[test]
fn cell_without_alternates_stays_a_tap() {
    let mut c = Controller::new();
    let mut input = String::new();
    let press = c.pointer_down(at(9, 9), vec![Icon::Exper(("0", "constant-value"))]);
    assert_eq!(press.schedule, Some(0));
    assert!(!c.timer_fired(0));
    assert!(!c.info().active);
    c.pointer_move(at(50, 50), 45);
    c.pointer_up(&mut input);
    assert_eq!(input, "0");
}

#[test]
fn press_on_an_empty_cell_begins_nothing() {
    let mut c = Controller::new();
    let mut input = String::new();
    c.pointer_down(at(1, 1), cell_abc());
    let press = c.pointer_down(at(9, 9), Vec::new());
    assert_eq!(press, Press { cancel: Some(0), schedule: None });
    assert_eq!(c.pending(), None);
    assert!(c.info().glyphs.is_empty());
    assert_eq!(c.pointer_up(&mut input), None);
    assert_eq!(input, "");
}

#[test]
fn cancel_types_nothing() {
    let mut c = Controller::new();
    let press = c.pointer_down(at(4, 4), cell_abc());
    assert_eq!(c.cancel(), press.schedule);
    assert_eq!(c.pending(), None);
    assert!(c.info().glyphs.is_empty());
    assert!(!c.timer_fired(press.schedule.unwrap()));
    assert!(!c.info().active);
    assert_eq!(c.cancel(), None);
}

#[test]
fn moves_without_a_gesture_are_ignored() {
    let mut c = Controller::new();
    c.pointer_move(at(40, 40), 77);
    assert_eq!(c.info().current_position, at(0, 0));
    assert!(!c.timer_fired(0));
}

#[test]
fn idiom_emission() {
    let mut c = Controller::new();
    let mut input = String::from("x");
    c.pointer_down(
        at(0, 0),
        vec![Icon::Idiom(vec![Prim::Sub, Prim::By, Prim::Not])],
    );
    c.pointer_up(&mut input);
    assert_eq!(input, "x-⊸¬");
}

#[test]
fn idiom_as_an_alternate() {
    let mut c = Controller::new();
    let mut input = String::new();
    let press = c.pointer_down(
        at(0, 0),
        vec![
            Icon::Single(Prim::Not),
            Icon::Idiom(vec![Prim::Sub, Prim::By, Prim::Not]),
            Icon::Exper(("7", "constant-value")),
        ],
    );
    c.timer_fired(press.schedule.unwrap());
    c.pointer_move(at(0, 0), 10);
    c.pointer_up(&mut input);
    assert_eq!(input, "-⊸¬");
}

#[test]
fn literal_passthrough() {
    let mut c = Controller::new();
    let mut input = String::new();
    c.pointer_down(at(0, 0), vec![Icon::Exper(("0", "constant-value"))]);
    c.pointer_up(&mut input);
    assert_eq!(input, "0");
    c.pointer_down(at(0, 0), vec![Icon::Exper((EXPERIMENTAL_ICON, ""))]);
    c.pointer_up(&mut input);
    assert_eq!(input, "0");
}
