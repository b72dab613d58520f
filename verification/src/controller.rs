//! Telling a tap from a press that is held.
//!
//! A tap types the default of a cell at once. A press that lasts longer than
//! [`RADIAL_DELAY_MS`] opens the radial menu, and the release then types the
//! alternate that the drag points at. The controller owns the gesture and
//! decides; whoever drives it owns the clock. On a press the controller hands
//! out a ticket for a timer. The driver waits the delay and hands the ticket
//! back, unless it was told to drop it first. A ticket that comes back too
//! late no longer matches and changes nothing.

use crate::icon::{Icon, IconView};
use crate::radial::{lemma_steps_keep_wf, Gesture, Point, RadialInfo};
use crate::sector::lemma_sector_in_range;
use vstd::prelude::*;

verus! {

/// How long a press must last before the radial menu opens, in milliseconds.
pub const RADIAL_DELAY_MS: u64 = 500;

/// What the driver has to do with its timers after a press.
#[derive(Debug, Clone, Copy, PartialEq, Eq)]
pub struct Press {
    /// The ticket of the timer to drop, if one was still running.
    pub cancel: Option<u64>,
    /// The ticket of the timer to start, if the press began a gesture.
    pub schedule: Option<u64>,
}

/// The mathematical value of a [`Controller`].
pub struct ControllerState {
    pub gesture: Gesture,
    /// The ticket of the timer that is running, if any.
    pub pending: Option<u64>,
    /// How many tickets have been handed out; also the next ticket.
    pub issued: u64,
    /// The direction of the latest move, in whole degrees.
    pub angle: int,
}

impl ControllerState {
    /// What holds between any two events: the gesture is well formed, a
    /// running timer belongs to an unarmed gesture and carries a ticket that
    /// was handed out, and only a cell with alternates has its menu open.
    pub open spec fn inv(self) -> bool {
        &&& self.gesture.wf()
        &&& self.gesture.active ==> self.gesture.armable()
        &&& self.pending matches Some(t) ==> {
            &&& t < self.issued
            &&& self.gesture.tracking()
            &&& !self.gesture.active
        }
    }

    /// The state before the first press.
    pub open spec fn fresh() -> ControllerState {
        ControllerState { gesture: Gesture::fresh(), pending: None, issued: 0, angle: 0 }
    }

    /// No gesture and no timer.
    pub open spec fn at_rest(self) -> bool {
        self.gesture.idle() && self.pending.is_none()
    }

    /// Whether a press on a cell holding `glyphs` begins a timed gesture.
    pub open spec fn can_time(self, glyphs: Seq<IconView>) -> bool {
        glyphs.len() > 0 && self.issued < u64::MAX
    }

    /// The pointer went down at `coord` on a cell holding `glyphs`. A cell
    /// without glyphs begins nothing. Once the tickets have run out the press
    /// still begins a gesture, which then stays a tap.
    pub open spec fn pressed(self, coord: Point, glyphs: Seq<IconView>) -> ControllerState {
        if glyphs.len() == 0 {
            ControllerState { gesture: self.gesture.cleared(), pending: None, ..self }
        } else if self.issued < u64::MAX {
            ControllerState {
                gesture: self.gesture.started(coord, glyphs),
                pending: Some(self.issued),
                issued: (self.issued + 1) as u64,
                angle: 0,
            }
        } else {
            ControllerState {
                gesture: self.gesture.started(coord, glyphs),
                pending: None,
                angle: 0,
                ..self
            }
        }
    }

    /// The pointer moved to `coord`, at `angle` from where it went down.
    pub open spec fn moved(self, coord: Point, angle: int) -> ControllerState {
        if self.gesture.tracking() {
            ControllerState { gesture: self.gesture.moved(coord, angle), angle, ..self }
        } else {
            self
        }
    }

    /// The timer with `ticket` ran out. Only the timer that is still running
    /// opens the menu, at the position the pointer has reached.
    pub open spec fn fired(self, ticket: u64) -> ControllerState {
        if self.pending == Some(ticket) {
            ControllerState {
                gesture: self.gesture.moved(self.gesture.current, self.angle).armed(),
                pending: None,
                ..self
            }
        } else {
            self
        }
    }

    /// The gesture ended or was called off.
    pub open spec fn released(self) -> ControllerState {
        ControllerState { gesture: self.gesture.cleared(), pending: None, ..self }
    }

    /// What a release now would type.
    pub open spec fn typed_on_release(self) -> Seq<char> {
        match self.gesture.resolved() {
            Some(icon) => icon.typed(),
            None => Seq::empty(),
        }
    }
}

/// Owns the gesture and the ticket of the timer that may arm it.
#[derive(Debug)]
pub struct Controller {
    info: RadialInfo,
    pending: Option<u64>,
    issued: u64,
    angle: i32,
}

impl View for Controller {
    type V = ControllerState;

    closed spec fn view(&self) -> ControllerState {
        ControllerState {
            gesture: self.info@,
            pending: self.pending,
            issued: self.issued,
            angle: self.angle as int,
        }
    }
}

impl Controller {
    /// A controller at rest that has handed out no ticket yet.
    pub fn new() -> (r: Self)
        ensures
            r@ == ControllerState::fresh(),
            r@.at_rest(),
            r@.inv(),
    {
        Controller { info: RadialInfo::new(), pending: None, issued: 0, angle: 0 }
    }

    /// The gesture, for drawing.
    pub fn info(&self) -> (r: &RadialInfo)
        ensures
            r@ == self@.gesture,
    {
        &self.info
    }

    /// The ticket of the timer that is running, if any.
    pub fn pending(&self) -> (r: Option<u64>)
        ensures
            r == self@.pending,
    {
        self.pending
    }

    /// The pointer went down at `coord` on the cell `glyphs`. Whatever timer
    /// was running is to be dropped, and a new one started for this press.
    pub fn pointer_down(&mut self, coord: Point, glyphs: Vec<Icon>) -> (press: Press)
        ensures
            final(self)@ == old(self)@.pressed(coord, glyphs.deep_view()),
            press.cancel == old(self)@.pending,
            press.schedule == final(self)@.pending,
            press.schedule.is_some() == old(self)@.can_time(glyphs.deep_view()),
            old(self)@.inv() ==> final(self)@.inv(),
    {
        let cancel = self.pending;
        if glyphs.len() == 0 {
            self.info.reset();
            self.pending = None;
            return Press { cancel, schedule: None };
        }
        self.info.start(coord, glyphs);
        self.angle = 0;
        if self.issued < u64::MAX {
            let ticket = self.issued;
            self.issued = ticket + 1;
            self.pending = Some(ticket);
        } else {
            self.pending = None;
        }
        Press { cancel, schedule: self.pending }
    }

    /// The pointer moved to `coord`, which lies at `angle` whole degrees from
    /// where it went down. Followed whether or not the menu is open, so that
    /// the menu opens on the right alternate.
    pub fn pointer_move(&mut self, coord: Point, angle: i32)
        ensures
            final(self)@ == old(self)@.moved(coord, angle as int),
            old(self)@.inv() ==> final(self)@.inv(),
    {
        if self.info.glyphs.len() > 0 {
            self.info.update(coord, angle);
            self.angle = angle;
        }
    }

    /// The timer with `ticket` ran out. Returns whether the menu opened.
    pub fn timer_fired(&mut self, ticket: u64) -> (opened: bool)
        ensures
            final(self)@ == old(self)@.fired(ticket),
            opened == (old(self)@.pending == Some(ticket) && old(self)@.gesture.armable()),
            opened ==> final(self)@.gesture.active,
            old(self)@.pending != Some(ticket) ==> final(self)@ == old(self)@,
            old(self)@.inv() ==> final(self)@.inv(),
    {
        let running = match self.pending {
            Some(t) => t == ticket,
            None => false,
        };
        if !running {
            return false;
        }
        let at = self.info.current_position;
        self.info.update(at, self.angle);
        self.pending = None;
        self.info.arm()
    }

    /// The pointer went up. Types what the gesture resolved to into `input`
    /// and returns to rest. Returns the ticket of the timer to drop, if one
    /// was still running.
    pub fn pointer_up(&mut self, input: &mut String) -> (cancel: Option<u64>)
        ensures
            final(self)@ == old(self)@.released(),
            final(input)@ == old(input)@ + old(self)@.typed_on_release(),
            cancel == old(self)@.pending,
            final(self)@.at_rest(),
            final(self)@.inv(),
    {
        let cancel = self.pending;
        self.pending = None;
        match self.info.resolve() {
            Some(icon) => {
                icon.type_into(input);
            },
            None => {
                assert(input@ =~= old(input)@ + Seq::<char>::empty());
            },
        }
        self.info.reset();
        cancel
    }

    /// Calls the gesture off without typing anything. Returns the ticket of
    /// the timer to drop, if one was still running.
    pub fn cancel(&mut self) -> (cancel: Option<u64>)
        ensures
            final(self)@ == old(self)@.released(),
            cancel == old(self)@.pending,
            final(self)@.at_rest(),
            final(self)@.inv(),
    {
        let cancel = self.pending;
        self.pending = None;
        self.info.reset();
        cancel
    }
}

/// Every event keeps what holds between events.
pub proof fn lemma_events_keep_inv(
    c: ControllerState,
    coord: Point,
    glyphs: Seq<IconView>,
    angle: int,
    ticket: u64,
)
    requires
        c.inv(),
        glyphs.len() <= usize::MAX,
        c.gesture.glyphs.len() <= usize::MAX,
    ensures
        c.pressed(coord, glyphs).inv(),
        c.moved(coord, angle).inv(),
        c.fired(ticket).inv(),
        c.released().inv(),
{
    lemma_steps_keep_wf(c.gesture, coord, glyphs, angle);
    lemma_steps_keep_wf(c.gesture, c.gesture.current, glyphs, c.angle);
    lemma_steps_keep_wf(c.gesture.moved(c.gesture.current, c.angle), coord, glyphs, angle);
}

/// Released before the delay has passed, a press never opens the menu: the
/// release leaves no timer running, and whichever ticket comes back after it
/// changes nothing.
pub proof fn lemma_release_drops_timer(c: ControllerState, late: u64)
    ensures
        c.released().pending.is_none(),
        !c.released().gesture.active,
        c.released().at_rest(),
        c.released().fired(late) == c.released(),
{
}

/// The same for a press that was followed by moves before the release: the
/// ticket the press handed out is dead once the pointer is up.
pub proof fn lemma_tap_never_arms(
    c: ControllerState,
    coord: Point,
    glyphs: Seq<IconView>,
    to: Point,
    angle: int,
)
    requires
        c.can_time(glyphs),
    ensures
        ({
            let down = c.pressed(coord, glyphs);
            let up = down.moved(to, angle).released();
            &&& down.pending == Some(c.issued)
            &&& !down.gesture.active
            &&& !down.moved(to, angle).gesture.active
            &&& !up.gesture.active
            &&& up.fired(c.issued) == up
        }),
{
}

/// A ticket is handed out once. A press never reuses a ticket that went out
/// before it, so a timer left over from an earlier gesture cannot open the
/// menu of a later one.
pub proof fn lemma_old_tickets_stay_dead(
    c: ControllerState,
    coord: Point,
    glyphs: Seq<IconView>,
    old_ticket: u64,
)
    requires
        c.inv(),
        old_ticket < c.issued,
    ensures
        c.pressed(coord, glyphs).pending != Some(old_ticket),
        c.pressed(coord, glyphs).fired(old_ticket) == c.pressed(coord, glyphs),
        c.pressed(coord, glyphs).issued >= c.issued,
{
}

/// Only the timer opens the menu: presses and moves leave it closed, and a
/// ticket that is not the running one leaves everything as it was.
pub proof fn lemma_only_timer_arms(
    c: ControllerState,
    coord: Point,
    glyphs: Seq<IconView>,
    angle: int,
    ticket: u64,
)
    ensures
        !c.pressed(coord, glyphs).gesture.active,
        c.moved(coord, angle).gesture.active == c.gesture.active,
        c.pending != Some(ticket) ==> c.fired(ticket) == c,
{
}

/// A tap types the default of the cell.
pub proof fn lemma_tap_types_default(
    c: ControllerState,
    coord: Point,
    glyphs: Seq<IconView>,
    to: Point,
    angle: int,
)
    requires
        glyphs.len() > 0,
    ensures
        c.pressed(coord, glyphs).typed_on_release() == glyphs[0].typed(),
        c.pressed(coord, glyphs).moved(to, angle).typed_on_release() == glyphs[0].typed(),
{
}

/// A press held past the delay and dragged to `angle` types the alternate on
/// whose arc `angle` lies.
pub proof fn lemma_hold_types_alternate(
    c: ControllerState,
    coord: Point,
    glyphs: Seq<IconView>,
    to: Point,
    angle: int,
)
    requires
        c.can_time(glyphs),
        1 < glyphs.len() <= usize::MAX,
    ensures
        ({
            let n = glyphs.len() - 1;
            let held = c.pressed(coord, glyphs).fired(c.issued).moved(to, angle);
            let dragged = c.pressed(coord, glyphs).moved(to, angle).fired(c.issued);
            &&& held.gesture.active
            &&& held.typed_on_release() == glyphs[crate::sector::sector_of(angle, n) + 1].typed()
            &&& dragged.gesture.active
            &&& dragged.typed_on_release() == held.typed_on_release()
        }),
{
    let n = glyphs.len() - 1;
    lemma_sector_in_range(angle, n);
    lemma_sector_in_range(0, n);
}

} // verus!
