use uiuapp::keypad::{button_icons, can_type, cell_at, find_prim, first_gap, s};
use uiuapp::Listing;
use uiuapp::{Icon, Prim, EXPERIMENTAL_ICON};

fn prims_on_keypad() -> Vec<Prim> {
    let mut all = Vec::new();
    for cell in button_icons() {
        for icon in cell {
            if let Icon::Single(p) = icon {
                all.push(p);
            }
        }
    }
    all
}

fn named_on_keypad(name: &str) -> Option<Prim> {
    prims_on_keypad().into_iter().find(|p| p.name() == name)
}

#[test]
fn keypad_has_all_prims() {
    fn prim_exists_in_keypad(p: uiua::Primitive) -> bool {
        let Some(ours) = named_on_keypad(p.name()) else {
            return false;
        };
        for grouping in button_icons() {
            if grouping.contains(&s(ours)) {
                return true;
            }
        }
        return false;
    }
    for prim in uiua::Primitive::non_deprecated() {
        if prim.glyph().is_none() || prim.is_experimental() {
            continue;
        }
        if !prim_exists_in_keypad(prim) {
            panic!(
                "Glyph is not typable: '{}' ({})",
                prim.glyph().unwrap(),
                prim.name()
            );
        }
    }
}

#[test]
fn every_primitive_is_on_exactly_one_key() {
    for prim in uiua::Primitive::non_deprecated() {
        if prim.glyph().is_none() || prim.is_experimental() {
            continue;
        }
        let mut places = 0;
        for cell in button_icons() {
            for icon in cell {
                if let Icon::Single(p) = icon {
                    if p.name() == prim.name() {
                        places += 1;
                    }
                }
            }
        }
        assert_eq!(places, 1, "{}", prim.name());
    }
}

#[test]
fn every_key_names_a_primitive_of_the_language() {
    let all = prims_on_keypad();
    assert_eq!(all.len(), 105);
    for p in all {
        let theirs = uiua::Primitive::from_name(p.name());
        assert!(theirs.is_some(), "{:?}", p);
        assert_eq!(format!("{:?}", theirs.unwrap()), format!("{:?}", p));
        assert!(theirs.unwrap().glyph().is_some(), "{:?}", p);
    }
}

#[test]
fn no_primitive_sits_on_two_keys() {
    let all = prims_on_keypad();
    for (i, p) in all.iter().enumerate() {
        for q in &all[i + 1..] {
            assert_ne!(p, q);
        }
    }
}

#[test]
fn keypad_has_four_rows_of_five_cells_with_defaults() {
    let cells = button_icons();
    assert_eq!(cells.len(), 20);
    for cell in &cells {
        assert!(!cell.is_empty());
    }
    assert_eq!(cells[0][0], Icon::Single(Prim::Identity));
    assert_eq!(cells[0].len(), 7);
    assert_eq!(cells[1].len(), 10);
    assert_eq!(cells[6][7], Icon::Single(Prim::Transpose));
    assert_eq!(cells[10][4], Icon::Single(Prim::Modulus));
    assert_eq!(cells[5].len(), 9);
    assert_eq!(cells[8].len(), 6);
    assert_eq!(cells[13].len(), 5);
    assert_eq!(cells[14][0], Icon::Single(Prim::Rand));
}

#[test]
fn last_row_holds_literals_and_the_idiom() {
    let cells = button_icons();
    assert_eq!(cells[15], vec![Icon::Exper(("Empty", ""))]);
    assert_eq!(cells[16].len(), 10);
    assert_eq!(cells[16][0], Icon::Exper(("0", "constant-value")));
    assert_eq!(cells[16][9], Icon::Exper(("9", "constant-value")));
    assert_eq!(cells[17][0], Icon::Exper(("₀", "constant-value")));
    assert_eq!(cells[17][9], Icon::Exper(("₉", "constant-value")));
    assert_eq!(cells[18], vec![Icon::Exper((EXPERIMENTAL_ICON, ""))]);
    assert_eq!(
        cells[19],
        vec![Icon::Idiom(vec![Prim::Sub, Prim::By, Prim::Not])]
    );
}

#[test]
fn find_prim_gives_cell_and_slot() {
    let cells = button_icons();
    assert_eq!(find_prim(&cells, Prim::Identity), Some((0, 0)));
    assert_eq!(find_prim(&cells, Prim::Stack), Some((0, 6)));
    assert_eq!(find_prim(&cells, Prim::Partition), Some((4, 4)));
    assert_eq!(find_prim(&cells, Prim::Group), Some((4, 5)));
    assert_eq!(find_prim(&cells, Prim::Infinity), Some((14, 4)));
}

#[test]
fn find_prim_misses_what_is_only_in_an_idiom() {
    let cells = vec![vec![Icon::Idiom(vec![Prim::Sub, Prim::By])], vec![s(Prim::Add)]];
    assert_eq!(find_prim(&cells, Prim::Sub), None);
    assert_eq!(find_prim(&cells, Prim::Add), Some((1, 0)));
    assert_eq!(find_prim(&Vec::new(), Prim::Add), None);
}

#[test]
fn find_prim_gives_the_first_place() {
    let cells = vec![vec![s(Prim::Add), s(Prim::Sub), s(Prim::Sub)], vec![s(Prim::Sub)]];
    assert_eq!(find_prim(&cells, Prim::Sub), Some((0, 1)));
}

#[test]
fn cell_at_reads_row_by_row() {
    let cells = button_icons();
    assert_eq!(cell_at(&cells, 0, 0), Some(&cells[0]));
    assert_eq!(cell_at(&cells, 1, 2), Some(&cells[7]));
    assert_eq!(cell_at(&cells, 3, 4), Some(&cells[19]));
    assert_eq!(cell_at(&cells, 4, 0), None);
    assert_eq!(cell_at(&cells, 0, 5), None);
    assert_eq!(cell_at(&cells, usize::MAX, 1), None);
}

#[test]
fn s_wraps_a_single_primitive() {
    assert_eq!(s(Prim::Pi), Icon::Single(Prim::Pi));
}

#[test]
fn names_are_those_of_the_language() {
    assert_eq!(Prim::Identity.name(), "identity");
    assert_eq!(Prim::Slf.name(), "self");
    assert_eq!(Prim::Abs.name(), "absolute value");
    assert_eq!(Prim::Le.name(), "less or equal");
    assert_eq!(Prim::Modulus.name(), "modulus");
}

#[test]
fn can_type_goes_by_the_name_of_the_language() {
    let cells = button_icons();
    assert!(can_type(&cells, "identity"));
    assert!(can_type(&cells, "absolute value"));
    assert!(can_type(&cells, "indexof"));
    assert!(!can_type(&cells, "over"));
    assert!(!can_type(&cells, "Identity"));
    assert!(!can_type(&cells, "regex"));
    assert!(!can_type(&cells, ""));
    let idiom_only = vec![vec![Icon::Idiom(vec![Prim::Sub])]];
    assert!(!can_type(&idiom_only, "subtract"));
}

fn listing(
    name: &'static str,
    glyph: Option<char>,
    deprecated: bool,
    experimental: bool,
) -> Listing {
    Listing { name, glyph, deprecated, experimental }
}

#[test]
fn keypad_is_complete_for_the_language() {
    assert_eq!(uiuapp::keypad::keypad_has_all_prims(&button_icons()), Ok(()));
}

#[test]
fn incomplete_keypad_is_reported_by_name() {
    let mut cells = button_icons();
    cells[13].retain(|icon| *icon != Icon::Single(Prim::Mask));
    assert_eq!(uiuapp::keypad::keypad_has_all_prims(&cells), Err("mask"));
    assert!(uiuapp::keypad::keypad_has_all_prims(&Vec::new()).is_err());
}

#[test]
fn only_user_facing_primitives_count_as_gaps() {
    let cells = vec![vec![s(Prim::Add)]];
    let all = vec![
        listing("add", Some('+'), false, false),
        listing("regex", None, false, false),
        listing("each", Some('∵'), true, false),
        listing("or", Some('∨'), false, true),
        listing("subtract", Some('-'), false, false),
        listing("multiply", Some('×'), false, false),
    ];
    assert_eq!(first_gap(&cells, &all), Some(4));
    assert_eq!(first_gap(&cells, &all[..4].to_vec()), None);
    assert_eq!(first_gap(&cells, &Vec::new()), None);
    assert_eq!(first_gap(&button_icons(), &all), None);
}
