use uiuapp::sector::sector_index;

#[test]
fn four_alternates_pick_by_quadrant() {
    assert_eq!(sector_index(0, 4), Some(0));
    assert_eq!(sector_index(91, 4), Some(1));
    assert_eq!(sector_index(359, 4), Some(0));
}

#[test]
fn arcs_are_cut_at_the_midpoints() {
    assert_eq!(sector_index(44, 4), Some(0));
    assert_eq!(sector_index(45, 4), Some(1));
    assert_eq!(sector_index(134, 4), Some(1));
    assert_eq!(sector_index(135, 4), Some(2));
    assert_eq!(sector_index(224, 4), Some(2));
    assert_eq!(sector_index(225, 4), Some(3));
    assert_eq!(sector_index(314, 4), Some(3));
    assert_eq!(sector_index(315, 4), Some(0));
}

#[test]
fn no_alternates_pick_nothing() {
    assert_eq!(sector_index(10, 0), None);
    assert_eq!(sector_index(-10, 0), None);
}

#[test]
fn one_alternate_owns_the_ring() {
    for angle in -720..720 {
        assert_eq!(sector_index(angle, 1), Some(0));
    }
}

#[test]
fn angles_wrap_round() {
    for n in 1..12usize {
        for angle in -400..400 {
            assert_eq!(sector_index(angle, n), sector_index(angle + 360, n));
            assert_eq!(sector_index(angle, n), sector_index(angle - 720, n));
        }
    }
    assert_eq!(sector_index(-1, 4), Some(0));
    assert_eq!(sector_index(-46, 4), Some(3));
    assert_eq!(sector_index(i32::MIN, 4), sector_index(i32::MIN + 360, 4));
    assert_eq!(sector_index(i32::MAX, 4), sector_index(i32::MAX - 360, 4));
}

#[test]
fn seven_alternates_never_overrun() {
    for angle in 0..360 {
        let k = sector_index(angle, 7).unwrap();
        assert!(k < 7);
    }
    // 360 / 7 is not whole: the arcs are cut at 25 5/7, 77 1/7, ...
    assert_eq!(sector_index(25, 7), Some(0));
    assert_eq!(sector_index(26, 7), Some(1));
    assert_eq!(sector_index(77, 7), Some(1));
    assert_eq!(sector_index(78, 7), Some(2));
    assert_eq!(sector_index(334, 7), Some(6));
    assert_eq!(sector_index(335, 7), Some(0));
    assert_eq!(sector_index(359, 7), Some(0));
}

#[test]
fn whole_even_segments_follow_the_chunk_formula() {
    for n in [1usize, 2, 3, 4, 5, 6, 9, 10, 12, 18, 20, 30, 36, 45, 60, 90, 180] {
        let chunk = 360 / n;
        for angle in -360..720i32 {
            let expected = (((angle + 360 + (chunk / 2) as i32) % 360) as usize) / chunk;
            assert_eq!(sector_index(angle, n), Some(expected), "n {} angle {}", n, angle);
        }
    }
}

#[test]
fn every_alternate_is_nearest_to_its_own_direction() {
    for n in 1..40usize {
        for k in 0..n {
            let ahead = (k * 360 + n - 1) / n;
            assert_eq!(sector_index(ahead as i32, n), Some(k), "n {} k {}", n, k);
        }
    }
}

#[test]
fn huge_cells_do_not_overflow() {
    let n = usize::MAX as u128;
    assert_eq!(
        sector_index(359, usize::MAX),
        Some(((359 * n + 180) / 360) as usize)
    );
    assert_eq!(sector_index(0, usize::MAX), Some(0));
    assert_eq!(
        sector_index(180, usize::MAX),
        Some(((180 * n + 180) / 360) as usize)
    );
}
