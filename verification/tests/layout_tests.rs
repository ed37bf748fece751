use nanoterm::layout::{select, LayoutProfile};

#[test]
fn height_60_shows_both_changes_with_maximal_padding() {
    let p = select(60);
    assert!(!p.too_small);
    assert!(p.show_change_1h);
    assert_eq!(p.leading_blank_lines, 6);
    assert_eq!(p.trailing_blank_lines, 6);
}

#[test]
fn height_18_is_the_too_small_notice() {
    let p = select(18);
    assert!(p.too_small);
    assert!(!p.show_change_1h);
    assert_eq!(p.leading_blank_lines, 0);
    assert_eq!(p.trailing_blank_lines, 0);
}

#[test]
fn height_45_shows_both_changes_with_reduced_padding() {
    let p = select(45);
    assert!(!p.too_small);
    assert!(p.show_change_1h);
    assert_eq!(p.leading_blank_lines, 5);
    assert_eq!(p.trailing_blank_lines, 5);
    assert!(p.leading_blank_lines < select(60).leading_blank_lines);
}

#[test]
fn select_is_deterministic() {
    for h in [0u16, 18, 20, 37, 45, 60, 65535] {
        let a = select(h);
        let b = select(h);
        assert_eq!(a, b);
    }
}

#[test]
fn bucket_boundaries_are_inclusive_low_exclusive_high() {
    assert!(select(19).too_small);
    assert!(!select(20).too_small);
    assert_eq!(select(20).leading_blank_lines, 0);
    assert_eq!(select(23).leading_blank_lines, 0);
    assert_eq!(select(24).leading_blank_lines, 1);
    assert_eq!(select(25).leading_blank_lines, 1);
    assert_eq!(select(26).leading_blank_lines, 2);
    assert_eq!(select(27).leading_blank_lines, 3);
    assert_eq!(select(33).leading_blank_lines, 3);
    assert!(!select(33).show_change_1h);
    assert!(select(34).show_change_1h);
    assert_eq!(select(34).leading_blank_lines, 4);
    assert_eq!(select(44).leading_blank_lines, 4);
    assert_eq!(select(45).leading_blank_lines, 5);
    assert_eq!(select(54).leading_blank_lines, 5);
    assert_eq!(select(55).leading_blank_lines, 6);
    assert_eq!(select(65535).leading_blank_lines, 6);
}

fn visible(p: &LayoutProfile) -> (bool, bool, bool) {
    if p.too_small {
        (false, false, false)
    } else {
        (true, true, p.show_change_1h)
    }
}

#[test]
fn visibility_is_monotone_in_height() {
    for h in 0u16..200 {
        let (lo_price, lo_24h, lo_1h) = visible(&select(h));
        let (hi_price, hi_24h, hi_1h) = visible(&select(h + 1));
        assert!(!lo_price || hi_price);
        assert!(!lo_24h || hi_24h);
        assert!(!lo_1h || hi_1h);
    }
}
