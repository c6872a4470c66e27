use fpvsetup::aspect::{common_aspect_ratios, find_common_aspect_ratio};
use std::cell::Cell;

fn find(ratio: f64, rounding: f64) -> Option<[u32; 2]> {
    find_common_aspect_ratio(|n, d| (ratio - n as f64 / d as f64).abs() < rounding)
}

#[test]
fn catalog_in_order_of_preference() {
    assert_eq!(
        common_aspect_ratios(),
        vec![(16, 9), (16, 10), (4, 3), (5, 4), (3, 2), (17, 9), (21, 9), (32, 9), (1, 1), (4, 1)]
    );
}

#[test]
fn ratio_near_sixteen_to_nine() {
    assert_eq!(find(16.0 / 9.0 + 0.0001, 0.1), Some([16, 9]));
}

#[test]
fn ratio_near_nothing() {
    assert_eq!(find(1.2345, 0.0001), None);
}

#[test]
fn first_match_wins_over_closer_match() {
    // 1.62 is much closer to 16:10 than to 16:9, but 16:9 comes first.
    assert_eq!(find(1.62, 0.2), Some([16, 9]));
    assert_eq!(find(1.62, 0.1), Some([16, 10]));
    // 17:9 is an exact match, but 16:9 is within reach and comes first.
    assert_eq!(find(17.0 / 9.0, 0.2), Some([16, 9]));
}

#[test]
fn every_entry_is_found_by_its_own_ratio() {
    for (n, d) in common_aspect_ratios() {
        assert_eq!(find(n as f64 / d as f64, 0.001), Some([n, d]));
    }
}

#[test]
fn difference_equal_to_rounding_is_no_match() {
    assert_eq!(find(1.5, 0.5), Some([16, 9]));
    assert_eq!(find(0.5, 0.5), None);
    assert_eq!(find(4.5, 0.5), None);
    assert_eq!(find(1.0, 0.0), None);
}

#[test]
fn not_a_number_matches_nothing() {
    assert_eq!(find(f64::NAN, 0.1), None);
    assert_eq!(find(1.0, f64::NAN), None);
}

#[test]
fn entries_after_the_match_are_not_asked() {
    let asked = Cell::new(0);
    let found = find_common_aspect_ratio(|n, d| {
        asked.set(asked.get() + 1);
        n == 4 && d == 3
    });
    assert_eq!(found, Some([4, 3]));
    assert_eq!(asked.get(), 3);
}

#[test]
fn every_entry_is_asked_once_when_none_matches() {
    let asked = Cell::new(0);
    let found = find_common_aspect_ratio(|_, _| {
        asked.set(asked.get() + 1);
        false
    });
    assert_eq!(found, None);
    assert_eq!(asked.get(), 10);
}

#[test]
fn last_entry_can_be_found() {
    assert_eq!(find(4.0, 0.1), Some([4, 1]));
    assert_eq!(find_common_aspect_ratio(|n, d| n == 4 && d == 1), Some([4, 1]));
}
