use mockiato::{ExpectedCalls, MaybeDebug};

#[test]
fn any_matches_any_value() {
    assert!(ExpectedCalls::Any.matches_value(0));
    assert!(ExpectedCalls::Any.matches_value(1));
    assert!(ExpectedCalls::Any.matches_value(23));
    assert!(ExpectedCalls::Any.matches_value(100));
}

#[test]
fn exact_matches_specified_value() {
    assert!(ExpectedCalls::Exact(4).matches_value(4));
}

#[test]
fn exact_does_not_match_other_values() {
    assert!(!ExpectedCalls::Exact(6).matches_value(1));
    assert!(!ExpectedCalls::Exact(6).matches_value(0));
    assert!(!ExpectedCalls::Exact(10).matches_value(1));
    assert!(!ExpectedCalls::Exact(100).matches_value(1));
}

#[test]
fn at_least_matches_minimum_value() {
    assert!(ExpectedCalls::AtLeast(4).matches_value(4));
}

#[test]
fn at_least_matches_values_above_minimum() {
    assert!(ExpectedCalls::AtLeast(4).matches_value(5));
    assert!(ExpectedCalls::AtLeast(4).matches_value(10));
    assert!(ExpectedCalls::AtLeast(4).matches_value(100));
}

#[test]
fn at_least_does_not_match_values_below_minimum() {
    assert!(!ExpectedCalls::AtLeast(50).matches_value(49));
    assert!(!ExpectedCalls::AtLeast(50).matches_value(0));
    assert!(!ExpectedCalls::AtLeast(50).matches_value(16));
}

#[test]
fn at_most_matches_maximum() {
    assert!(ExpectedCalls::AtMost(40).matches_value(40));
}

#[test]
fn at_most_matches_values_below_maximum() {
    assert!(ExpectedCalls::AtMost(40).matches_value(0));
    assert!(ExpectedCalls::AtMost(40).matches_value(39));
    assert!(ExpectedCalls::AtMost(40).matches_value(24));
}

#[test]
fn at_most_does_not_match_values_above_maximum() {
    assert!(!ExpectedCalls::AtMost(20).matches_value(21));
    assert!(!ExpectedCalls::AtMost(20).matches_value(67));
    assert!(!ExpectedCalls::AtMost(20).matches_value(100));
}

#[test]
fn between_does_not_match_values_outside_of_range() {
    assert!(!ExpectedCalls::Between { start: 10, end: 20 }.matches_value(0));
    assert!(!ExpectedCalls::Between { start: 10, end: 20 }.matches_value(9));
    assert!(!ExpectedCalls::Between { start: 10, end: 20 }.matches_value(21));
    assert!(!ExpectedCalls::Between { start: 10, end: 20 }.matches_value(40));
}

#[test]
fn between_does_not_match_end_value() {
    assert!(!ExpectedCalls::Between { start: 1, end: 3 }.matches_value(3));
}

#[test]
fn between_matches_start_value() {
    assert!(ExpectedCalls::Between { start: 1, end: 3 }.matches_value(1));
}

#[test]
fn between_matches_values_in_range() {
    assert!(ExpectedCalls::Between { start: 10, end: 20 }.matches_value(11));
    assert!(ExpectedCalls::Between { start: 10, end: 20 }.matches_value(15));
    assert!(ExpectedCalls::Between { start: 10, end: 20 }.matches_value(19));
}

#[test]
fn exact_matches_the_value_only() {
    assert!(!ExpectedCalls::Exact(4).matches_value(3));
    assert!(ExpectedCalls::Exact(4).matches_value(4));
    assert!(!ExpectedCalls::Exact(4).matches_value(5));
}

#[test]
fn at_least_does_not_match_one_below() {
    assert!(!ExpectedCalls::AtLeast(4).matches_value(3));
    assert!(ExpectedCalls::AtLeast(4).matches_value(u64::MAX));
}

#[test]
fn at_most_does_not_match_one_above() {
    assert!(ExpectedCalls::AtMost(40).matches_value(40));
    assert!(!ExpectedCalls::AtMost(40).matches_value(41));
}

#[test]
fn between_matches_up_to_one_below_the_end() {
    let between = ExpectedCalls::Between { start: 10, end: 20 };
    assert!(!between.matches_value(9));
    for value in 10..20 {
        assert!(between.matches_value(value));
    }
    assert!(!between.matches_value(20));
}

#[test]
fn between_inclusive_matches_both_bounds() {
    let inclusive = ExpectedCalls::BetweenInclusive { start: 1, end: 3 };
    assert!(!inclusive.matches_value(0));
    assert!(inclusive.matches_value(1));
    assert!(inclusive.matches_value(2));
    assert!(inclusive.matches_value(3));
    assert!(!inclusive.matches_value(4));
}

#[test]
fn ranges_out_of_order_match_nothing() {
    let between = ExpectedCalls::Between { start: 5, end: 5 };
    let inclusive = ExpectedCalls::BetweenInclusive { start: 6, end: 5 };
    for value in 0..10 {
        assert!(!between.matches_value(value));
        assert!(!inclusive.matches_value(value));
    }
}

#[test]
fn a_count_converts_to_exact() {
    assert_eq!(ExpectedCalls::Exact(4), ExpectedCalls::from(4));
}

#[test]
fn an_open_range_converts_to_at_least() {
    assert_eq!(ExpectedCalls::AtLeast(2), ExpectedCalls::from(2..));
}

#[test]
fn a_half_open_range_converts_to_between() {
    assert_eq!(ExpectedCalls::Between { start: 10, end: 20 }, ExpectedCalls::from(10..20));
}

#[test]
fn a_closed_range_converts_to_between_inclusive() {
    assert_eq!(ExpectedCalls::BetweenInclusive { start: 1, end: 3 }, ExpectedCalls::from(1..=3));
}

#[test]
fn a_range_up_to_converts_to_at_most() {
    assert_eq!(ExpectedCalls::AtMost(8), ExpectedCalls::from(..=8));
}

#[test]
fn expected_calls_are_rendered_in_words() {
    assert_eq!("any number of times", ExpectedCalls::Any.fmt());
    assert_eq!("exactly 2 times", ExpectedCalls::Exact(2).fmt());
    assert_eq!("at least 1 times", ExpectedCalls::AtLeast(1).fmt());
    assert_eq!("at most 40 times", ExpectedCalls::AtMost(40).fmt());
    assert_eq!(
        "at least 10 and fewer than 20 times",
        ExpectedCalls::Between { start: 10, end: 20 }.fmt()
    );
    assert_eq!(
        "at least 1 and at most 3 times",
        ExpectedCalls::BetweenInclusive { start: 1, end: 3 }.fmt()
    );
}
