use mockiato::{
    AnyArgumentMatcher, ArgumentMatcher, ArgumentMatcherFactory, ArgumentsMatcher,
    IntoArgumentMatcher, MatchEq, MaybeDebug, PartialEqMatcher,
};

#[test]
fn no_arguments_always_match() {
    assert!(().matches_arguments(&()));
}

#[test]
fn one_argument_matches_where_its_matcher_does() {
    let matchers = (PartialEqMatcher { value: 1u64 },);

    assert!(matchers.matches_arguments(&(1,)));
    assert!(!matchers.matches_arguments(&(2,)));
}

#[test]
fn arguments_match_where_every_matcher_does() {
    let matchers = (
        PartialEqMatcher { value: 1u64 },
        PartialEqMatcher { value: String::from("two") },
        PartialEqMatcher { value: true },
    );

    assert!(matchers.matches_arguments(&(1, String::from("two"), true)));
    assert!(!matchers.matches_arguments(&(0, String::from("two"), true)));
    assert!(!matchers.matches_arguments(&(1, String::from("2"), true)));
    assert!(!matchers.matches_arguments(&(1, String::from("two"), false)));
    assert!(!matchers.matches_arguments(&(0, String::from("2"), false)));
}

#[test]
fn one_mismatch_in_twelve_arguments_is_enough() {
    let matchers = (
        PartialEqMatcher { value: 0u8 },
        PartialEqMatcher { value: 1u8 },
        PartialEqMatcher { value: 2u8 },
        PartialEqMatcher { value: 3u8 },
        PartialEqMatcher { value: 4u8 },
        PartialEqMatcher { value: 5u8 },
        PartialEqMatcher { value: 6u8 },
        PartialEqMatcher { value: 7u8 },
        PartialEqMatcher { value: 8u8 },
        PartialEqMatcher { value: 9u8 },
        PartialEqMatcher { value: 10u8 },
        PartialEqMatcher { value: 11u8 },
    );

    assert!(matchers.matches_arguments(&(0, 1, 2, 3, 4, 5, 6, 7, 8, 9, 10, 11)));
    assert!(!matchers.matches_arguments(&(9, 1, 2, 3, 4, 5, 6, 7, 8, 9, 10, 11)));
    assert!(!matchers.matches_arguments(&(0, 1, 2, 3, 4, 5, 0, 7, 8, 9, 10, 11)));
    assert!(!matchers.matches_arguments(&(0, 1, 2, 3, 4, 5, 6, 7, 8, 9, 10, 0)));
    assert_eq!("(0, 1, 2, 3, 4, 5, 6, 7, 8, 9, 10, 11)", matchers.fmt());
}

#[test]
fn matchers_of_different_kinds_are_combined() {
    let matchers = (AnyArgumentMatcher, PartialEqMatcher { value: true });

    assert!(matchers.matches_arguments(&(1u64, true)));
    assert!(matchers.matches_arguments(&(2u64, true)));
    assert!(!matchers.matches_arguments(&(1u64, false)));
    assert_eq!("(*, ?)", (AnyArgumentMatcher, Opaque).fmt());
}

struct Opaque;

impl MaybeDebug for Opaque {
    fn fmt(&self) -> String {
        mockiato::debug::placeholder_string()
    }
}

#[test]
fn any_matches_everything() {
    assert!(AnyArgumentMatcher.matches_argument(&0u64));
    assert!(AnyArgumentMatcher.matches_argument(&String::from("anything")));
    assert!(ArgumentMatcherFactory::new().any().matches_argument(&Opaque));
    assert_eq!("*", AnyArgumentMatcher.fmt());
}

#[test]
fn a_plain_value_becomes_an_equality_matcher() {
    let matcher = "Jane".into_argument_matcher();

    assert_eq!("Jane", matcher.value);
    assert!(matcher.matches_argument(&"Jane"));
    assert!(!matcher.matches_argument(&"Bob"));
    assert!(!matcher.matches_argument(&"Jan"));
    assert_eq!("\"Jane\"", matcher.fmt());
}

#[test]
fn an_equality_matcher_is_made_from_its_value() {
    let matcher = PartialEqMatcher::from(3u32);
    let other = ArgumentMatcherFactory::new().partial_eq(3u32);

    assert_eq!(3, matcher.value);
    assert_eq!(3, other.value);
    assert!(matcher.matches_argument(&3));
    assert!(!matcher.matches_argument(&4));
}

#[test]
fn strings_are_equal_where_their_characters_are() {
    assert!("abc".is_same("abc"));
    assert!(!"abc".is_same("abd"));
    assert!(!"abc".is_same("ab"));
    assert!("".is_same(""));
    assert!(String::from("abc").is_same(&String::from("abc")));
    assert!(!String::from("abc").is_same(&String::from("ABC")));
}

#[test]
fn values_are_compared_for_equality() {
    assert!(().is_same(&()));
    assert!(true.is_same(&true) && !true.is_same(&false));
    assert!(7u8.is_same(&7) && !7u8.is_same(&8));
    assert!(7u16.is_same(&7) && !7u16.is_same(&8));
    assert!(7u32.is_same(&7) && !7u32.is_same(&8));
    assert!(7u64.is_same(&7) && !7u64.is_same(&8));
    assert!(7usize.is_same(&7) && !7usize.is_same(&8));
    assert!((-7i8).is_same(&-7) && !(-7i8).is_same(&7));
    assert!((-7i16).is_same(&-7) && !(-7i16).is_same(&7));
    assert!((-7i32).is_same(&-7) && !(-7i32).is_same(&7));
    assert!((-7i64).is_same(&-7) && !(-7i64).is_same(&7));
    assert!((-7isize).is_same(&-7) && !(-7isize).is_same(&7));
    assert!(Some(1u8).is_same(&Some(1)) && !Some(1u8).is_same(&Some(2)));
    assert!(!Some(1u8).is_same(&None) && !None.is_same(&Some(1u8)));
    assert!(None::<u8>.is_same(&None));
    assert!((&5u8).is_same(&&5) && !(&5u8).is_same(&&6));
}
