//! The matcher that accepts what is equal to a given value.

use crate::debug::MaybeDebug;
use crate::matcher::{ArgumentMatcher, IntoArgumentMatcher};
use vstd::prelude::*;

verus! {

/// Values that can be compared for equality, with a stated meaning of it.
pub trait MatchEq {
    /// Whether the two values count as equal. Nothing is known of it unless the
    /// type says what its equality is.
    open spec fn same(&self, other: &Self) -> bool {
        arbitrary()
    }

    /// Compares the two values.
    fn is_same(&self, other: &Self) -> (same: bool)
        ensures
            same == self.same(other),
    ;
}

/// `<str as PartialEq>::eq` of `std`: two strings are equal where they hold the
/// same characters in the same order.
#[verifier::external_body]
fn str_eq(left: &str, right: &str) -> (same: bool)
    ensures
        same == (left@ == right@),
{
    left == right
}

impl MatchEq for () {
    open spec fn same(&self, other: &()) -> bool {
        true
    }

    fn is_same(&self, other: &()) -> (same: bool) {
        true
    }
}

impl MatchEq for bool {
    open spec fn same(&self, other: &bool) -> bool {
        *self == *other
    }

    fn is_same(&self, other: &bool) -> (same: bool) {
        *self == *other
    }
}

impl MatchEq for u8 {
    open spec fn same(&self, other: &u8) -> bool {
        *self == *other
    }

    fn is_same(&self, other: &u8) -> (same: bool) {
        *self == *other
    }
}

impl MatchEq for u16 {
    open spec fn same(&self, other: &u16) -> bool {
        *self == *other
    }

    fn is_same(&self, other: &u16) -> (same: bool) {
        *self == *other
    }
}

impl MatchEq for u32 {
    open spec fn same(&self, other: &u32) -> bool {
        *self == *other
    }

    fn is_same(&self, other: &u32) -> (same: bool) {
        *self == *other
    }
}

impl MatchEq for u64 {
    open spec fn same(&self, other: &u64) -> bool {
        *self == *other
    }

    fn is_same(&self, other: &u64) -> (same: bool) {
        *self == *other
    }
}

impl MatchEq for usize {
    open spec fn same(&self, other: &usize) -> bool {
        *self == *other
    }

    fn is_same(&self, other: &usize) -> (same: bool) {
        *self == *other
    }
}

impl MatchEq for i8 {
    open spec fn same(&self, other: &i8) -> bool {
        *self == *other
    }

    fn is_same(&self, other: &i8) -> (same: bool) {
        *self == *other
    }
}

impl MatchEq for i16 {
    open spec fn same(&self, other: &i16) -> bool {
        *self == *other
    }

    fn is_same(&self, other: &i16) -> (same: bool) {
        *self == *other
    }
}

impl MatchEq for i32 {
    open spec fn same(&self, other: &i32) -> bool {
        *self == *other
    }

    fn is_same(&self, other: &i32) -> (same: bool) {
        *self == *other
    }
}

impl MatchEq for i64 {
    open spec fn same(&self, other: &i64) -> bool {
        *self == *other
    }

    fn is_same(&self, other: &i64) -> (same: bool) {
        *self == *other
    }
}

impl MatchEq for isize {
    open spec fn same(&self, other: &isize) -> bool {
        *self == *other
    }

    fn is_same(&self, other: &isize) -> (same: bool) {
        *self == *other
    }
}

impl MatchEq for str {
    open spec fn same(&self, other: &str) -> bool {
        self@ == other@
    }

    fn is_same(&self, other: &str) -> (same: bool) {
        str_eq(self, other)
    }
}

impl MatchEq for String {
    open spec fn same(&self, other: &String) -> bool {
        self@ == other@
    }

    fn is_same(&self, other: &String) -> (same: bool) {
        *self == *other
    }
}

impl<'a, T: MatchEq + ?Sized> MatchEq for &'a T {
    open spec fn same(&self, other: &&'a T) -> bool {
        (**self).same(&**other)
    }

    fn is_same(&self, other: &&'a T) -> (same: bool) {
        (**self).is_same(&**other)
    }
}

impl<T: MatchEq> MatchEq for Option<T> {
    open spec fn same(&self, other: &Option<T>) -> bool {
        match (*self, *other) {
            (Some(left), Some(right)) => left.same(&right),
            (None, None) => true,
            _ => false,
        }
    }

    fn is_same(&self, other: &Option<T>) -> (same: bool) {
        match (self, other) {
            (Some(left), Some(right)) => left.is_same(right),
            (None, None) => true,
            _ => false,
        }
    }
}

/// Accepts the arguments that are equal to the value it was made with.
pub struct PartialEqMatcher<T> {
    /// The value that an argument has to be equal to.
    pub value: T,
}

impl<T> From<T> for PartialEqMatcher<T> {
    fn from(value: T) -> (matcher: PartialEqMatcher<T>)
        ensures
            matcher.value == value,
    {
        PartialEqMatcher { value }
    }
}

impl<T> vstd::std_specs::convert::FromSpecImpl<T> for PartialEqMatcher<T> {
    open spec fn obeys_from_spec() -> bool {
        true
    }

    open spec fn from_spec(value: T) -> PartialEqMatcher<T> {
        PartialEqMatcher { value }
    }
}

impl<T: MaybeDebug> MaybeDebug for PartialEqMatcher<T> {
    open spec fn debug_text(&self) -> Seq<char> {
        self.value.debug_text()
    }

    fn fmt(&self) -> (text: String) {
        self.value.fmt()
    }
}

impl<T: MatchEq + MaybeDebug> ArgumentMatcher<T> for PartialEqMatcher<T> {
    open spec fn matches(&self, input: &T) -> bool {
        self.value.same(input)
    }

    fn matches_argument(&self, input: &T) -> (matches: bool) {
        self.value.is_same(input)
    }
}

/// A plain value stands for the matcher that accepts what is equal to it.
impl<T: MatchEq + MaybeDebug> IntoArgumentMatcher<T> for T {
    type Matcher = PartialEqMatcher<T>;

    open spec fn argument_matcher(self) -> PartialEqMatcher<T> {
        PartialEqMatcher { value: self }
    }

    fn into_argument_matcher(self) -> (matcher: PartialEqMatcher<T>) {
        PartialEqMatcher { value: self }
    }
}

} // verus!
