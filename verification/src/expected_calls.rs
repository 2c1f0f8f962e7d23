//! How often an expected call may be made.

use crate::debug::MaybeDebug;
use crate::text::{decimal, decimal_string};
use std::ops::{Range, RangeFrom, RangeInclusive, RangeToInclusive};
use vstd::prelude::*;
use vstd::std_specs::convert::FromSpecImpl;

verus! {

/// `std::ops::RangeFrom`, a range with a lower bound only, such as `2..`. Its one
/// field, `start`, is public.
#[verifier::external_type_specification]
#[verifier::reject_recursive_types(Idx)]
pub struct ExRangeFrom<Idx>(RangeFrom<Idx>);

/// `std::ops::RangeToInclusive`, a range with an inclusive upper bound only, such as
/// `..=5`. Its one field, `end`, is public.
#[verifier::external_type_specification]
#[verifier::reject_recursive_types(Idx)]
pub struct ExRangeToInclusive<Idx>(RangeToInclusive<Idx>);

/// `std::ops::RangeInclusive::into_inner` takes the range apart into its lower
/// bound and its inclusive upper bound, in this order.
pub assume_specification<Idx>[ RangeInclusive::<Idx>::into_inner ](
    range: RangeInclusive<Idx>,
) -> (bounds: (Idx, Idx))
    ensures
        bounds.0 == range@.start,
        bounds.1 == range@.end,
;

/// The number of calls that an expectation allows.
#[derive(Clone, Copy, Debug, PartialEq, Eq, Structural)]
pub enum ExpectedCalls {
    /// Any number of calls, none included.
    Any,
    /// Exactly this many calls.
    Exact(u64),
    /// This many calls or more.
    AtLeast(u64),
    /// This many calls or fewer.
    AtMost(u64),
    /// At least `start` calls and fewer than `end`.
    Between { start: u64, end: u64 },
    /// At least `start` calls and at most `end`.
    BetweenInclusive { start: u64, end: u64 },
}

impl ExpectedCalls {
    /// Whether `value` calls are within what is allowed.
    pub open spec fn admits(self, value: u64) -> bool {
        match self {
            ExpectedCalls::Any => true,
            ExpectedCalls::Exact(expected) => value == expected,
            ExpectedCalls::AtLeast(min) => min <= value,
            ExpectedCalls::AtMost(max) => value <= max,
            ExpectedCalls::Between { start, end } => start <= value < end,
            ExpectedCalls::BetweenInclusive { start, end } => start <= value <= end,
        }
    }

    /// The bounds of a range are in order. A range whose bounds are not admits no
    /// number of calls.
    pub open spec fn well_formed(self) -> bool {
        match self {
            ExpectedCalls::Between { start, end } => start <= end,
            ExpectedCalls::BetweenInclusive { start, end } => start <= end,
            _ => true,
        }
    }

    pub fn matches_value(&self, value: u64) -> (matches: bool)
        ensures
            matches == self.admits(value),
    {
        match self {
            ExpectedCalls::Any => true,
            ExpectedCalls::Exact(expected) => *expected == value,
            ExpectedCalls::AtLeast(min) => value >= *min,
            ExpectedCalls::AtMost(max) => value <= *max,
            ExpectedCalls::Between { start, end } => value >= *start && value < *end,
            ExpectedCalls::BetweenInclusive { start, end } => value >= *start && value <= *end,
        }
    }
}

impl MaybeDebug for ExpectedCalls {
    open spec fn debug_text(&self) -> Seq<char> {
        match *self {
            ExpectedCalls::Any => "any number of times"@,
            ExpectedCalls::Exact(expected) => "exactly "@ + decimal(expected as nat) + " times"@,
            ExpectedCalls::AtLeast(min) => "at least "@ + decimal(min as nat) + " times"@,
            ExpectedCalls::AtMost(max) => "at most "@ + decimal(max as nat) + " times"@,
            ExpectedCalls::Between { start, end } => "at least "@ + decimal(start as nat)
                + " and fewer than "@ + decimal(end as nat) + " times"@,
            ExpectedCalls::BetweenInclusive { start, end } => "at least "@ + decimal(start as nat)
                + " and at most "@ + decimal(end as nat) + " times"@,
        }
    }

    fn fmt(&self) -> (text: String) {
        match self {
            ExpectedCalls::Any => String::from_str("any number of times"),
            ExpectedCalls::Exact(expected) => String::from_str("exactly ").concat(
                decimal_string(*expected).as_str(),
            ).concat(" times"),
            ExpectedCalls::AtLeast(min) => String::from_str("at least ").concat(
                decimal_string(*min).as_str(),
            ).concat(" times"),
            ExpectedCalls::AtMost(max) => String::from_str("at most ").concat(
                decimal_string(*max).as_str(),
            ).concat(" times"),
            ExpectedCalls::Between { start, end } => String::from_str("at least ").concat(
                decimal_string(*start).as_str(),
            ).concat(" and fewer than ").concat(decimal_string(*end).as_str()).concat(" times"),
            ExpectedCalls::BetweenInclusive { start, end } => String::from_str(
                "at least ",
            ).concat(decimal_string(*start).as_str()).concat(" and at most ").concat(
                decimal_string(*end).as_str(),
            ).concat(" times"),
        }
    }
}

impl From<u64> for ExpectedCalls {
    fn from(value: u64) -> (calls: ExpectedCalls)
        ensures
            calls == ExpectedCalls::Exact(value),
            calls.well_formed(),
    {
        ExpectedCalls::Exact(value)
    }
}

impl FromSpecImpl<u64> for ExpectedCalls {
    open spec fn obeys_from_spec() -> bool {
        true
    }

    open spec fn from_spec(value: u64) -> ExpectedCalls {
        ExpectedCalls::Exact(value)
    }
}

impl From<RangeFrom<u64>> for ExpectedCalls {
    fn from(range: RangeFrom<u64>) -> (calls: ExpectedCalls)
        ensures
            calls == ExpectedCalls::AtLeast(range.start),
            calls.well_formed(),
    {
        ExpectedCalls::AtLeast(range.start)
    }
}

impl FromSpecImpl<RangeFrom<u64>> for ExpectedCalls {
    open spec fn obeys_from_spec() -> bool {
        true
    }

    open spec fn from_spec(range: RangeFrom<u64>) -> ExpectedCalls {
        ExpectedCalls::AtLeast(range.start)
    }
}

impl From<Range<u64>> for ExpectedCalls {
    fn from(range: Range<u64>) -> (calls: ExpectedCalls)
        ensures
            calls == (ExpectedCalls::Between { start: range.start, end: range.end }),
            calls.well_formed() <==> range.start <= range.end,
    {
        ExpectedCalls::Between { start: range.start, end: range.end }
    }
}

impl FromSpecImpl<Range<u64>> for ExpectedCalls {
    open spec fn obeys_from_spec() -> bool {
        true
    }

    open spec fn from_spec(range: Range<u64>) -> ExpectedCalls {
        ExpectedCalls::Between { start: range.start, end: range.end }
    }
}

impl From<RangeInclusive<u64>> for ExpectedCalls {
    fn from(range: RangeInclusive<u64>) -> (calls: ExpectedCalls)
        ensures
            calls == (ExpectedCalls::BetweenInclusive { start: range@.start, end: range@.end }),
            calls.well_formed() <==> range@.start <= range@.end,
    {
        let (start, end) = range.into_inner();

        ExpectedCalls::BetweenInclusive { start, end }
    }
}

impl FromSpecImpl<RangeInclusive<u64>> for ExpectedCalls {
    open spec fn obeys_from_spec() -> bool {
        true
    }

    open spec fn from_spec(range: RangeInclusive<u64>) -> ExpectedCalls {
        ExpectedCalls::BetweenInclusive { start: range@.start, end: range@.end }
    }
}

impl From<RangeToInclusive<u64>> for ExpectedCalls {
    fn from(range: RangeToInclusive<u64>) -> (calls: ExpectedCalls)
        ensures
            calls == ExpectedCalls::AtMost(range.end),
            calls.well_formed(),
    {
        ExpectedCalls::AtMost(range.end)
    }
}

impl FromSpecImpl<RangeToInclusive<u64>> for ExpectedCalls {
    open spec fn obeys_from_spec() -> bool {
        true
    }

    open spec fn from_spec(range: RangeToInclusive<u64>) -> ExpectedCalls {
        ExpectedCalls::AtMost(range.end)
    }
}

/// Every variant admits exactly the counts within its bounds: the bounds themselves
/// where they are inclusive, and nothing one step outside of them.
pub proof fn lemma_boundaries_are_exact(first: u64, second: u64)
    ensures
        forall|value: u64| ExpectedCalls::Any.admits(value),
        forall|value: u64| ExpectedCalls::Exact(first).admits(value) <==> value == first,
        forall|value: u64| ExpectedCalls::AtLeast(first).admits(value) <==> value >= first,
        forall|value: u64| ExpectedCalls::AtMost(first).admits(value) <==> value <= first,
        forall|value: u64|
            (ExpectedCalls::Between { start: first, end: second }).admits(value) <==> first <= value
                && value < second,
        forall|value: u64|
            (ExpectedCalls::BetweenInclusive { start: first, end: second }).admits(value) <==> first
                <= value && value <= second,
        first < second ==> {
            let between = ExpectedCalls::Between { start: first, end: second };
            between.admits(first) && between.admits((second - 1) as u64) && !between.admits(second)
        },
        first <= second ==> {
            let inclusive = ExpectedCalls::BetweenInclusive { start: first, end: second };
            inclusive.admits(first) && inclusive.admits(second)
        },
{
}

/// A range whose bounds are out of order admits nothing; a half-open range whose
/// bounds are equal admits nothing either.
pub proof fn lemma_empty_ranges(start: u64, end: u64, value: u64)
    ensures
        start >= end ==> !(ExpectedCalls::Between { start, end }).admits(value),
        start > end ==> !(ExpectedCalls::BetweenInclusive { start, end }).admits(value),
{
}

/// Whatever is not well formed admits no number of calls, and whatever is admits
/// one, but for the half-open range between a number and itself.
pub proof fn lemma_well_formed_admits_some(calls: ExpectedCalls)
    ensures
        !calls.well_formed() ==> forall|value: u64| !calls.admits(value),
        calls.well_formed() && !(calls matches ExpectedCalls::Between { start, end } && start
            == end) ==> exists|value: u64| calls.admits(value),
{
    match calls {
        ExpectedCalls::Any => assert(calls.admits(0)),
        ExpectedCalls::Exact(expected) => assert(calls.admits(expected)),
        ExpectedCalls::AtLeast(min) => assert(calls.admits(min)),
        ExpectedCalls::AtMost(max) => assert(calls.admits(max)),
        ExpectedCalls::Between { start, end } => {
            if start < end {
                assert(calls.admits(start));
            }
        },
        ExpectedCalls::BetweenInclusive { start, end } => {
            if start <= end {
                assert(calls.admits(start));
            }
        },
    }
}

} // verus!
