//! Where the matchers of this library are made.

use crate::debug::MaybeDebug;
use crate::matcher::any::AnyArgumentMatcher;
use crate::matcher::nearly_eq::{
    nearly_eq, nearly_eq_with_accuracy, NearlyEq, NearlyEqArgumentMatcher,
};
use crate::matcher::partial_eq::PartialEqMatcher;
use vstd::prelude::*;

verus! {

/// Makes the matchers that an expectation is registered with.
#[derive(Clone, Copy, Debug)]
pub struct ArgumentMatcherFactory;

impl ArgumentMatcherFactory {
    /// A factory.
    pub fn new() -> (factory: Self)
        ensures
            factory == ArgumentMatcherFactory,
    {
        ArgumentMatcherFactory
    }

    /// The matcher that accepts every argument.
    pub fn any(&self) -> (matcher: AnyArgumentMatcher)
        ensures
            matcher == AnyArgumentMatcher,
    {
        AnyArgumentMatcher
    }

    /// The matcher that accepts what is equal to `value`.
    pub fn partial_eq<T>(&self, value: T) -> (matcher: PartialEqMatcher<T>)
        ensures
            matcher == (PartialEqMatcher { value }),
    {
        PartialEqMatcher { value }
    }

    /// The matcher that accepts what is nearly equal to `value`, up to the default
    /// accuracy of its type.
    pub fn nearly_eq<T, U>(&self, value: T) -> (matcher: NearlyEqArgumentMatcher<T, U>) where
        T: NearlyEq<T, U> + MaybeDebug,
        U: MaybeDebug,

        ensures
            matcher == (NearlyEqArgumentMatcher { value, accuracy: T::default_accuracy() }),
    {
        nearly_eq(value)
    }

    /// The matcher that accepts what is nearly equal to `value`, up to `accuracy`.
    pub fn nearly_eq_with_accuracy<T, U>(&self, value: T, accuracy: U) -> (matcher:
        NearlyEqArgumentMatcher<T, U>) where T: NearlyEq<T, U> + MaybeDebug, U: MaybeDebug
        ensures
            matcher == (NearlyEqArgumentMatcher { value, accuracy }),
    {
        nearly_eq_with_accuracy(value, accuracy)
    }
}

} // verus!
