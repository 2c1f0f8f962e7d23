//! Runtime of a mocking framework: expectations on the calls of one operation,
//! dispatch of real calls to them, and the check that every expectation was met.
//!
//! A [`MockedFunction`] stands for one operation of a mock. Expectations are
//! registered with it in the order in which they are to be tried; each holds a
//! matcher for the arguments, the number of calls that it allows
//! ([`ExpectedCalls`]) and what its call returns. A call is dispatched to the
//! first expectation whose matcher accepts its arguments. The final check reports
//! every expectation whose call was not made as often as it allows.

pub mod argument_matcher_factory;
pub mod debug;
pub mod error;
pub mod expectation;
pub mod expected_calls;
pub mod matcher;
pub mod mocked_function;
pub mod return_value;
pub mod text;

pub use crate::argument_matcher_factory::ArgumentMatcherFactory;
pub use crate::debug::{
    DisplayOption, MaybeDebug, MaybeDebugExt, MaybeDebugExtWrapper, MaybeDebugWrapper,
};
pub use crate::error::{CallError, UnsatisfiedExpectation, VerificationError};
pub use crate::expectation::{CallBuilder, Expectation, ExpectationView};
pub use crate::expected_calls::ExpectedCalls;
pub use crate::matcher::any::AnyArgumentMatcher;
pub use crate::matcher::nearly_eq::{
    nearly_eq, nearly_eq_with_accuracy, NearlyEq, NearlyEqArgumentMatcher,
};
pub use crate::matcher::partial_eq::{MatchEq, PartialEqMatcher};
pub use crate::matcher::{ArgumentMatcher, ArgumentsMatcher, IntoArgumentMatcher};
pub use crate::mocked_function::MockedFunction;
pub use crate::return_value::{
    Cloned, Computed, DefaultReturnValue, Panic, ReturnValue, ReturnValueGenerator,
};
