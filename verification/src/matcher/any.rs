//! The matcher that accepts every argument.

use crate::debug::MaybeDebug;
use crate::matcher::ArgumentMatcher;
use vstd::prelude::*;

verus! {

/// Accepts every argument.
#[derive(Clone, Copy, Debug)]
pub struct AnyArgumentMatcher;

impl MaybeDebug for AnyArgumentMatcher {
    open spec fn debug_text(&self) -> Seq<char> {
        "*"@
    }

    fn fmt(&self) -> (text: String) {
        String::from_str("*")
    }
}

impl<T> ArgumentMatcher<T> for AnyArgumentMatcher {
    open spec fn matches(&self, input: &T) -> bool {
        true
    }

    fn matches_argument(&self, input: &T) -> (matches: bool) {
        true
    }
}

} // verus!
