//! Matchers: what decides whether a call is one that an expectation speaks of.
//!
//! An [`ArgumentMatcher`] judges one argument. An [`ArgumentsMatcher`] judges all
//! arguments of a call; for an operation with arguments it is a tuple with one
//! [`ArgumentMatcher`] for each, and it matches where every one of them does.

use crate::debug::MaybeDebug;
use vstd::prelude::*;

pub mod any;
pub mod nearly_eq;
pub mod partial_eq;

verus! {

/// Judges one argument of a call. The judgement is a function of the matcher and
/// the argument: asking twice gives the same answer.
pub trait ArgumentMatcher<T>: MaybeDebug {
    /// Whether the argument is one that the matcher accepts. Nothing is known of it
    /// unless the type says what it accepts.
    open spec fn matches(&self, input: &T) -> bool {
        arbitrary()
    }

    /// Tests an argument.
    fn matches_argument(&self, input: &T) -> (matches: bool)
        ensures
            matches == self.matches(input),
    ;
}

/// Judges all arguments of a call, given as a tuple in their declared order.
pub trait ArgumentsMatcher<A>: MaybeDebug {
    /// Whether the arguments are ones that the matcher accepts. Nothing is known of
    /// it unless the type says what it accepts.
    open spec fn matches_all(&self, input: &A) -> bool {
        arbitrary()
    }

    /// Tests the arguments of a call.
    fn matches_arguments(&self, input: &A) -> (matches: bool)
        ensures
            matches == self.matches_all(input),
    ;
}

/// A value that can stand where a matcher is asked for.
pub trait IntoArgumentMatcher<T>: Sized {
    /// The matcher that the value turns into.
    type Matcher: ArgumentMatcher<T>;

    /// The matcher that the value turns into. Nothing is known of it unless the
    /// type says what it turns into.
    open spec fn argument_matcher(self) -> Self::Matcher {
        arbitrary()
    }

    /// Turns the value into a matcher.
    fn into_argument_matcher(self) -> (matcher: Self::Matcher)
        ensures
            matcher == self.argument_matcher(),
    ;
}

/// An operation without arguments has nothing to tell calls apart by: every call
/// matches.
impl ArgumentsMatcher<()> for () {
    open spec fn matches_all(&self, input: &()) -> bool {
        true
    }

    fn matches_arguments(&self, input: &()) -> (matches: bool) {
        true
    }
}

impl<A, MA> ArgumentsMatcher<(A,)> for (MA,) where
    MA: ArgumentMatcher<A>,
 {
    open spec fn matches_all(&self, input: &(A,)) -> bool {
        &&& self.0.matches(&input.0)
    }

    fn matches_arguments(&self, input: &(A,)) -> (matches: bool) {
        self.0.matches_argument(&input.0)
    }
}

impl<A, B, MA, MB> ArgumentsMatcher<(A, B)> for (MA, MB) where
    MA: ArgumentMatcher<A>,
    MB: ArgumentMatcher<B>,
 {
    open spec fn matches_all(&self, input: &(A, B)) -> bool {
        &&& self.0.matches(&input.0)
        &&& self.1.matches(&input.1)
    }

    fn matches_arguments(&self, input: &(A, B)) -> (matches: bool) {
        self.0.matches_argument(&input.0)
            && self.1.matches_argument(&input.1)
    }
}

impl<A, B, C, MA, MB, MC> ArgumentsMatcher<(A, B, C)> for (MA, MB, MC) where
    MA: ArgumentMatcher<A>,
    MB: ArgumentMatcher<B>,
    MC: ArgumentMatcher<C>,
 {
    open spec fn matches_all(&self, input: &(A, B, C)) -> bool {
        &&& self.0.matches(&input.0)
        &&& self.1.matches(&input.1)
        &&& self.2.matches(&input.2)
    }

    fn matches_arguments(&self, input: &(A, B, C)) -> (matches: bool) {
        self.0.matches_argument(&input.0)
            && self.1.matches_argument(&input.1)
            && self.2.matches_argument(&input.2)
    }
}

impl<A, B, C, D, MA, MB, MC, MD> ArgumentsMatcher<(A, B, C, D)> for (MA, MB, MC, MD) where
    MA: ArgumentMatcher<A>,
    MB: ArgumentMatcher<B>,
    MC: ArgumentMatcher<C>,
    MD: ArgumentMatcher<D>,
 {
    open spec fn matches_all(&self, input: &(A, B, C, D)) -> bool {
        &&& self.0.matches(&input.0)
        &&& self.1.matches(&input.1)
        &&& self.2.matches(&input.2)
        &&& self.3.matches(&input.3)
    }

    fn matches_arguments(&self, input: &(A, B, C, D)) -> (matches: bool) {
        self.0.matches_argument(&input.0)
            && self.1.matches_argument(&input.1)
            && self.2.matches_argument(&input.2)
            && self.3.matches_argument(&input.3)
    }
}

impl<A, B, C, D, E, MA, MB, MC, MD, ME> ArgumentsMatcher<
    (A, B, C, D, E),
> for (MA, MB, MC, MD, ME) where
    MA: ArgumentMatcher<A>,
    MB: ArgumentMatcher<B>,
    MC: ArgumentMatcher<C>,
    MD: ArgumentMatcher<D>,
    ME: ArgumentMatcher<E>,
 {
    open spec fn matches_all(&self, input: &(A, B, C, D, E)) -> bool {
        &&& self.0.matches(&input.0)
        &&& self.1.matches(&input.1)
        &&& self.2.matches(&input.2)
        &&& self.3.matches(&input.3)
        &&& self.4.matches(&input.4)
    }

    fn matches_arguments(&self, input: &(A, B, C, D, E)) -> (matches: bool) {
        self.0.matches_argument(&input.0)
            && self.1.matches_argument(&input.1)
            && self.2.matches_argument(&input.2)
            && self.3.matches_argument(&input.3)
            && self.4.matches_argument(&input.4)
    }
}

impl<A, B, C, D, E, F, MA, MB, MC, MD, ME, MF> ArgumentsMatcher<
    (A, B, C, D, E, F),
> for (MA, MB, MC, MD, ME, MF) where
    MA: ArgumentMatcher<A>,
    MB: ArgumentMatcher<B>,
    MC: ArgumentMatcher<C>,
    MD: ArgumentMatcher<D>,
    ME: ArgumentMatcher<E>,
    MF: ArgumentMatcher<F>,
 {
    open spec fn matches_all(&self, input: &(A, B, C, D, E, F)) -> bool {
        &&& self.0.matches(&input.0)
        &&& self.1.matches(&input.1)
        &&& self.2.matches(&input.2)
        &&& self.3.matches(&input.3)
        &&& self.4.matches(&input.4)
        &&& self.5.matches(&input.5)
    }

    fn matches_arguments(&self, input: &(A, B, C, D, E, F)) -> (matches: bool) {
        self.0.matches_argument(&input.0)
            && self.1.matches_argument(&input.1)
            && self.2.matches_argument(&input.2)
            && self.3.matches_argument(&input.3)
            && self.4.matches_argument(&input.4)
            && self.5.matches_argument(&input.5)
    }
}

impl<A, B, C, D, E, F, G, MA, MB, MC, MD, ME, MF, MG> ArgumentsMatcher<
    (A, B, C, D, E, F, G),
> for (MA, MB, MC, MD, ME, MF, MG) where
    MA: ArgumentMatcher<A>,
    MB: ArgumentMatcher<B>,
    MC: ArgumentMatcher<C>,
    MD: ArgumentMatcher<D>,
    ME: ArgumentMatcher<E>,
    MF: ArgumentMatcher<F>,
    MG: ArgumentMatcher<G>,
 {
    open spec fn matches_all(&self, input: &(A, B, C, D, E, F, G)) -> bool {
        &&& self.0.matches(&input.0)
        &&& self.1.matches(&input.1)
        &&& self.2.matches(&input.2)
        &&& self.3.matches(&input.3)
        &&& self.4.matches(&input.4)
        &&& self.5.matches(&input.5)
        &&& self.6.matches(&input.6)
    }

    fn matches_arguments(&self, input: &(A, B, C, D, E, F, G)) -> (matches: bool) {
        self.0.matches_argument(&input.0)
            && self.1.matches_argument(&input.1)
            && self.2.matches_argument(&input.2)
            && self.3.matches_argument(&input.3)
            && self.4.matches_argument(&input.4)
            && self.5.matches_argument(&input.5)
            && self.6.matches_argument(&input.6)
    }
}

impl<A, B, C, D, E, F, G, H, MA, MB, MC, MD, ME, MF, MG, MH> ArgumentsMatcher<
    (A, B, C, D, E, F, G, H),
> for (MA, MB, MC, MD, ME, MF, MG, MH) where
    MA: ArgumentMatcher<A>,
    MB: ArgumentMatcher<B>,
    MC: ArgumentMatcher<C>,
    MD: ArgumentMatcher<D>,
    ME: ArgumentMatcher<E>,
    MF: ArgumentMatcher<F>,
    MG: ArgumentMatcher<G>,
    MH: ArgumentMatcher<H>,
 {
    open spec fn matches_all(&self, input: &(A, B, C, D, E, F, G, H)) -> bool {
        &&& self.0.matches(&input.0)
        &&& self.1.matches(&input.1)
        &&& self.2.matches(&input.2)
        &&& self.3.matches(&input.3)
        &&& self.4.matches(&input.4)
        &&& self.5.matches(&input.5)
        &&& self.6.matches(&input.6)
        &&& self.7.matches(&input.7)
    }

    fn matches_arguments(&self, input: &(A, B, C, D, E, F, G, H)) -> (matches: bool) {
        self.0.matches_argument(&input.0)
            && self.1.matches_argument(&input.1)
            && self.2.matches_argument(&input.2)
            && self.3.matches_argument(&input.3)
            && self.4.matches_argument(&input.4)
            && self.5.matches_argument(&input.5)
            && self.6.matches_argument(&input.6)
            && self.7.matches_argument(&input.7)
    }
}

impl<A, B, C, D, E, F, G, H, I, MA, MB, MC, MD, ME, MF, MG, MH, MI> ArgumentsMatcher<
    (A, B, C, D, E, F, G, H, I),
> for (MA, MB, MC, MD, ME, MF, MG, MH, MI) where
    MA: ArgumentMatcher<A>,
    MB: ArgumentMatcher<B>,
    MC: ArgumentMatcher<C>,
    MD: ArgumentMatcher<D>,
    ME: ArgumentMatcher<E>,
    MF: ArgumentMatcher<F>,
    MG: ArgumentMatcher<G>,
    MH: ArgumentMatcher<H>,
    MI: ArgumentMatcher<I>,
 {
    open spec fn matches_all(&self, input: &(A, B, C, D, E, F, G, H, I)) -> bool {
        &&& self.0.matches(&input.0)
        &&& self.1.matches(&input.1)
        &&& self.2.matches(&input.2)
        &&& self.3.matches(&input.3)
        &&& self.4.matches(&input.4)
        &&& self.5.matches(&input.5)
        &&& self.6.matches(&input.6)
        &&& self.7.matches(&input.7)
        &&& self.8.matches(&input.8)
    }

    fn matches_arguments(&self, input: &(A, B, C, D, E, F, G, H, I)) -> (matches: bool) {
        self.0.matches_argument(&input.0)
            && self.1.matches_argument(&input.1)
            && self.2.matches_argument(&input.2)
            && self.3.matches_argument(&input.3)
            && self.4.matches_argument(&input.4)
            && self.5.matches_argument(&input.5)
            && self.6.matches_argument(&input.6)
            && self.7.matches_argument(&input.7)
            && self.8.matches_argument(&input.8)
    }
}

impl<A, B, C, D, E, F, G, H, I, J, MA, MB, MC, MD, ME, MF, MG, MH, MI, MJ> ArgumentsMatcher<
    (A, B, C, D, E, F, G, H, I, J),
> for (MA, MB, MC, MD, ME, MF, MG, MH, MI, MJ) where
    MA: ArgumentMatcher<A>,
    MB: ArgumentMatcher<B>,
    MC: ArgumentMatcher<C>,
    MD: ArgumentMatcher<D>,
    ME: ArgumentMatcher<E>,
    MF: ArgumentMatcher<F>,
    MG: ArgumentMatcher<G>,
    MH: ArgumentMatcher<H>,
    MI: ArgumentMatcher<I>,
    MJ: ArgumentMatcher<J>,
 {
    open spec fn matches_all(&self, input: &(A, B, C, D, E, F, G, H, I, J)) -> bool {
        &&& self.0.matches(&input.0)
        &&& self.1.matches(&input.1)
        &&& self.2.matches(&input.2)
        &&& self.3.matches(&input.3)
        &&& self.4.matches(&input.4)
        &&& self.5.matches(&input.5)
        &&& self.6.matches(&input.6)
        &&& self.7.matches(&input.7)
        &&& self.8.matches(&input.8)
        &&& self.9.matches(&input.9)
    }

    fn matches_arguments(&self, input: &(A, B, C, D, E, F, G, H, I, J)) -> (matches: bool) {
        self.0.matches_argument(&input.0)
            && self.1.matches_argument(&input.1)
            && self.2.matches_argument(&input.2)
            && self.3.matches_argument(&input.3)
            && self.4.matches_argument(&input.4)
            && self.5.matches_argument(&input.5)
            && self.6.matches_argument(&input.6)
            && self.7.matches_argument(&input.7)
            && self.8.matches_argument(&input.8)
            && self.9.matches_argument(&input.9)
    }
}

impl<A, B, C, D, E, F, G, H, I, J, K, MA, MB, MC, MD, ME, MF, MG, MH, MI, MJ, MK> ArgumentsMatcher<
    (A, B, C, D, E, F, G, H, I, J, K),
> for (MA, MB, MC, MD, ME, MF, MG, MH, MI, MJ, MK) where
    MA: ArgumentMatcher<A>,
    MB: ArgumentMatcher<B>,
    MC: ArgumentMatcher<C>,
    MD: ArgumentMatcher<D>,
    ME: ArgumentMatcher<E>,
    MF: ArgumentMatcher<F>,
    MG: ArgumentMatcher<G>,
    MH: ArgumentMatcher<H>,
    MI: ArgumentMatcher<I>,
    MJ: ArgumentMatcher<J>,
    MK: ArgumentMatcher<K>,
 {
    open spec fn matches_all(&self, input: &(A, B, C, D, E, F, G, H, I, J, K)) -> bool {
        &&& self.0.matches(&input.0)
        &&& self.1.matches(&input.1)
        &&& self.2.matches(&input.2)
        &&& self.3.matches(&input.3)
        &&& self.4.matches(&input.4)
        &&& self.5.matches(&input.5)
        &&& self.6.matches(&input.6)
        &&& self.7.matches(&input.7)
        &&& self.8.matches(&input.8)
        &&& self.9.matches(&input.9)
        &&& self.10.matches(&input.10)
    }

    fn matches_arguments(&self, input: &(A, B, C, D, E, F, G, H, I, J, K)) -> (matches: bool) {
        self.0.matches_argument(&input.0)
            && self.1.matches_argument(&input.1)
            && self.2.matches_argument(&input.2)
            && self.3.matches_argument(&input.3)
            && self.4.matches_argument(&input.4)
            && self.5.matches_argument(&input.5)
            && self.6.matches_argument(&input.6)
            && self.7.matches_argument(&input.7)
            && self.8.matches_argument(&input.8)
            && self.9.matches_argument(&input.9)
            && self.10.matches_argument(&input.10)
    }
}

impl<
    A, B, C, D, E, F, G, H, I, J, K, L,
    MA, MB, MC, MD, ME, MF, MG, MH, MI, MJ, MK, ML,
> ArgumentsMatcher<
    (A, B, C, D, E, F, G, H, I, J, K, L),
> for (MA, MB, MC, MD, ME, MF, MG, MH, MI, MJ, MK, ML) where
    MA: ArgumentMatcher<A>,
    MB: ArgumentMatcher<B>,
    MC: ArgumentMatcher<C>,
    MD: ArgumentMatcher<D>,
    ME: ArgumentMatcher<E>,
    MF: ArgumentMatcher<F>,
    MG: ArgumentMatcher<G>,
    MH: ArgumentMatcher<H>,
    MI: ArgumentMatcher<I>,
    MJ: ArgumentMatcher<J>,
    MK: ArgumentMatcher<K>,
    ML: ArgumentMatcher<L>,
 {
    open spec fn matches_all(&self, input: &(A, B, C, D, E, F, G, H, I, J, K, L)) -> bool {
        &&& self.0.matches(&input.0)
        &&& self.1.matches(&input.1)
        &&& self.2.matches(&input.2)
        &&& self.3.matches(&input.3)
        &&& self.4.matches(&input.4)
        &&& self.5.matches(&input.5)
        &&& self.6.matches(&input.6)
        &&& self.7.matches(&input.7)
        &&& self.8.matches(&input.8)
        &&& self.9.matches(&input.9)
        &&& self.10.matches(&input.10)
        &&& self.11.matches(&input.11)
    }

    fn matches_arguments(&self, input: &(A, B, C, D, E, F, G, H, I, J, K, L)) -> (matches: bool) {
        self.0.matches_argument(&input.0)
            && self.1.matches_argument(&input.1)
            && self.2.matches_argument(&input.2)
            && self.3.matches_argument(&input.3)
            && self.4.matches_argument(&input.4)
            && self.5.matches_argument(&input.5)
            && self.6.matches_argument(&input.6)
            && self.7.matches_argument(&input.7)
            && self.8.matches_argument(&input.8)
            && self.9.matches_argument(&input.9)
            && self.10.matches_argument(&input.10)
            && self.11.matches_argument(&input.11)
    }
}

/// Calls without arguments always match, whatever else is expected of the operation.
pub proof fn lemma_no_arguments_always_match()
    ensures
        ().matches_all(&()),
{
}

/// A pair of matchers matches exactly where both do: one position that does not
/// match is enough for the whole not to.
pub proof fn lemma_pair_matches_iff_both<A, B, MA: ArgumentMatcher<A>, MB: ArgumentMatcher<B>>(
    matchers: (MA, MB),
    input: (A, B),
)
    ensures
        matchers.matches_all(&input) <==> matchers.0.matches(&input.0) && matchers.1.matches(
            &input.1,
        ),
        !matchers.0.matches(&input.0) ==> !matchers.matches_all(&input),
        !matchers.1.matches(&input.1) ==> !matchers.matches_all(&input),
{
}

} // verus!
