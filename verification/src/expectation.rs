//! One expected call of an operation, and how it is configured.

use crate::debug::MaybeDebug;
use crate::expected_calls::ExpectedCalls;
use crate::matcher::ArgumentsMatcher;
use crate::return_value::{Cloned, Panic, ReturnValue};
use vstd::prelude::*;
use vstd::std_specs::convert::FromSpec;

verus! {

/// One expected call of an operation: which arguments it is about, how often it
/// may be made, what it returns, and how often it was made so far.
///
/// The counter starts at zero, and nothing but the dispatch of a call moves it.
pub struct Expectation<M, G> {
    arguments_matcher: M,
    expected_calls: ExpectedCalls,
    return_value: Option<G>,
    actual_calls: u64,
}

/// What an [`Expectation`] holds.
pub struct ExpectationView<M, G> {
    /// Decides which calls the expectation is about.
    pub arguments_matcher: M,
    /// How often the call may be made.
    pub expected_calls: ExpectedCalls,
    /// What the call returns; `None` where nothing was configured.
    pub return_value: Option<G>,
    /// How often the call was made so far.
    pub actual_calls: u64,
}

impl<M, G> View for Expectation<M, G> {
    type V = ExpectationView<M, G>;

    closed spec fn view(&self) -> ExpectationView<M, G> {
        ExpectationView {
            arguments_matcher: self.arguments_matcher,
            expected_calls: self.expected_calls,
            return_value: self.return_value,
            actual_calls: self.actual_calls,
        }
    }
}

impl<M, G> ExpectationView<M, G> {
    /// Whether the call was made as often as it may be.
    pub open spec fn is_satisfied(self) -> bool {
        self.expected_calls.admits(self.actual_calls)
    }

    /// The expectation after one more call of it.
    pub open spec fn called_once_more(self) -> Self
        recommends
            self.actual_calls < u64::MAX,
    {
        ExpectationView { actual_calls: (self.actual_calls + 1) as u64, ..self }
    }
}

/// What each of the expectations holds.
pub open spec fn views<M, G>(expectations: Seq<Expectation<M, G>>) -> Seq<
    ExpectationView<M, G>,
> {
    expectations.map_values(|each: Expectation<M, G>| each@)
}

impl<M, G> Expectation<M, G> {
    /// An expectation that no call was made of yet.
    pub fn new(
        arguments_matcher: M,
        expected_calls: ExpectedCalls,
        return_value: Option<G>,
    ) -> (expectation: Self)
        ensures
            expectation@ == (ExpectationView {
                arguments_matcher,
                expected_calls,
                return_value,
                actual_calls: 0,
            }),
    {
        Expectation { arguments_matcher, expected_calls, return_value, actual_calls: 0 }
    }

    /// What decides which calls the expectation is about.
    pub fn arguments_matcher(&self) -> (arguments_matcher: &M)
        ensures
            *arguments_matcher == self@.arguments_matcher,
    {
        &self.arguments_matcher
    }

    /// How often the call may be made.
    pub fn expected_calls(&self) -> (expected_calls: ExpectedCalls)
        ensures
            expected_calls == self@.expected_calls,
    {
        self.expected_calls
    }

    /// What the call returns; `None` where nothing was configured.
    pub fn return_value(&self) -> (return_value: &Option<G>)
        ensures
            *return_value == self@.return_value,
    {
        &self.return_value
    }

    /// How often the call was made so far.
    pub fn actual_calls(&self) -> (actual_calls: u64)
        ensures
            actual_calls == self@.actual_calls,
    {
        self.actual_calls
    }

    /// Tests whether the call was made as often as it may be.
    pub fn was_called_expected_number_of_times(&self) -> (satisfied: bool)
        ensures
            satisfied == self@.is_satisfied(),
    {
        self.expected_calls.matches_value(self.actual_calls)
    }

    /// Counts one more call.
    pub(crate) fn count_call(&mut self)
        requires
            old(self)@.actual_calls < u64::MAX,
        ensures
            final(self)@ == old(self)@.called_once_more(),
    {
        self.actual_calls = self.actual_calls + 1;
    }
}

/// Whether the expectation at `index` is about calls with the arguments.
pub open spec fn matches_at<A, M: ArgumentsMatcher<A>, G>(
    expectations: Seq<ExpectationView<M, G>>,
    arguments: &A,
    index: int,
) -> bool {
    expectations[index].arguments_matcher.matches_all(arguments)
}

/// Whether the expectation at `index` matches the arguments and none before it does.
pub open spec fn is_first_match<A, M: ArgumentsMatcher<A>, G>(
    expectations: Seq<ExpectationView<M, G>>,
    arguments: &A,
    index: int,
) -> bool {
    &&& 0 <= index < expectations.len()
    &&& matches_at(expectations, arguments, index)
    &&& forall|earlier: int|
        0 <= earlier < index ==> !#[trigger] matches_at(expectations, arguments, earlier)
}

/// The index of the expectation that a call with the arguments is taken for: the
/// first, in registration order, whose matcher matches them.
pub open spec fn first_match<A, M: ArgumentsMatcher<A>, G>(
    expectations: Seq<ExpectationView<M, G>>,
    arguments: &A,
) -> Option<int> {
    if exists|index: int| is_first_match(expectations, arguments, index) {
        Some(choose|index: int| is_first_match(expectations, arguments, index))
    } else {
        None
    }
}

/// The expectations after a call with the arguments: the one that the call is taken
/// for has one call more, and nothing else has changed.
pub open spec fn after_call<A, M: ArgumentsMatcher<A>, G>(
    expectations: Seq<ExpectationView<M, G>>,
    arguments: &A,
) -> Seq<ExpectationView<M, G>> {
    match first_match(expectations, arguments) {
        Some(index) => expectations.update(index, expectations[index].called_once_more()),
        None => expectations,
    }
}

/// The expectations after as many calls with the same arguments as `calls` says.
pub open spec fn after_calls<A, M: ArgumentsMatcher<A>, G>(
    expectations: Seq<ExpectationView<M, G>>,
    arguments: &A,
    calls: nat,
) -> Seq<ExpectationView<M, G>>
    decreases calls,
{
    if calls == 0 {
        expectations
    } else {
        after_call(after_calls(expectations, arguments, (calls - 1) as nat), arguments)
    }
}

/// The renderings of the matchers of the expectations.
pub open spec fn matcher_texts<M: MaybeDebug, G>(expectations: Seq<ExpectationView<M, G>>) -> Seq<
    Seq<char>,
> {
    expectations.map_values(|each: ExpectationView<M, G>| each.arguments_matcher.debug_text())
}

/// There is one first match at most.
pub proof fn lemma_first_match_is_unique<A, M: ArgumentsMatcher<A>, G>(
    expectations: Seq<ExpectationView<M, G>>,
    arguments: &A,
    index: int,
)
    requires
        is_first_match(expectations, arguments, index),
    ensures
        first_match(expectations, arguments) == Some(index),
{
    let chosen = choose|chosen: int| is_first_match(expectations, arguments, chosen);
    if chosen < index {
        assert(!matches_at(expectations, arguments, chosen));
    }
    if index < chosen {
        assert(!matches_at(expectations, arguments, index));
    }
}

/// Where no expectation matches, no call is taken for one; and the other way round.
pub proof fn lemma_no_match_iff_none_matches<A, M: ArgumentsMatcher<A>, G>(
    expectations: Seq<ExpectationView<M, G>>,
    arguments: &A,
)
    ensures
        first_match(expectations, arguments) is None <==> forall|index: int|
            0 <= index < expectations.len() ==> !#[trigger] matches_at(
                expectations,
                arguments,
                index,
            ),
{
    if exists|index: int|
        0 <= index < expectations.len() && #[trigger] matches_at(expectations, arguments, index) {
        let some = choose|index: int|
            0 <= index < expectations.len() && #[trigger] matches_at(
                expectations,
                arguments,
                index,
            );
        lemma_least_match(expectations, arguments, some);
    }
}

/// Where an expectation matches, there is a first one that does, at that index or
/// before it.
pub proof fn lemma_least_match<A, M: ArgumentsMatcher<A>, G>(
    expectations: Seq<ExpectationView<M, G>>,
    arguments: &A,
    index: int,
)
    requires
        0 <= index < expectations.len(),
        matches_at(expectations, arguments, index),
    ensures
        first_match(expectations, arguments) matches Some(first) && first <= index
            && is_first_match(expectations, arguments, first),
    decreases index,
{
    if exists|earlier: int|
        0 <= earlier < index && #[trigger] matches_at(expectations, arguments, earlier) {
        let earlier = choose|earlier: int|
            0 <= earlier < index && #[trigger] matches_at(expectations, arguments, earlier);
        lemma_least_match(expectations, arguments, earlier);
    } else {
        assert(is_first_match(expectations, arguments, index));
        lemma_first_match_is_unique(expectations, arguments, index);
    }
}

/// Where several expectations match a call, the call is taken for the one that was
/// registered first: it alone is counted, and those after it are left as they are.
pub proof fn lemma_call_is_taken_for_first_registered<A, M: ArgumentsMatcher<A>, G>(
    expectations: Seq<ExpectationView<M, G>>,
    arguments: &A,
    earlier: int,
    later: int,
)
    requires
        0 <= earlier < later < expectations.len(),
        matches_at(expectations, arguments, earlier),
        matches_at(expectations, arguments, later),
    ensures
        first_match(expectations, arguments) matches Some(taken) && taken <= earlier,
        first_match(expectations, arguments) != Some(later),
        after_call(expectations, arguments)[later] == expectations[later],
{
    lemma_least_match(expectations, arguments, earlier);
}

/// A call changes nothing but the counter of the expectation that it is taken for,
/// so the next call with the same arguments is taken for the same expectation.
pub proof fn lemma_call_keeps_the_match<A, M: ArgumentsMatcher<A>, G>(
    expectations: Seq<ExpectationView<M, G>>,
    arguments: &A,
)
    ensures
        after_call(expectations, arguments).len() == expectations.len(),
        first_match(after_call(expectations, arguments), arguments) == first_match(
            expectations,
            arguments,
        ),
        forall|index: int|
            0 <= index < expectations.len() ==> {
                let before = #[trigger] expectations[index];
                let after = after_call(expectations, arguments)[index];
                &&& after.arguments_matcher == before.arguments_matcher
                &&& after.expected_calls == before.expected_calls
                &&& after.return_value == before.return_value
                &&& after.actual_calls == if first_match(expectations, arguments) == Some(index) {
                    (before.actual_calls + 1) as u64
                } else {
                    before.actual_calls
                }
            },
{
    let after = after_call(expectations, arguments);
    match first_match(expectations, arguments) {
        Some(index) => {
            assert(is_first_match(expectations, arguments, index));
            assert forall|earlier: int| 0 <= earlier < index implies !#[trigger] matches_at(
                after,
                arguments,
                earlier,
            ) by {
                assert(!matches_at(expectations, arguments, earlier));
            }
            assert(is_first_match(after, arguments, index));
            lemma_first_match_is_unique(after, arguments, index);
        },
        None => {
        },
    }
}

/// Every call with arguments that an expectation is taken for adds one to the
/// counter of that expectation and to no other: after `calls` calls the counter
/// is `calls` higher, and the expectation is satisfied exactly where its policy
/// admits that number.
pub proof fn lemma_each_call_is_counted<A, M: ArgumentsMatcher<A>, G>(
    expectations: Seq<ExpectationView<M, G>>,
    arguments: &A,
    index: int,
    calls: nat,
)
    requires
        first_match(expectations, arguments) == Some(index),
        expectations[index].actual_calls + calls <= u64::MAX,
    ensures
        after_calls(expectations, arguments, calls).len() == expectations.len(),
        first_match(after_calls(expectations, arguments, calls), arguments) == Some(index),
        after_calls(expectations, arguments, calls)[index] == (ExpectationView {
            actual_calls: (expectations[index].actual_calls + calls) as u64,
            ..expectations[index]
        }),
        after_calls(expectations, arguments, calls)[index].is_satisfied()
            <==> expectations[index].expected_calls.admits(
            (expectations[index].actual_calls + calls) as u64,
        ),
        forall|other: int|
            0 <= other < expectations.len() && other != index ==> after_calls(
                expectations,
                arguments,
                calls,
            )[other] == #[trigger] expectations[other],
    decreases calls,
{
    assert(is_first_match(expectations, arguments, index));
    if calls > 0 {
        let before = after_calls(expectations, arguments, (calls - 1) as nat);
        lemma_each_call_is_counted(expectations, arguments, index, (calls - 1) as nat);
        lemma_call_keeps_the_match(before, arguments);
        assert(is_first_match(before, arguments, index));
        let after = after_call(before, arguments);
        assert(after[index] == before[index].called_once_more());
        assert(forall|other: int|
            0 <= other < expectations.len() && other != index ==> after[other]
                == #[trigger] expectations[other]);
    }
}

/// Configures the expectation that was registered last. Whatever is set through
/// the builder is what the operation holds once the builder is let go of.
pub struct CallBuilder<'a, M, G> {
    /// The expectation that is being configured.
    pub call: &'a mut Expectation<M, G>,
}

impl<'a, M, G> CallBuilder<'a, M, G> {
    /// Sets how often the call may be made. A later setting replaces an earlier one.
    pub fn times<E>(self, expected_calls: E) -> (builder: Self) where ExpectedCalls: From<E>
        ensures
            final(builder.call)@ == final(self.call)@,
            builder.call@ == (ExpectationView {
                expected_calls: builder.call@.expected_calls,
                ..old(self.call)@
            }),
            <ExpectedCalls as FromSpec<E>>::obeys_from_spec() ==> builder.call@.expected_calls
                == <ExpectedCalls as FromSpec<E>>::from_spec(expected_calls),
    {
        let CallBuilder { call } = self;
        call.expected_calls = ExpectedCalls::from(expected_calls);
        CallBuilder { call }
    }

    /// Sets what produces the return value of the call. A later setting replaces an
    /// earlier one.
    pub fn returns_with(self, generator: G) -> (builder: Self)
        ensures
            final(builder.call)@ == final(self.call)@,
            builder.call@ == (ExpectationView {
                return_value: Some(generator),
                ..old(self.call)@
            }),
    {
        let CallBuilder { call } = self;
        call.return_value = Some(generator);
        CallBuilder { call }
    }
}

impl<'a, M, R> CallBuilder<'a, M, ReturnValue<R>> {
    /// Lets the call return a copy of `value`.
    pub fn returns_value(self, value: R) -> (builder: Self)
        ensures
            final(builder.call)@ == final(self.call)@,
            builder.call@ == (ExpectationView {
                return_value: Some(ReturnValue::Cloned(Cloned(value))),
                ..old(self.call)@
            }),
    {
        self.returns_with(ReturnValue::Cloned(Cloned(value)))
    }

    /// Lets the call panic, without a message.
    pub fn panics(self) -> (builder: Self)
        ensures
            final(builder.call)@ == final(self.call)@,
            builder.call@ == (ExpectationView {
                return_value: Some(ReturnValue::Panic(Panic(None))),
                ..old(self.call)@
            }),
    {
        self.returns_with(ReturnValue::Panic(Panic(None)))
    }

    /// Lets the call panic with `message`.
    pub fn panics_with_message(self, message: &'static str) -> (builder: Self)
        ensures
            final(builder.call)@ == final(self.call)@,
            builder.call@ == (ExpectationView {
                return_value: Some(ReturnValue::Panic(Panic(Some(message)))),
                ..old(self.call)@
            }),
    {
        self.returns_with(ReturnValue::Panic(Panic(Some(message))))
    }
}

} // verus!
