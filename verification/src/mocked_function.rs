//! One mocked operation: its expectations, the dispatch of calls to them, and the
//! final check.

use crate::debug::MaybeDebug;
use crate::error::{
    lemma_unexpected_call_message, CallError, CallErrorView, UnsatisfiedExpectation,
    UnsatisfiedExpectationView, VerificationError, VerificationErrorView,
};
use crate::expectation::{
    after_call, first_match, is_first_match, lemma_first_match_is_unique,
    lemma_no_match_iff_none_matches, matcher_texts, matches_at, views, CallBuilder, Expectation,
    ExpectationView,
};
use crate::expected_calls::ExpectedCalls;
use crate::matcher::ArgumentsMatcher;
use crate::return_value::{DefaultReturnValue, ReturnValueGenerator};
use crate::text::{occurs_in, texts};
use vstd::prelude::*;

verus! {

/// One operation of a mock, with the calls that are expected of it. A call is
/// taken for the first expectation, in registration order, whose matcher accepts
/// its arguments.
pub struct MockedFunction<M, G> {
    name: &'static str,
    expectations: Vec<Expectation<M, G>>,
}

/// What a [`MockedFunction`] holds: its name, and its expectations in registration
/// order.
pub struct MockedFunctionView<M, G> {
    pub name: Seq<char>,
    pub expectations: Seq<ExpectationView<M, G>>,
}

impl<M, G> View for MockedFunction<M, G> {
    type V = MockedFunctionView<M, G>;

    closed spec fn view(&self) -> MockedFunctionView<M, G> {
        MockedFunctionView { name: self.name@, expectations: views(self.expectations@) }
    }
}

/// What the final check reports of an expectation, if anything: nothing where it
/// is satisfied.
pub open spec fn shortfall<M: MaybeDebug, G>(expectation: ExpectationView<M, G>) -> Option<
    UnsatisfiedExpectationView,
> {
    if expectation.is_satisfied() {
        None
    } else {
        Some(
            UnsatisfiedExpectationView {
                arguments: expectation.arguments_matcher.debug_text(),
                expected_calls: expectation.expected_calls,
                actual_calls: expectation.actual_calls,
            },
        )
    }
}

/// What the final check reports: the expectations that are not satisfied, in
/// registration order.
pub open spec fn unsatisfied<M: MaybeDebug, G>(expectations: Seq<ExpectationView<M, G>>) -> Seq<
    UnsatisfiedExpectationView,
> {
    expectations.filter_map(|each: ExpectationView<M, G>| shortfall(each))
}

/// Whether every expectation was called as often as it may be.
pub open spec fn all_satisfied<M, G>(expectations: Seq<ExpectationView<M, G>>) -> bool {
    forall|index: int|
        0 <= index < expectations.len() ==> (#[trigger] expectations[index]).is_satisfied()
}

/// The final check has nothing to report exactly where every expectation is
/// satisfied.
pub proof fn lemma_nothing_unsatisfied_iff_all_satisfied<M: MaybeDebug, G>(
    expectations: Seq<ExpectationView<M, G>>,
)
    ensures
        unsatisfied(expectations).len() == 0 <==> all_satisfied(expectations),
    decreases expectations.len(),
{
    if expectations.len() > 0 {
        let rest = expectations.drop_last();
        lemma_nothing_unsatisfied_iff_all_satisfied(rest);
        if all_satisfied(expectations) {
            assert forall|index: int| 0 <= index < rest.len() implies (
            #[trigger] rest[index]).is_satisfied() by {
                assert(expectations[index].is_satisfied());
            }
            assert(expectations.last().is_satisfied());
        }
        if unsatisfied(expectations).len() == 0 {
            assert(expectations.last().is_satisfied());
            assert forall|index: int| 0 <= index < expectations.len() implies (
            #[trigger] expectations[index]).is_satisfied() by {
                if index < rest.len() {
                    assert(rest[index].is_satisfied());
                }
            }
        }
    }
}

/// Whether a call with the arguments can be counted: the counter of the
/// expectation that it is taken for, if there is one, can still grow.
pub open spec fn can_count<A, M: ArgumentsMatcher<A>, G>(
    expectations: Seq<ExpectationView<M, G>>,
    arguments: &A,
) -> bool {
    first_match(expectations, arguments) matches Some(index) ==> expectations[index].actual_calls
        < u64::MAX
}

/// Whether `outcome` is how a call with the arguments may end.
///
/// Where no expectation matches, the call is unexpected. Otherwise the call is
/// taken for the first expectation that matches, and ends as the return value of
/// that expectation says; where it has none, the call returns what the return type
/// has by default, and fails where that has none either.
pub open spec fn call_outcome<A, R, M, G>(
    function: MockedFunctionView<M, G>,
    arguments: &A,
    outcome: Result<R, CallError>,
) -> bool where
    A: MaybeDebug,
    R: DefaultReturnValue,
    M: ArgumentsMatcher<A>,
    G: ReturnValueGenerator<A, R>,
 {
    match first_match(function.expectations, arguments) {
        None => outcome matches Err(error) && error@ == (CallErrorView::UnexpectedCall {
            method: function.name,
            arguments: arguments.debug_text(),
            expectations: matcher_texts(function.expectations),
        }),
        Some(index) => match function.expectations[index].return_value {
            Some(generator) => match outcome {
                Ok(value) => generator.generates(arguments, Ok(value)),
                Err(error) => error matches CallError::Panic(panic) && generator.generates(
                    arguments,
                    Err(panic),
                ),
            },
            None => match R::default_generator() {
                Some(generator) => outcome == Ok::<R, CallError>(generator.0),
                None => outcome matches Err(error) && error@ == (CallErrorView::MissingReturnValue {
                    method: function.name,
                    arguments: arguments.debug_text(),
                }),
            },
        },
    }
}

/// A call that no expectation matches is reported as unexpected, and what the
/// report says names the operation and shows the arguments of the call and the
/// matcher of every expectation.
pub proof fn lemma_unexpected_call_is_reported<A, R, M, G>(
    function: MockedFunctionView<M, G>,
    arguments: &A,
    outcome: Result<R, CallError>,
) where A: MaybeDebug, R: DefaultReturnValue, M: ArgumentsMatcher<A>, G: ReturnValueGenerator<A, R>
    requires
        forall|index: int|
            0 <= index < function.expectations.len() ==> !#[trigger] matches_at(
                function.expectations,
                arguments,
                index,
            ),
        call_outcome(function, arguments, outcome),
    ensures
        outcome matches Err(error) && error@ is UnexpectedCall,
        occurs_in(function.name, outcome->Err_0@.message()),
        occurs_in(arguments.debug_text(), outcome->Err_0@.message()),
        forall|index: int|
            0 <= index < function.expectations.len() ==> occurs_in(
                (#[trigger] function.expectations[index]).arguments_matcher.debug_text(),
                outcome->Err_0@.message(),
            ),
        after_call(function.expectations, arguments) == function.expectations,
{
    lemma_no_match_iff_none_matches(function.expectations, arguments);
    let rendered = matcher_texts(function.expectations);
    lemma_unexpected_call_message(function.name, arguments.debug_text(), rendered);
    assert forall|index: int| 0 <= index < function.expectations.len() implies occurs_in(
        (#[trigger] function.expectations[index]).arguments_matcher.debug_text(),
        outcome->Err_0@.message(),
    ) by {
        assert(rendered[index] == function.expectations[index].arguments_matcher.debug_text());
    }
}

/// An operation with a single expectation, of at least one call, that was not
/// called yet: a call that the expectation matches ends as its return value says
/// and leaves the operation satisfied; any other call is unexpected and changes
/// nothing; and as long as no call was made, the final check reports the
/// expectation with no call against at least one.
pub proof fn lemma_single_expectation<A, R, M, G>(
    function: MockedFunctionView<M, G>,
    arguments: &A,
    outcome: Result<R, CallError>,
) where A: MaybeDebug, R: DefaultReturnValue, M: ArgumentsMatcher<A>, G: ReturnValueGenerator<A, R>
    requires
        function.expectations.len() == 1,
        function.expectations[0].expected_calls == ExpectedCalls::AtLeast(1),
        function.expectations[0].actual_calls == 0,
        function.expectations[0].return_value is Some,
        call_outcome(function, arguments, outcome),
    ensures
        matches_at(function.expectations, arguments, 0) ==> {
            let generator = function.expectations[0].return_value->Some_0;
            &&& outcome matches Ok(value) ==> generator.generates(arguments, Ok(value))
            &&& outcome matches Err(error) ==> error matches CallError::Panic(panic)
                && generator.generates(arguments, Err(panic))
            &&& after_call(function.expectations, arguments)[0].actual_calls == 1
            &&& all_satisfied(after_call(function.expectations, arguments))
        },
        !matches_at(function.expectations, arguments, 0) ==> {
            &&& outcome matches Err(error) && error@ is UnexpectedCall
            &&& after_call(function.expectations, arguments) == function.expectations
        },
        !all_satisfied(function.expectations),
        unsatisfied(function.expectations) == seq![
            UnsatisfiedExpectationView {
                arguments: function.expectations[0].arguments_matcher.debug_text(),
                expected_calls: ExpectedCalls::AtLeast(1),
                actual_calls: 0,
            },
        ],
{
    let expectations = function.expectations;
    if matches_at(expectations, arguments, 0) {
        assert(is_first_match(expectations, arguments, 0));
        lemma_first_match_is_unique(expectations, arguments, 0);
    } else {
        lemma_no_match_iff_none_matches(expectations, arguments);
    }
    assert(!expectations[0].is_satisfied());
    assert(expectations =~= seq![expectations[0]]);
    Seq::lemma_filter_map_singleton(
        expectations[0],
        |each: ExpectationView<M, G>| shortfall(each),
    );
}

impl<M, G> MockedFunction<M, G> {
    /// An operation of the given name, of which no call is expected yet.
    pub fn new(name: &'static str) -> (function: Self)
        ensures
            function@.name == name@,
            function@.expectations == Seq::<ExpectationView<M, G>>::empty(),
    {
        MockedFunction { name, expectations: Vec::new() }
    }

    /// The name of the operation.
    pub fn name(&self) -> (name: &'static str)
        ensures
            name@ == self@.name,
    {
        self.name
    }

    /// The expectations, in registration order.
    pub fn expectations(&self) -> (expectations: &Vec<Expectation<M, G>>)
        ensures
            views(expectations@) == self@.expectations,
    {
        &self.expectations
    }

    /// Registers an expectation, after those that are registered already, and
    /// hands out the builder that configures it further.
    pub fn register(
        &mut self,
        arguments_matcher: M,
        expected_calls: ExpectedCalls,
        return_value: Option<G>,
    ) -> (builder: CallBuilder<'_, M, G>)
        ensures
            builder.call@ == (ExpectationView {
                arguments_matcher,
                expected_calls,
                return_value,
                actual_calls: 0,
            }),
            final(self)@.name == old(self)@.name,
            final(self)@.expectations =~= old(self)@.expectations.push(final(builder.call)@),
    {
        self.expectations.push(Expectation::new(arguments_matcher, expected_calls, return_value));
        let last = self.expectations.len() - 1;
        CallBuilder { call: &mut self.expectations[last] }
    }

    /// Registers an expectation of at least one call, with no return value yet.
    pub fn add_expected_call(&mut self, arguments_matcher: M) -> (builder: CallBuilder<'_, M, G>)
        ensures
            builder.call@ == (ExpectationView::<M, G> {
                arguments_matcher,
                expected_calls: ExpectedCalls::AtLeast(1),
                return_value: None,
                actual_calls: 0,
            }),
            final(self)@.name == old(self)@.name,
            final(self)@.expectations =~= old(self)@.expectations.push(final(builder.call)@),
    {
        self.register(arguments_matcher, ExpectedCalls::AtLeast(1), None)
    }

    /// Finds the expectation that a call with the arguments is taken for.
    pub fn find_matching<A>(&self, arguments: &A) -> (found: Option<usize>) where
        M: ArgumentsMatcher<A>,

        ensures
            first_match(self@.expectations, arguments) == match found {
                Some(index) => Some(index as int),
                None => None,
            },
    {
        let mut index: usize = 0;
        while index < self.expectations.len()
            invariant
                index <= self.expectations.len(),
                forall|earlier: int|
                    0 <= earlier < index ==> !#[trigger] matches_at(
                        views(self.expectations@),
                        arguments,
                        earlier,
                    ),
            decreases self.expectations.len() - index,
        {
            if self.expectations[index].arguments_matcher().matches_arguments(arguments) {
                proof {
                    assert(is_first_match(views(self.expectations@), arguments, index as int));
                    lemma_first_match_is_unique(
                        views(self.expectations@),
                        arguments,
                        index as int,
                    );
                }
                return Some(index);
            }
            index += 1;
        }
        proof {
            lemma_no_match_iff_none_matches(views(self.expectations@), arguments);
        }
        None
    }

    /// Renders the matcher of each expectation.
    fn describe_expectations(&self) -> (rendered: Vec<String>) where M: MaybeDebug
        ensures
            texts(rendered@) == matcher_texts(views(self.expectations@)),
    {
        let mut rendered: Vec<String> = Vec::new();
        let mut index: usize = 0;
        while index < self.expectations.len()
            invariant
                index <= self.expectations.len(),
                rendered@.len() == index,
                forall|at: int|
                    0 <= at < index ==> (#[trigger] rendered@[at])@
                        == self.expectations@[at]@.arguments_matcher.debug_text(),
            decreases self.expectations.len() - index,
        {
            rendered.push(self.expectations[index].arguments_matcher().fmt());
            index += 1;
        }
        assert(texts(rendered@) =~= matcher_texts(views(self.expectations@)));
        rendered
    }

    /// Dispatches a call: counts it for the first expectation that matches the
    /// arguments, and produces what that expectation says the call returns.
    pub fn call<A, R>(&mut self, arguments: A) -> (outcome: Result<R, CallError>) where
        A: MaybeDebug,
        R: DefaultReturnValue,
        M: ArgumentsMatcher<A>,
        G: ReturnValueGenerator<A, R>,

        requires
            can_count(old(self)@.expectations, &arguments),
        ensures
            final(self)@.name == old(self)@.name,
            final(self)@.expectations == after_call(old(self)@.expectations, &arguments),
            call_outcome(old(self)@, &arguments, outcome),
    {
        match self.find_matching(&arguments) {
            None => Err(
                CallError::UnexpectedCall {
                    method: String::from_str(self.name),
                    arguments: arguments.fmt(),
                    expectations: self.describe_expectations(),
                },
            ),
            Some(index) => {
                let ghost before = views(self.expectations@);
                self.expectations[index].count_call();
                assert(views(self.expectations@) =~= before.update(
                    index as int,
                    before[index as int].called_once_more(),
                ));
                match self.expectations[index].return_value() {
                    Some(generator) => match generator.generate_return_value(arguments) {
                        Ok(value) => Ok(value),
                        Err(panic) => Err(CallError::Panic(panic)),
                    },
                    None => match R::default_return_value() {
                        Some(generator) => Ok(generator.0),
                        None => Err(
                            CallError::MissingReturnValue {
                                method: String::from_str(self.name),
                                arguments: arguments.fmt(),
                            },
                        ),
                    },
                }
            },
        }
    }

    /// The final check: whether every expectation was called as often as it may
    /// be. The error lists each one that was not.
    pub fn verify(&self) -> (checked: Result<(), VerificationError>) where M: MaybeDebug
        ensures
            checked is Ok <==> all_satisfied(self@.expectations),
            checked matches Err(error) ==> error@ == (VerificationErrorView {
                method: self@.name,
                unsatisfied: unsatisfied(self@.expectations),
            }),
    {
        let mut found: Vec<UnsatisfiedExpectation> = Vec::new();
        let mut index: usize = 0;
        while index < self.expectations.len()
            invariant
                index <= self.expectations.len(),
                found@.map_values(|each: UnsatisfiedExpectation| each@) == unsatisfied(
                    views(self.expectations@).take(index as int),
                ),
            decreases self.expectations.len() - index,
        {
            let expectation = &self.expectations[index];
            let ghost before = found@.map_values(|each: UnsatisfiedExpectation| each@);
            proof {
                views(self.expectations@).lemma_filter_map_take_succ(
                    |each: ExpectationView<M, G>| shortfall(each),
                    index as int,
                );
            }
            if !expectation.was_called_expected_number_of_times() {
                let each = UnsatisfiedExpectation {
                    arguments: expectation.arguments_matcher().fmt(),
                    expected_calls: expectation.expected_calls(),
                    actual_calls: expectation.actual_calls(),
                };
                found.push(each);
                assert(found@.map_values(|each: UnsatisfiedExpectation| each@) =~= before + seq![
                    each@,
                ]);
            } else {
                assert(before + Seq::<UnsatisfiedExpectationView>::empty() =~= before);
            }
            index += 1;
        }
        proof {
            assert(views(self.expectations@).take(index as int) =~= views(self.expectations@));
            lemma_nothing_unsatisfied_iff_all_satisfied(views(self.expectations@));
        }
        if found.len() == 0 {
            Ok(())
        } else {
            Err(VerificationError { method: String::from_str(self.name), unsatisfied: found })
        }
    }

    /// The final check as it is made when a mock is let go of: while the test is
    /// already failing nothing is checked, so that no second failure hides the first.
    pub fn verify_unless_panicking(&self, panicking: bool) -> (checked: Result<
        (),
        VerificationError,
    >) where M: MaybeDebug
        ensures
            checked is Ok <==> panicking || all_satisfied(self@.expectations),
            checked matches Err(error) ==> error@ == (VerificationErrorView {
                method: self@.name,
                unsatisfied: unsatisfied(self@.expectations),
            }),
    {
        if panicking {
            Ok(())
        } else {
            self.verify()
        }
    }
}

} // verus!
