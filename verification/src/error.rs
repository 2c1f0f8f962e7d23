//! How a call or the final check fails, and what the failure says.

use crate::debug::MaybeDebug;
use crate::expected_calls::ExpectedCalls;
use crate::return_value::Panic;
use crate::text::{
    decimal, decimal_string, join, joined, lemma_occurs_in_concat, lemma_occurs_in_larger,
    lemma_part_occurs_in_joined, occurs_in, texts,
};
use vstd::prelude::*;

verus! {

/// Why a call did not return a value.
#[derive(Debug)]
pub enum CallError {
    /// No expectation matches the arguments of the call.
    UnexpectedCall {
        /// The name of the operation.
        method: String,
        /// The rendering of the arguments of the call.
        arguments: String,
        /// The renderings of the matchers of all expectations, in registration order.
        expectations: Vec<String>,
    },
    /// The expectation that the call was taken for has no return value, and the
    /// return type has none by default.
    MissingReturnValue {
        /// The name of the operation.
        method: String,
        /// The rendering of the arguments of the call.
        arguments: String,
    },
    /// The expectation that the call was taken for asks for a panic.
    Panic(Panic),
}

/// A [`CallError`] with its texts as sequences of characters.
pub enum CallErrorView {
    UnexpectedCall { method: Seq<char>, arguments: Seq<char>, expectations: Seq<Seq<char>> },
    MissingReturnValue { method: Seq<char>, arguments: Seq<char> },
    Panic(Panic),
}

impl View for CallError {
    type V = CallErrorView;

    open spec fn view(&self) -> CallErrorView {
        match self {
            CallError::UnexpectedCall { method, arguments, expectations } => {
                CallErrorView::UnexpectedCall {
                    method: method@,
                    arguments: arguments@,
                    expectations: texts(expectations@),
                }
            },
            CallError::MissingReturnValue { method, arguments } => {
                CallErrorView::MissingReturnValue { method: method@, arguments: arguments@ }
            },
            CallError::Panic(panic) => CallErrorView::Panic(*panic),
        }
    }
}

/// Each text of `items` with `prefix` before it.
pub open spec fn prefixed(prefix: Seq<char>, items: Seq<Seq<char>>) -> Seq<Seq<char>> {
    items.map_values(|item: Seq<char>| prefix + item)
}

/// Puts `prefix` before each string of `items`.
pub fn prefix_each(prefix: &str, items: &Vec<String>) -> (lines: Vec<String>)
    ensures
        texts(lines@) == prefixed(prefix@, texts(items@)),
{
    let mut lines: Vec<String> = Vec::new();
    let mut index: usize = 0;
    while index < items.len()
        invariant
            index <= items.len(),
            lines@.len() == index,
            forall|at: int| 0 <= at < index ==> (#[trigger] lines@[at])@ == prefix@ + items@[at]@,
        decreases items.len() - index,
    {
        lines.push(String::from_str(prefix).concat(items[index].as_str()));
        index += 1;
    }
    assert(texts(lines@) =~= prefixed(prefix@, texts(items@)));
    lines
}

impl CallErrorView {
    /// What the failure says.
    pub open spec fn message(self) -> Seq<char> {
        match self {
            CallErrorView::UnexpectedCall { method, arguments, expectations } => {
                "The call "@ + method + arguments + " was not expected. Expected calls:\n"@
                    + joined(prefixed(method, expectations), "\n"@)
            },
            CallErrorView::MissingReturnValue { method, arguments } => {
                "The call "@ + method + arguments + " has no return value."@
            },
            CallErrorView::Panic(panic) => panic.text(),
        }
    }
}

impl CallError {
    /// Writes what the failure says.
    pub fn message(&self) -> (text: String)
        ensures
            text@ == self@.message(),
    {
        match self {
            CallError::UnexpectedCall { method, arguments, expectations } => {
                let lines = prefix_each(method.as_str(), expectations);
                String::from_str("The call ").concat(method.as_str()).concat(
                    arguments.as_str(),
                ).concat(" was not expected. Expected calls:\n").concat(
                    join(&lines, "\n").as_str(),
                )
            },
            CallError::MissingReturnValue { method, arguments } => {
                String::from_str("The call ").concat(method.as_str()).concat(
                    arguments.as_str(),
                ).concat(" has no return value.")
            },
            CallError::Panic(panic) => panic.fmt(),
        }
    }
}

/// An expectation that was not met at the final check.
#[derive(Debug)]
pub struct UnsatisfiedExpectation {
    /// The rendering of the matcher of the expectation.
    pub arguments: String,
    /// How often the expectation allows its call.
    pub expected_calls: ExpectedCalls,
    /// How often the call was made.
    pub actual_calls: u64,
}

/// An [`UnsatisfiedExpectation`] with its text as a sequence of characters.
pub struct UnsatisfiedExpectationView {
    pub arguments: Seq<char>,
    pub expected_calls: ExpectedCalls,
    pub actual_calls: u64,
}

impl View for UnsatisfiedExpectation {
    type V = UnsatisfiedExpectationView;

    open spec fn view(&self) -> UnsatisfiedExpectationView {
        UnsatisfiedExpectationView {
            arguments: self.arguments@,
            expected_calls: self.expected_calls,
            actual_calls: self.actual_calls,
        }
    }
}

impl UnsatisfiedExpectationView {
    /// What is said of the expectation: the call, how often it was expected and
    /// how often it was made.
    pub open spec fn line(self, method: Seq<char>) -> Seq<char> {
        method + self.arguments + ": expected "@ + self.expected_calls.debug_text() + ", called "@
            + decimal(self.actual_calls as nat) + " times"@
    }
}

impl UnsatisfiedExpectation {
    /// Writes what is said of the expectation.
    pub fn line(&self, method: &str) -> (text: String)
        ensures
            text@ == self@.line(method@),
    {
        String::from_str(method).concat(self.arguments.as_str()).concat(": expected ").concat(
            self.expected_calls.fmt().as_str(),
        ).concat(", called ").concat(decimal_string(self.actual_calls).as_str()).concat(" times")
    }
}

/// The final check found expectations that were not met.
#[derive(Debug)]
pub struct VerificationError {
    /// The name of the operation.
    pub method: String,
    /// The expectations that were not met, in registration order.
    pub unsatisfied: Vec<UnsatisfiedExpectation>,
}

/// A [`VerificationError`] with its texts as sequences of characters.
pub struct VerificationErrorView {
    pub method: Seq<char>,
    pub unsatisfied: Seq<UnsatisfiedExpectationView>,
}

impl View for VerificationError {
    type V = VerificationErrorView;

    open spec fn view(&self) -> VerificationErrorView {
        VerificationErrorView {
            method: self.method@,
            unsatisfied: self.unsatisfied@.map_values(|each: UnsatisfiedExpectation| each@),
        }
    }
}

impl VerificationErrorView {
    /// What is said of each expectation that was not met.
    pub open spec fn lines(self) -> Seq<Seq<char>> {
        self.unsatisfied.map_values(|each: UnsatisfiedExpectationView| each.line(self.method))
    }

    /// What the failure says.
    pub open spec fn message(self) -> Seq<char> {
        "The expectations of "@ + self.method + " were not met:\n"@ + joined(self.lines(), "\n"@)
    }
}

impl VerificationError {
    /// Writes what the failure says.
    pub fn message(&self) -> (text: String)
        ensures
            text@ == self@.message(),
    {
        let mut lines: Vec<String> = Vec::new();
        let mut index: usize = 0;
        while index < self.unsatisfied.len()
            invariant
                index <= self.unsatisfied.len(),
                lines@.len() == index,
                forall|at: int|
                    0 <= at < index ==> (#[trigger] lines@[at])@ == self.unsatisfied@[at]@.line(
                        self.method@,
                    ),
            decreases self.unsatisfied.len() - index,
        {
            lines.push(self.unsatisfied[index].line(self.method.as_str()));
            index += 1;
        }
        assert(texts(lines@) =~= self@.lines());
        String::from_str("The expectations of ").concat(self.method.as_str()).concat(
            " were not met:\n",
        ).concat(join(&lines, "\n").as_str())
    }
}

/// What is said of a call that was not expected names the operation and shows
/// the matcher of every expectation.
pub proof fn lemma_unexpected_call_message(
    method: Seq<char>,
    arguments: Seq<char>,
    expectations: Seq<Seq<char>>,
)
    ensures
        occurs_in(
            method,
            (CallErrorView::UnexpectedCall { method, arguments, expectations }).message(),
        ),
        occurs_in(
            arguments,
            (CallErrorView::UnexpectedCall { method, arguments, expectations }).message(),
        ),
        forall|index: int|
            0 <= index < expectations.len() ==> occurs_in(
                #[trigger] expectations[index],
                (CallErrorView::UnexpectedCall { method, arguments, expectations }).message(),
            ),
{
    let message = (CallErrorView::UnexpectedCall { method, arguments, expectations }).message();
    let head = "The call "@;
    let middle = " was not expected. Expected calls:\n"@;
    let lines = prefixed(method, expectations);
    let list = joined(lines, "\n"@);
    let empty = Seq::<char>::empty();
    lemma_occurs_in_concat(head, method, arguments + middle + list);
    assert(head + method + (arguments + middle + list) =~= message);
    lemma_occurs_in_concat(head + method, arguments, middle + list);
    assert(head + method + arguments + (middle + list) =~= message);
    assert forall|index: int| 0 <= index < expectations.len() implies occurs_in(
        #[trigger] expectations[index],
        message,
    ) by {
        let needle = expectations[index];
        lemma_occurs_in_concat(method, needle, empty);
        assert(method + needle + empty =~= lines[index]);
        lemma_part_occurs_in_joined(lines, "\n"@, index);
        let at_line = choose|at: int| crate::text::occurs_at(needle, lines[index], at);
        let at_list = choose|at: int| crate::text::occurs_at(lines[index], list, at);
        assert(list.subrange(at_list + at_line, at_list + at_line + needle.len())
            =~= lines[index].subrange(at_line, at_line + needle.len()));
        assert(crate::text::occurs_at(needle, list, at_list + at_line));
        lemma_occurs_in_larger(needle, list, head + method + arguments + middle, empty);
        assert(head + method + arguments + middle + list + empty =~= message);
    }
}

/// What is said of a failed final check names the operation and, for every
/// expectation that was not met, shows its matcher, how often its call was expected
/// and how often it was made.
pub proof fn lemma_verification_message(error: VerificationErrorView, index: int)
    requires
        0 <= index < error.unsatisfied.len(),
    ensures
        occurs_in(error.method, error.message()),
        occurs_in(error.unsatisfied[index].line(error.method), error.message()),
        occurs_in(error.unsatisfied[index].arguments, error.unsatisfied[index].line(error.method)),
        occurs_in(
            error.unsatisfied[index].expected_calls.debug_text(),
            error.unsatisfied[index].line(error.method),
        ),
        occurs_in(
            decimal(error.unsatisfied[index].actual_calls as nat),
            error.unsatisfied[index].line(error.method),
        ),
{
    let head = "The expectations of "@;
    let middle = " were not met:\n"@;
    let list = joined(error.lines(), "\n"@);
    let empty = Seq::<char>::empty();
    let each = error.unsatisfied[index];
    let line = each.line(error.method);
    lemma_occurs_in_concat(head, error.method, middle + list);
    assert(head + error.method + (middle + list) =~= error.message());
    lemma_part_occurs_in_joined(error.lines(), "\n"@, index);
    lemma_occurs_in_larger(line, list, head + error.method + middle, empty);
    assert(head + error.method + middle + list + empty =~= error.message());
    let policy = each.expected_calls.debug_text();
    let count = decimal(each.actual_calls as nat);
    let call = error.method + each.arguments;
    let rest = ", called "@ + count + " times"@;
    lemma_occurs_in_concat(error.method, each.arguments, ": expected "@ + policy + rest);
    assert(call + (": expected "@ + policy + rest) =~= line);
    lemma_occurs_in_concat(call + ": expected "@, policy, rest);
    assert(call + ": expected "@ + policy + rest =~= line);
    lemma_occurs_in_concat(call + ": expected "@ + policy + ", called "@, count, " times"@);
}

} // verus!
