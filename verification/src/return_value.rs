//! What a matched call returns.

use crate::debug::{placeholder_string, DisplayOption, MaybeDebug};
use std::marker::PhantomData;
use vstd::prelude::*;

verus! {

/// Produces what a matched call returns, from the arguments of the call: a value,
/// or the demand that the call panics.
pub trait ReturnValueGenerator<A, R>: MaybeDebug {
    /// Whether `outcome` is something that a call with `input` may end in: anything,
    /// unless the type says what it generates.
    open spec fn generates(&self, input: &A, outcome: Result<R, Panic>) -> bool {
        true
    }

    /// Produces the outcome of one call.
    fn generate_return_value(&self, input: A) -> (outcome: Result<R, Panic>)
        ensures
            self.generates(&input, outcome),
    ;
}

/// Return types that say what a call returns for which no return value was
/// configured. Only `()` has such a value: a call that returns nothing needs none.
pub trait DefaultReturnValue: Sized {
    /// The generator that is used where none was configured: none, unless the type
    /// says that it has one.
    open spec fn default_generator() -> Option<Cloned<Self>> {
        None
    }

    /// The generator that is used where none was configured, if there is one.
    fn default_return_value() -> (generator: Option<Cloned<Self>>)
        ensures
            generator == Self::default_generator(),
    ;
}

/// Returns a copy of a stored value on every call, whatever the arguments are.
pub struct Cloned<T>(pub T);

impl<T: MaybeDebug> MaybeDebug for Cloned<T> {
    open spec fn debug_text(&self) -> Seq<char> {
        self.0.debug_text()
    }

    fn fmt(&self) -> (text: String) {
        self.0.fmt()
    }
}

impl<A, R: Clone + MaybeDebug> ReturnValueGenerator<A, R> for Cloned<R> {
    open spec fn generates(&self, input: &A, outcome: Result<R, Panic>) -> bool {
        outcome matches Ok(value) && cloned(self.0, value)
    }

    fn generate_return_value(&self, input: A) -> (outcome: Result<R, Panic>) {
        Ok(self.0.clone())
    }
}

/// Lets every call panic, with a message or without one.
#[derive(Clone, Copy, Debug)]
pub struct Panic(pub Option<&'static str>);

impl Panic {
    /// The rendering: `panic!`, with the message between the parentheses where there
    /// is one.
    pub open spec fn text(&self) -> Seq<char> {
        let message = match self.0 {
            Some(message) => message.debug_text(),
            None => Seq::empty(),
        };
        "panic!("@ + message + ")"@
    }
}

impl MaybeDebug for Panic {
    open spec fn debug_text(&self) -> Seq<char> {
        self.text()
    }

    fn fmt(&self) -> (text: String) {
        let message = DisplayOption(self.0.as_ref()).fmt();
        String::from_str("panic!(").concat(message.as_str()).concat(")")
    }
}

impl<A, R> ReturnValueGenerator<A, R> for Panic {
    open spec fn generates(&self, input: &A, outcome: Result<R, Panic>) -> bool {
        outcome == Err::<R, Panic>(*self)
    }

    fn generate_return_value(&self, input: A) -> (outcome: Result<R, Panic>) {
        Err(*self)
    }
}

/// Computes what a call returns from its arguments, with a function that accepts
/// every argument.
#[verifier::reject_recursive_types(A)]
#[verifier::reject_recursive_types(R)]
#[verifier::reject_recursive_types(F)]
pub struct Computed<A, R, F: Fn(A) -> R> {
    function: F,
    marker: PhantomData<(A, R)>,
}

impl<A, R, F: Fn(A) -> R> Computed<A, R, F> {
    #[verifier::type_invariant]
    spec fn total(self) -> bool {
        forall|input: A| call_requires(self.function, (input,))
    }

    /// The function that computes the return values.
    pub closed spec fn function(self) -> F {
        self.function
    }

    /// Wraps a function that can be called with every argument.
    pub fn new(function: F) -> (generator: Self)
        requires
            forall|input: A| call_requires(function, (input,)),
        ensures
            generator.function() == function,
    {
        Computed { function, marker: PhantomData }
    }
}

impl<A, R, F: Fn(A) -> R> MaybeDebug for Computed<A, R, F> {
    fn fmt(&self) -> (text: String) {
        placeholder_string()
    }
}

impl<A, R, F: Fn(A) -> R> ReturnValueGenerator<A, R> for Computed<A, R, F> {
    open spec fn generates(&self, input: &A, outcome: Result<R, Panic>) -> bool {
        outcome matches Ok(value) && call_ensures(self.function(), (*input,), value)
    }

    fn generate_return_value(&self, input: A) -> (outcome: Result<R, Panic>) {
        proof {
            use_type_invariant(self);
        }
        Ok((self.function)(input))
    }
}

/// The return values that an expectation is configured with through its builder:
/// a value to copy, or a panic.
pub enum ReturnValue<R> {
    /// Return a copy of the value.
    Cloned(Cloned<R>),
    /// Panic.
    Panic(Panic),
}

impl<R: MaybeDebug> MaybeDebug for ReturnValue<R> {
    open spec fn debug_text(&self) -> Seq<char> {
        match self {
            ReturnValue::Cloned(cloned) => cloned.debug_text(),
            ReturnValue::Panic(panic) => panic.debug_text(),
        }
    }

    fn fmt(&self) -> (text: String) {
        match self {
            ReturnValue::Cloned(cloned) => cloned.fmt(),
            ReturnValue::Panic(panic) => panic.fmt(),
        }
    }
}

impl<A, R: Clone + MaybeDebug> ReturnValueGenerator<A, R> for ReturnValue<R> {
    open spec fn generates(&self, input: &A, outcome: Result<R, Panic>) -> bool {
        match self {
            ReturnValue::Cloned(cloned) => cloned.generates(input, outcome),
            ReturnValue::Panic(panic) => panic.generates(input, outcome),
        }
    }

    fn generate_return_value(&self, input: A) -> (outcome: Result<R, Panic>) {
        match self {
            ReturnValue::Cloned(cloned) => cloned.generate_return_value(input),
            ReturnValue::Panic(panic) => panic.generate_return_value(input),
        }
    }
}

impl DefaultReturnValue for () {
    open spec fn default_generator() -> Option<Cloned<()>> {
        Some(Cloned(()))
    }

    fn default_return_value() -> (generator: Option<Cloned<()>>) {
        Some(Cloned(()))
    }
}

impl DefaultReturnValue for bool {
    fn default_return_value() -> (generator: Option<Cloned<bool>>) {
        None
    }
}

impl DefaultReturnValue for u8 {
    fn default_return_value() -> (generator: Option<Cloned<u8>>) {
        None
    }
}

impl DefaultReturnValue for u16 {
    fn default_return_value() -> (generator: Option<Cloned<u16>>) {
        None
    }
}

impl DefaultReturnValue for u32 {
    fn default_return_value() -> (generator: Option<Cloned<u32>>) {
        None
    }
}

impl DefaultReturnValue for u64 {
    fn default_return_value() -> (generator: Option<Cloned<u64>>) {
        None
    }
}

impl DefaultReturnValue for usize {
    fn default_return_value() -> (generator: Option<Cloned<usize>>) {
        None
    }
}

impl DefaultReturnValue for i8 {
    fn default_return_value() -> (generator: Option<Cloned<i8>>) {
        None
    }
}

impl DefaultReturnValue for i16 {
    fn default_return_value() -> (generator: Option<Cloned<i16>>) {
        None
    }
}

impl DefaultReturnValue for i32 {
    fn default_return_value() -> (generator: Option<Cloned<i32>>) {
        None
    }
}

impl DefaultReturnValue for i64 {
    fn default_return_value() -> (generator: Option<Cloned<i64>>) {
        None
    }
}

impl DefaultReturnValue for isize {
    fn default_return_value() -> (generator: Option<Cloned<isize>>) {
        None
    }
}

impl DefaultReturnValue for String {
    fn default_return_value() -> (generator: Option<Cloned<String>>) {
        None
    }
}

impl<'a, T: ?Sized> DefaultReturnValue for &'a T {
    fn default_return_value() -> (generator: Option<Cloned<&'a T>>) {
        None
    }
}

impl<T> DefaultReturnValue for Option<T> {
    fn default_return_value() -> (generator: Option<Cloned<Option<T>>>) {
        None
    }
}

impl<T> DefaultReturnValue for Vec<T> {
    fn default_return_value() -> (generator: Option<Cloned<Vec<T>>>) {
        None
    }
}

impl<T> DefaultReturnValue for Box<T> {
    fn default_return_value() -> (generator: Option<Cloned<Box<T>>>) {
        None
    }
}

impl<T, E> DefaultReturnValue for Result<T, E> {
    fn default_return_value() -> (generator: Option<Cloned<Result<T, E>>>) {
        None
    }
}

/// Every value that [`Cloned`] generates is a copy of the stored value, whatever the
/// arguments are and however often it is asked: where copies of `R` are equal to
/// what they are copies of, every generation gives the stored value.
pub proof fn lemma_cloned_generates_the_stored_value<A, R: Clone + MaybeDebug>(
    generator: Cloned<R>,
    first_input: A,
    second_input: A,
    first: Result<R, Panic>,
    second: Result<R, Panic>,
)
    requires
        forall|value: R, copy: R| cloned(value, copy) ==> copy == value,
        generator.generates(&first_input, first),
        generator.generates(&second_input, second),
    ensures
        first == Ok::<R, Panic>(generator.0),
        second == first,
{
}

/// [`Panic`] never generates a value: whatever the arguments are, the outcome is
/// the panic itself.
pub proof fn lemma_panic_generates_no_value<A, R>(
    generator: Panic,
    input: A,
    outcome: Result<R, Panic>,
)
    requires
        ReturnValueGenerator::<A, R>::generates(&generator, &input, outcome),
    ensures
        outcome is Err,
        outcome == Err::<R, Panic>(generator),
{
}

} // verus!
