use mockiato::{ArgumentMatcher, CallBuilder, IntoArgumentMatcher, MaybeDebug, MockedFunction, ReturnValue};
use std::fmt::Display;

trait Greeter<D>: Display
where
    D: Display,
{
    fn say_hello(&self, name: D) -> String;

    fn print_hello(&self, name: D);
}

struct GreeterMock<D, M>
where
    D: Display,
    M: ArgumentMatcher<D>,
{
    say_hello: MockedFunction<(M,), ReturnValue<String>>,
    print_hello: MockedFunction<(M,), ReturnValue<()>>,
    names: std::marker::PhantomData<D>,
}

impl<D, M> GreeterMock<D, M>
where
    D: Display + MaybeDebug,
    M: ArgumentMatcher<D>,
{
    fn new() -> Self {
        GreeterMock {
            say_hello: MockedFunction::new("say_hello"),
            print_hello: MockedFunction::new("print_hello"),
            names: std::marker::PhantomData,
        }
    }

    fn expect_say_hello<A0>(&mut self, name: A0) -> CallBuilder<'_, (M,), ReturnValue<String>>
    where
        A0: IntoArgumentMatcher<D, Matcher = M>,
    {
        let matchers = (name.into_argument_matcher(),);

        self.say_hello.add_expected_call(matchers)
    }

    fn expect_print_hello<A0>(&mut self, name: A0) -> CallBuilder<'_, (M,), ReturnValue<()>>
    where
        A0: IntoArgumentMatcher<D, Matcher = M>,
    {
        let matchers = (name.into_argument_matcher(),);

        self.print_hello.add_expected_call(matchers)
    }
}

#[test]
fn test_hand_generated_mock_works() {
    let mut mock = GreeterMock::new();

    let _ = mock
        .expect_say_hello("foo")
        .returns_value(String::from("Hello foo"));

    let _ = mock
        .expect_say_hello("bar")
        .returns_value(String::default())
        .times(4);

    mock.expect_print_hello("foo").times(..=8);

    let registered = mock.say_hello.expectations();
    assert_eq!(2, registered.len());
    assert_eq!("foo", registered[0].arguments_matcher().0.value);
    assert_eq!(mockiato::ExpectedCalls::AtLeast(1), registered[0].expected_calls());
    assert!(matches!(
        registered[0].return_value(),
        Some(ReturnValue::Cloned(mockiato::Cloned(value))) if value == "Hello foo"
    ));
    assert_eq!("bar", registered[1].arguments_matcher().0.value);
    assert_eq!(mockiato::ExpectedCalls::Exact(4), registered[1].expected_calls());
    assert_eq!(0, registered[1].actual_calls());

    let registered = mock.print_hello.expectations();
    assert_eq!(1, registered.len());
    assert_eq!(mockiato::ExpectedCalls::AtMost(8), registered[0].expected_calls());
    assert!(registered[0].return_value().is_none());
}
