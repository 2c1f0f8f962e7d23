use mockiato::{
    AnyArgumentMatcher, ArgumentMatcher, CallError, Cloned, Computed, ExpectedCalls, MaybeDebug,
    MockedFunction, Panic, PartialEqMatcher, ReturnValue,
};

type Greet = MockedFunction<(PartialEqMatcher<String>,), ReturnValue<String>>;

fn name(text: &str) -> (String,) {
    (String::from(text),)
}

fn equal_to(text: &str) -> (PartialEqMatcher<String>,) {
    (PartialEqMatcher { value: String::from(text) },)
}

fn greeter() -> Greet {
    let mut greet: Greet = MockedFunction::new("greet");
    let _ = greet
        .register(equal_to("Jane"), ExpectedCalls::AtLeast(1), None)
        .returns_value(String::from("Hello Jane"));
    greet
}

#[test]
fn an_expected_call_returns_the_configured_value() {
    let mut greet = greeter();

    let outcome: Result<String, CallError> = greet.call(name("Jane"));

    assert_eq!("Hello Jane", outcome.unwrap());
    assert_eq!(1, greet.expectations()[0].actual_calls());
    assert!(greet.verify().is_ok());
}

#[test]
fn a_call_with_other_arguments_is_unexpected() {
    let mut greet = greeter();

    let outcome: Result<String, CallError> = greet.call(name("Bob"));

    match outcome {
        Err(CallError::UnexpectedCall { method, arguments, expectations }) => {
            assert_eq!("greet", method);
            assert_eq!("(\"Bob\")", arguments);
            assert_eq!(vec![String::from("(\"Jane\")")], expectations);
        }
        _ => panic!("the call was taken for an expectation"),
    }
    assert_eq!(0, greet.expectations()[0].actual_calls());
}

#[test]
fn an_expectation_that_was_never_called_is_reported() {
    let greet = greeter();

    let error = greet.verify().unwrap_err();

    assert_eq!("greet", error.method);
    assert_eq!(1, error.unsatisfied.len());
    assert_eq!("(\"Jane\")", error.unsatisfied[0].arguments);
    assert_eq!(ExpectedCalls::AtLeast(1), error.unsatisfied[0].expected_calls);
    assert_eq!(0, error.unsatisfied[0].actual_calls);
    assert_eq!(
        "The expectations of greet were not met:\n\
         greet(\"Jane\"): expected at least 1 times, called 0 times",
        error.message()
    );
}

#[test]
fn the_message_of_an_unexpected_call_shows_the_call_and_the_expectations() {
    let mut greet = greeter();
    let _ = greet.add_expected_call(equal_to("Joe"));

    let outcome: Result<String, CallError> = greet.call(name("Bob"));
    let message = outcome.unwrap_err().message();

    assert_eq!(
        "The call greet(\"Bob\") was not expected. Expected calls:\n\
         greet(\"Jane\")\n\
         greet(\"Joe\")",
        message
    );
    assert!(message.contains("greet"));
    assert!(message.contains("(\"Jane\")"));
}

#[test]
fn a_call_of_an_operation_without_expectations_is_unexpected() {
    let mut greet: Greet = MockedFunction::new("greet");

    let outcome: Result<String, CallError> = greet.call(name("Jane"));

    assert_eq!(
        "The call greet(\"Jane\") was not expected. Expected calls:\n",
        outcome.unwrap_err().message()
    );
    assert!(greet.verify().is_ok());
}

#[test]
fn the_first_registered_expectation_that_matches_is_taken() {
    let mut double: MockedFunction<(AnyArgumentMatcher,), ReturnValue<u64>> =
        MockedFunction::new("double");
    let _ = double.add_expected_call((AnyArgumentMatcher,)).returns_value(1);
    let _ = double.add_expected_call((AnyArgumentMatcher,)).returns_value(2);

    let first: Result<u64, CallError> = double.call((10u64,));
    let second: Result<u64, CallError> = double.call((20u64,));

    assert_eq!(1, first.unwrap());
    assert_eq!(1, second.unwrap());
    assert_eq!(2, double.expectations()[0].actual_calls());
    assert_eq!(0, double.expectations()[1].actual_calls());
}

#[test]
fn a_later_expectation_is_taken_where_the_earlier_do_not_match() {
    let mut greet = greeter();
    let _ = greet.add_expected_call(equal_to("Bob")).returns_value(String::from("Hi Bob"));
    let _ = greet.add_expected_call(equal_to("Bob")).returns_value(String::from("Bye Bob"));

    let outcome: Result<String, CallError> = greet.call(name("Bob"));

    assert_eq!("Hi Bob", outcome.unwrap());
    assert_eq!(Some(1), greet.find_matching(&name("Bob")));
    assert_eq!(Some(0), greet.find_matching(&name("Jane")));
    assert_eq!(None, greet.find_matching(&name("Joe")));
    assert_eq!(0, greet.expectations()[0].actual_calls());
    assert_eq!(1, greet.expectations()[1].actual_calls());
    assert_eq!(0, greet.expectations()[2].actual_calls());
}

fn called(times: u64) -> Greet {
    let mut greet: Greet = MockedFunction::new("greet");
    let _ = greet.add_expected_call(equal_to("Jane")).times(2).returns_value(String::new());
    for made in 0..times {
        assert_eq!(made, greet.expectations()[0].actual_calls());
        let outcome: Result<String, CallError> = greet.call(name("Jane"));
        assert!(outcome.is_ok());
    }
    assert_eq!(times, greet.expectations()[0].actual_calls());
    greet
}

#[test]
fn exactly_two_calls_satisfy_an_expectation_of_two() {
    assert!(called(2).verify().is_ok());
}

#[test]
fn one_call_does_not_satisfy_an_expectation_of_two() {
    let error = called(1).verify().unwrap_err();

    assert_eq!(ExpectedCalls::Exact(2), error.unsatisfied[0].expected_calls);
    assert_eq!(1, error.unsatisfied[0].actual_calls);
}

#[test]
fn three_calls_do_not_satisfy_an_expectation_of_two() {
    let error = called(3).verify().unwrap_err();

    assert_eq!(3, error.unsatisfied[0].actual_calls);
    assert_eq!(
        "The expectations of greet were not met:\n\
         greet(\"Jane\"): expected exactly 2 times, called 3 times",
        error.message()
    );
}

#[test]
fn an_expectation_keeps_matching_once_its_calls_are_used_up() {
    let mut greet: Greet = MockedFunction::new("greet");
    let _ = greet.add_expected_call(equal_to("Jane")).times(..=1).returns_value(String::from("a"));
    let _ = greet.add_expected_call(equal_to("Jane")).returns_value(String::from("b"));

    let first: Result<String, CallError> = greet.call(name("Jane"));
    let second: Result<String, CallError> = greet.call(name("Jane"));

    assert_eq!("a", first.unwrap());
    assert_eq!("a", second.unwrap());
    assert_eq!(2, greet.expectations()[0].actual_calls());
    assert_eq!(0, greet.expectations()[1].actual_calls());
}

#[test]
fn every_unsatisfied_expectation_is_reported_in_registration_order() {
    let mut greet: Greet = MockedFunction::new("greet");
    let _ = greet.add_expected_call(equal_to("Jane")).times(2);
    let _ = greet.add_expected_call(equal_to("Bob")).times(ExpectedCalls::Any);
    let _ = greet.add_expected_call(equal_to("Joe")).times(1..3);

    let error = greet.verify().unwrap_err();

    assert_eq!(2, error.unsatisfied.len());
    assert_eq!("(\"Jane\")", error.unsatisfied[0].arguments);
    assert_eq!("(\"Joe\")", error.unsatisfied[1].arguments);
    assert_eq!(
        "The expectations of greet were not met:\n\
         greet(\"Jane\"): expected exactly 2 times, called 0 times\n\
         greet(\"Joe\"): expected at least 1 and fewer than 3 times, called 0 times",
        error.message()
    );
}

#[test]
fn nothing_is_checked_while_the_test_is_failing_already() {
    let greet = greeter();

    assert!(greet.verify_unless_panicking(true).is_ok());
    assert!(greet.verify_unless_panicking(false).is_err());
    assert!(greet.verify().is_err());
}

#[test]
fn a_satisfied_operation_passes_the_check_when_let_go_of() {
    let mut greet = greeter();
    let outcome: Result<String, CallError> = greet.call(name("Jane"));

    assert!(outcome.is_ok());
    assert!(greet.verify_unless_panicking(false).is_ok());
    assert!(greet.verify_unless_panicking(true).is_ok());
}

#[test]
fn a_call_that_is_to_panic_returns_no_value_and_is_counted() {
    let mut greet: Greet = MockedFunction::new("greet");
    let _ = greet.add_expected_call(equal_to("Jane")).panics_with_message("do not greet");
    let _ = greet.add_expected_call(equal_to("Bob")).panics();

    let first: Result<String, CallError> = greet.call(name("Jane"));
    let second: Result<String, CallError> = greet.call(name("Bob"));

    let first = first.unwrap_err();
    let second = second.unwrap_err();
    assert!(matches!(first, CallError::Panic(Panic(Some("do not greet")))));
    assert!(matches!(second, CallError::Panic(Panic(None))));
    assert_eq!("panic!(\"do not greet\")", first.message());
    assert_eq!("panic!()", second.message());
    assert_eq!(1, greet.expectations()[0].actual_calls());
    assert_eq!(1, greet.expectations()[1].actual_calls());
    assert!(greet.verify().is_ok());
}

#[test]
fn a_call_without_return_value_fails_where_the_type_has_no_default() {
    let mut greet: Greet = MockedFunction::new("greet");
    let _ = greet.add_expected_call(equal_to("Jane"));

    let outcome: Result<String, CallError> = greet.call(name("Jane"));

    let error = outcome.unwrap_err();
    assert!(matches!(error, CallError::MissingReturnValue { .. }));
    assert_eq!("The call greet(\"Jane\") has no return value.", error.message());
    assert_eq!(1, greet.expectations()[0].actual_calls());
}

#[test]
fn a_call_that_returns_nothing_needs_no_return_value() {
    let mut print: MockedFunction<(PartialEqMatcher<String>,), ReturnValue<()>> =
        MockedFunction::new("print");
    let _ = print.add_expected_call(equal_to("Jane"));

    let outcome: Result<(), CallError> = print.call(name("Jane"));

    assert!(outcome.is_ok());
    assert!(print.verify().is_ok());
}

#[test]
fn a_later_setting_replaces_an_earlier_one() {
    let mut greet: Greet = MockedFunction::new("greet");
    let _ = greet
        .add_expected_call(equal_to("Jane"))
        .panics()
        .times(3)
        .returns_value(String::from("first"))
        .times(0..=1)
        .returns_value(String::from("second"));

    let expectation = &greet.expectations()[0];
    assert_eq!(ExpectedCalls::BetweenInclusive { start: 0, end: 1 }, expectation.expected_calls());
    assert!(matches!(
        expectation.return_value(),
        Some(ReturnValue::Cloned(Cloned(value))) if value == "second"
    ));
    let outcome: Result<String, CallError> = greet.call(name("Jane"));
    assert_eq!("second", outcome.unwrap());
}

#[test]
fn a_computed_return_value_is_made_from_the_arguments() {
    let mut add = MockedFunction::new("add");
    let _ = add
        .add_expected_call((AnyArgumentMatcher, AnyArgumentMatcher))
        .returns_with(Computed::new(|(left, right): (u64, u64)| left + right));

    let outcome: Result<u64, CallError> = add.call((2u64, 3u64));

    assert_eq!(5, outcome.unwrap());
}

#[test]
fn an_operation_without_arguments_takes_every_call() {
    let mut tick: MockedFunction<(), ReturnValue<u64>> = MockedFunction::new("tick");
    let _ = tick.add_expected_call(()).times(2).returns_value(9);

    let first: Result<u64, CallError> = tick.call(());
    let second: Result<u64, CallError> = tick.call(());

    assert_eq!(9, first.unwrap());
    assert_eq!(9, second.unwrap());
    assert!(tick.verify().is_ok());
}

#[test]
fn operations_are_independent_of_each_other() {
    let mut first = greeter();
    let second = greeter();

    let outcome: Result<String, CallError> = first.call(name("Jane"));

    assert!(outcome.is_ok());
    assert!(first.verify().is_ok());
    assert!(second.verify().is_err());
    assert_eq!("greet", first.name());
}

struct Even;

impl MaybeDebug for Even {
    fn fmt(&self) -> String {
        String::from("even")
    }
}

impl ArgumentMatcher<u64> for Even {
    fn matches_argument(&self, input: &u64) -> bool {
        input % 2 == 0
    }
}

#[test]
fn a_matcher_of_the_caller_takes_part_like_any_other() {
    let mut halve: MockedFunction<(Even,), ReturnValue<bool>> = MockedFunction::new("halve");
    let _ = halve.add_expected_call((Even,)).returns_value(true);

    let even: Result<bool, CallError> = halve.call((4u64,));
    let odd: Result<bool, CallError> = halve.call((5u64,));

    assert!(even.unwrap());
    assert_eq!(
        "The call halve(5) was not expected. Expected calls:\nhalve(even)",
        odd.unwrap_err().message()
    );
}
