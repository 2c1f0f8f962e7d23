use mockiato::{Cloned, Computed, DefaultReturnValue, MaybeDebug, Panic, ReturnValue, ReturnValueGenerator};

struct DummyArguments;

#[test]
fn test_cloned_returns_expected_value() {
    let cloned = Cloned(String::from("foo"));

    assert_eq!(
        String::from("foo"),
        ReturnValueGenerator::<DummyArguments, String>::generate_return_value(
            &cloned,
            DummyArguments
        )
        .unwrap()
    );
}

#[test]
fn panic_generates_no_value() {
    let panic = Panic(Some("<panic message>"));

    let outcome =
        ReturnValueGenerator::<DummyArguments, ()>::generate_return_value(&panic, DummyArguments);

    match outcome {
        Ok(()) => panic!("a value was generated"),
        Err(Panic(message)) => assert_eq!(Some("<panic message>"), message),
    }
}

#[test]
fn panic_without_message_generates_no_value() {
    let panic = Panic(None);

    let outcome: Result<u64, Panic> = panic.generate_return_value(DummyArguments);

    assert!(matches!(outcome, Err(Panic(None))));
}

#[test]
fn cloned_values_are_independent_copies() {
    let cloned = Cloned(vec![1u64, 2, 3]);

    let mut first: Vec<u64> = cloned.generate_return_value(DummyArguments).unwrap();
    first.push(4);
    first[0] = 100;
    let second: Vec<u64> = cloned.generate_return_value(DummyArguments).unwrap();

    assert_eq!(vec![100, 2, 3, 4], first);
    assert_eq!(vec![1, 2, 3], second);
    assert_eq!(vec![1, 2, 3], cloned.0);
}

#[test]
fn cloned_ignores_the_arguments() {
    let cloned = Cloned(7u64);

    let first: Result<u64, Panic> = cloned.generate_return_value((1u64, 2u64));
    let second: Result<u64, Panic> = cloned.generate_return_value((3u64, 4u64));

    assert_eq!(7, first.unwrap());
    assert_eq!(7, second.unwrap());
}

#[test]
fn computed_applies_the_function_to_the_arguments() {
    let computed = Computed::new(|(left, right): (u64, u64)| left * 10 + right);

    let outcome: Result<u64, Panic> = computed.generate_return_value((4, 2));

    assert_eq!(42, outcome.unwrap());
    assert_eq!("?", computed.fmt());
}

#[test]
fn return_value_generates_what_its_variant_says() {
    let cloned: ReturnValue<u64> = ReturnValue::Cloned(Cloned(5));
    let panic: ReturnValue<u64> = ReturnValue::Panic(Panic(Some("no")));

    let first: Result<u64, Panic> = cloned.generate_return_value(());
    let second: Result<u64, Panic> = panic.generate_return_value(());

    assert_eq!(5, first.unwrap());
    assert!(matches!(second, Err(Panic(Some("no")))));
}

#[test]
fn generators_are_rendered() {
    assert_eq!("\"foo\"", Cloned(String::from("foo")).fmt());
    assert_eq!("12", Cloned(12u64).fmt());
    assert_eq!("panic!()", Panic(None).fmt());
    assert_eq!("panic!(\"<panic message>\")", Panic(Some("<panic message>")).fmt());
    assert_eq!("panic!(\"a \\\"quoted\\\" word\")", Panic(Some("a \"quoted\" word")).fmt());
    assert_eq!("7", ReturnValue::Cloned(Cloned(7u8)).fmt());
    assert_eq!("panic!()", ReturnValue::<u8>::Panic(Panic(None)).fmt());
}

#[test]
fn only_unit_has_a_default_return_value() {
    assert!(matches!(<() as DefaultReturnValue>::default_return_value(), Some(Cloned(()))));
    assert!(<u64 as DefaultReturnValue>::default_return_value().is_none());
    assert!(<String as DefaultReturnValue>::default_return_value().is_none());
    assert!(<bool as DefaultReturnValue>::default_return_value().is_none());
    assert!(<Option<()> as DefaultReturnValue>::default_return_value().is_none());
    assert!(<Vec<u8> as DefaultReturnValue>::default_return_value().is_none());
}
