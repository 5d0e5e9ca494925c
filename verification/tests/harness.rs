use krysalis_native::run_test_case;
use krysalis_native::triangle;

#[test]
fn test_main_ffi() {
    assert!(triangle::main_ffi(), "main_ffi should return true");
}

#[test]
fn test_secondary_function() {
    assert!(!triangle::secondary_function(), "secondary_function should return false");
}

#[test]
fn test_using_helper_main_ffi() {
    let result = run_test_case("main_ffi").expect("Test case should exist");
    assert!(result, "main_ffi via helper should return true");
}

#[test]
fn test_using_helper_secondary_function() {
    let result = run_test_case("secondary_function").expect("Test case should exist");
    assert!(!result, "secondary_function via helper should return false");
}

#[test]
#[should_panic(expected = "Unknown test case: unknown_test")]
fn test_unknown_case() {
    run_test_case("unknown_test").expect("Should panic on unknown test case");
}

#[test]
fn unknown_case_message_names_the_case() {
    let err = run_test_case("no_such_case").unwrap_err();
    assert_eq!(err, "Unknown test case: no_such_case");
}
