use micro_test::result::{merge, Error, FailureCause, TestResult};
use std::cell::Cell;

use micro_test::panic::PanicInfo;
use micro_test::registry::OnceSlot;
use micro_test::test::{
    failure_text, micro_assert, micro_assert_eq, micro_assert_ne, settle_direct, settle_relay, Comparison, Metadata,
};

fn add_by_one(num: usize) -> usize {
    num + 1
}

#[test]
fn boolean_check_that_holds_reports_nothing() {
    assert!(micro_assert(2 + 2 == 4, "2 + 2 == 4", None, "here").is_ok());
}

#[test]
fn boolean_check_failure_uses_source_or_message() {
    let c = micro_assert(1 + 1 == 3, "1 + 1 == 3", None, "src/lib.rs:9").unwrap_err();
    assert_eq!(c.message, "assertion failed: `1 + 1 == 3`");
    assert_eq!(c.location, "src/lib.rs:9");
    let c = micro_assert(false, "x", Some("Math is broken."), "l").unwrap_err();
    assert_eq!(c.message, "Math is broken.");
}

#[test]
fn equality_check_of_equal_values_passes() {
    assert!(micro_assert_eq(&add_by_one(1), &2, None, "here").is_ok());
}

#[test]
fn equality_check_of_different_values_renders_both() {
    let c = micro_assert_eq(&add_by_one(1), &3, None, "here").unwrap_err();
    assert_eq!(c.message, "assertion failed: `(left == right)`\n left: `2`,\nright: `3`");
    let c = micro_assert_eq(&"a", &"b", Some("context"), "here").unwrap_err();
    assert_eq!(c.message, "assertion failed: `(left == right)`\n left: `\"a\"`,\nright: `\"b\"`: context");
}

#[test]
fn inequality_check() {
    assert!(micro_assert_ne(&1, &2, None, "here").is_ok());
    let c = micro_assert_ne(&5u8, &5u8, None, "here").unwrap_err();
    assert_eq!(c.message, "assertion failed: `(left != right)`\n left: `5`,\nright: `5`");
}

#[test]
fn failure_text_is_repeatable() {
    let a = failure_text(Comparison::Equal, "2", "3", None);
    let b = failure_text(Comparison::Equal, "2", "3", None);
    assert_eq!(a, b);
    assert_eq!(a, "assertion failed: `(left == right)`\n left: `2`,\nright: `3`");
    let c1 = micro_assert_eq(&add_by_one(1), &3, None, "l").unwrap_err();
    let c2 = micro_assert_eq(&add_by_one(1), &3, None, "l").unwrap_err();
    assert_eq!(c1.message, c2.message);
}

fn meta(target: &str, feature: Option<&str>) -> Metadata {
    Metadata { target: target.to_string(), feature: feature.map(|f| f.to_string()) }
}

fn failure(target: &str, message: &str) -> Error {
    Error { metadata: meta(target, None), cause: FailureCause { message: message.to_string(), location: "l".to_string() } }
}

#[test]
fn metadata_and_error_text() {
    assert_eq!(meta("add_by_one", Some("return value")).to_text(), "add_by_one (return value)");
    assert_eq!(meta("add_by_one", None).to_text(), "add_by_one");
    assert_eq!(failure("t", "boom").to_text(), "t test failed at 'boom'");
    let m = Metadata::new();
    assert_eq!(m.target, "");
    assert_eq!(m.feature, None);
}

#[test]
fn merge_returns_first_failure() {
    let results: Vec<TestResult> = vec![Ok(meta("a", None)), Err(failure("b", "first")), Err(failure("c", "second"))];
    let e = merge(&results).unwrap_err();
    assert_eq!(e.metadata.target, "b");
    assert_eq!(e.cause.message, "first");
}

#[test]
fn merge_of_successes_keeps_first_metadata() {
    let results: Vec<TestResult> = vec![Ok(meta("a", Some("x"))), Ok(meta("b", None))];
    let m = merge(&results).unwrap();
    assert_eq!(m.target, "a");
    assert_eq!(m.feature.as_deref(), Some("x"));
}

#[test]
fn merge_of_nothing_fails() {
    let e = merge(&Vec::new()).unwrap_err();
    assert_eq!(e.metadata.target, "TestResult");
    assert_eq!(e.metadata.feature.as_deref(), Some("merge"));
    assert_eq!(e.cause.message, "Error getting test metadata");
}

#[test]
fn settle_relay_calls_handler_only_on_failure() {
    let calls = Cell::new(0usize);
    let mut handlers = OnceSlot::new();
    handlers.set(|info: &PanicInfo| {
            assert_eq!(info.message.as_deref(), Some("assertion failed: `(left == right)`\n left: `2`,\nright: `3`"));
            calls.set(calls.get() + 1);
        });
    let passed = settle_relay(&handlers, micro_assert_eq(&add_by_one(1), &2, None, "l"));
    assert!(passed.is_ok());
    assert_eq!(calls.get(), 0);
    let failed = settle_relay(&handlers, micro_assert_eq(&add_by_one(1), &3, None, "l"));
    assert_eq!(failed.unwrap_err().calls.len(), 0);
    assert_eq!(calls.get(), 1);
    let none: OnceSlot<fn(&PanicInfo)> = OnceSlot::new();
    assert!(settle_relay(&none, micro_assert(true, "t", None, "l")).is_ok());
}

#[test]
fn settle_direct_reports_failure_with_metadata() {
    let calls = Cell::new(0usize);
    let mut processors = OnceSlot::new();
    processors.set(|r: TestResult| {
            let e = r.unwrap_err();
            assert_eq!(e.metadata.target, "add_by_one");
            assert_eq!(e.cause.message, "assertion failed: `2 + 2 == 5`");
            calls.set(calls.get() + 1);
        });
    assert_eq!(settle_direct(&processors, meta("add_by_one", None), micro_assert(2 + 2 == 4, "2 + 2 == 4", None, "l")), false);
    assert_eq!(calls.get(), 0);
    assert_eq!(settle_direct(&processors, meta("add_by_one", None), micro_assert(2 + 2 == 5, "2 + 2 == 5", None, "l")), true);
    assert_eq!(calls.get(), 1);
}
