use micro_test::attr::{resolve_args, AttrArg, AttrValue};
use micro_test::error::TransformError;

fn named(name: &str, value: AttrValue) -> AttrArg {
    AttrArg::Named { name: name.to_string(), value }
}

fn text(s: &str) -> AttrValue {
    AttrValue::Str(s.to_string())
}

#[test]
fn target_and_feature_resolve_to_their_shape() {
    let args = vec![named("target", text("foo")), named("feature", text("bar"))];
    let r = resolve_args(&args).unwrap();
    assert!(!r.path);
    assert_eq!(r.target.as_deref(), Some("foo"));
    assert_eq!(r.feature.as_deref(), Some("bar"));
}

#[test]
fn path_and_target_resolve_to_their_shape() {
    let args = vec![named("path", AttrValue::Bool(true)), named("target", text("foo"))];
    let r = resolve_args(&args).unwrap();
    assert!(r.path);
    assert_eq!(r.target.as_deref(), Some("foo"));
    assert_eq!(r.feature, None);
}

#[test]
fn empty_bag_resolves_to_empty_shape() {
    let r = resolve_args(&Vec::new()).unwrap();
    assert!(!r.path);
    assert_eq!(r.target, None);
    assert_eq!(r.feature, None);
}

#[test]
fn order_of_arguments_does_not_matter() {
    let args = vec![named("feature", text("f")), named("path", AttrValue::Word), named("target", text("t"))];
    let r = resolve_args(&args).unwrap();
    assert!(r.path);
    assert_eq!(r.target.as_deref(), Some("t"));
    assert_eq!(r.feature.as_deref(), Some("f"));
}

#[test]
fn path_alone_and_path_as_string() {
    let r = resolve_args(&vec![named("path", text("false"))]).unwrap();
    assert!(!r.path);
    assert_eq!(r.target, None);
    let r = resolve_args(&vec![named("path", text("true"))]).unwrap();
    assert!(r.path);
    let r = resolve_args(&vec![named("target", text("only"))]).unwrap();
    assert_eq!(r.target.as_deref(), Some("only"));
    assert!(!r.path);
}

#[test]
fn malformed_bags_are_refused() {
    let bad = vec![
        vec![named("target", AttrValue::Bool(true))],
        vec![named("unknown", text("x"))],
        vec![named("target", text("a")), named("target", text("b"))],
        vec![named("feature", text("f"))],
        vec![named("path", AttrValue::Bool(true)), named("feature", text("f"))],
        vec![named("path", text("yes"))],
        vec![named("path", AttrValue::Other)],
        vec![AttrArg::Literal],
    ];
    for args in bad {
        assert_eq!(resolve_args(&args).unwrap_err(), TransformError::MalformedArguments);
    }
}
