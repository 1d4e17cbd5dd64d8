//! The metadata reporter and the checks that test bodies make.

use vstd::prelude::*;
use vstd::std_specs::cmp::PartialEqSpec;
use crate::registry::OnceSlot;
use crate::backtrace::CallStack;
use crate::panic::{raise, PanicInfo};
use crate::result::{process_result, Error, FailureCause, TestResult};
pub use crate::result::Metadata;

verus! {

/// Registers the metadata reporter, in a slot that holds none yet.
pub fn set_metadata_reporter<H>(slot: &mut OnceSlot<H>, reporter: H)
    requires
        old(slot)@ is None,
    ensures
        final(slot)@ == Some(reporter),
{
    slot.set(reporter)
}

/// Hands `metadata` to the registered metadata reporter.
pub fn report_metadata<H: Fn(&Metadata)>(slot: &OnceSlot<H>, metadata: &Metadata)
    requires
        slot@ matches Some(h) && call_requires(h, (metadata,)),
    ensures
        call_ensures(slot@->0, (metadata,), ()),
{
    let reporter = slot.get();
    reporter(metadata);
}

/// The comparison that a two-operand check makes.
#[derive(Clone, Copy, Debug, PartialEq, Eq)]
pub enum Comparison {
    Equal,
    NotEqual,
}

pub open spec fn comparison_symbol(op: Comparison) -> Seq<char> {
    match op {
        Comparison::Equal => "=="@,
        Comparison::NotEqual => "!="@,
    }
}

pub open spec fn opt_str_view(o: Option<&str>) -> Option<Seq<char>> {
    match o {
        Some(s) => Some(s@),
        None => None,
    }
}

/// The cause of a failed boolean check: the custom message, or
/// ``assertion failed: `<source>` ``.
pub open spec fn bool_failure_text(source: Seq<char>, message: Option<Seq<char>>) -> Seq<char> {
    match message {
        Some(m) => m,
        None => "assertion failed: `"@ + source + "`"@,
    }
}

/// The cause of a failed comparison: both operands on lines of their own,
/// then the custom message if there is one.
pub open spec fn comparison_failure_text(
    op: Comparison,
    left: Seq<char>,
    right: Seq<char>,
    message: Option<Seq<char>>,
) -> Seq<char> {
    "assertion failed: `(left "@ + comparison_symbol(op) + " right)`\n left: `"@ + left
        + "`,\nright: `"@ + right + "`"@ + match message {
        Some(m) => ": "@ + m,
        None => Seq::empty(),
    }
}

/// Renders the cause of a failed comparison from the rendered operands, as
/// `comparison_failure_text` says.
pub fn failure_text(op: Comparison, left: &str, right: &str, message: Option<&str>) -> (r: String)
    ensures
        r@ == comparison_failure_text(op, left@, right@, opt_str_view(message)),
{
    let mut text = "assertion failed: `(left ".to_string();
    match op {
        Comparison::Equal => text.append("=="),
        Comparison::NotEqual => text.append("!="),
    }
    text.append(" right)`\n left: `");
    text.append(left);
    text.append("`,\nright: `");
    text.append(right);
    text.append("`");
    match message {
        Some(m) => {
            text.append(": ");
            text.append(m);
        },
        None => {},
    }
    proof {
        assert(text@ =~= comparison_failure_text(op, left@, right@, opt_str_view(message)));
    }
    text
}

/// The boolean check: passes when `condition` holds, and otherwise fails
/// with the custom message or the source text of the condition.
pub fn micro_assert(condition: bool, source: &str, message: Option<&str>, location: &str) -> (r: Result<
    (),
    FailureCause,
>)
    ensures
        condition <==> r is Ok,
        r matches Err(c) ==> c.message@ == bool_failure_text(source@, opt_str_view(message))
            && c.location@ == location@,
{
    if condition {
        Ok(())
    } else {
        let text = match message {
            Some(m) => m.to_string(),
            None => {
                let mut t = "assertion failed: `".to_string();
                t.append(source);
                t.append("`");
                t
            },
        };
        Err(FailureCause { message: text, location: location.to_string() })
    }
}

/// Relies on `format!("{:?}")`, that is on the operand type's `Debug`
/// implementation, to render an operand of a failed comparison.
#[verifier::external_body]
fn debug_text<T: core::fmt::Debug>(value: &T) -> String {
    format!("{:?}", value)
}

/// A comparison check: `holds` is the outcome of the comparison, made once
/// by the caller; on failure both operands are rendered.
fn compare<T: core::fmt::Debug>(
    op: Comparison,
    holds: bool,
    left: &T,
    right: &T,
    message: Option<&str>,
    location: &str,
) -> (r: Result<(), FailureCause>)
    ensures
        holds <==> r is Ok,
        r matches Err(c) ==> c.location@ == location@ && exists|l: Seq<char>, rt: Seq<char>|
            c.message@ == #[trigger] comparison_failure_text(op, l, rt, opt_str_view(message)),
{
    if holds {
        Ok(())
    } else {
        let l = debug_text(left);
        let rt = debug_text(right);
        let text = failure_text(op, l.as_str(), rt.as_str(), message);
        assert(text@ == comparison_failure_text(op, l@, rt@, opt_str_view(message)));
        Err(FailureCause { message: text, location: location.to_string() })
    }
}

/// The equality check: compares the operands once, passes when they are
/// equal, and otherwise fails with both operands rendered.
pub fn micro_assert_eq<T: PartialEq + core::fmt::Debug>(
    left: &T,
    right: &T,
    message: Option<&str>,
    location: &str,
) -> (r: Result<(), FailureCause>)
    ensures
        T::obeys_eq_spec() ==> (r is Ok <==> left.eq_spec(right)),
        r matches Err(c) ==> c.location@ == location@ && exists|l: Seq<char>, rt: Seq<char>|
            c.message@ == #[trigger] comparison_failure_text(
                Comparison::Equal,
                l,
                rt,
                opt_str_view(message),
            ),
{
    let holds = *left == *right;
    compare(Comparison::Equal, holds, left, right, message, location)
}

/// The inequality check: compares the operands once, passes when they
/// differ, and otherwise fails with both operands rendered.
pub fn micro_assert_ne<T: PartialEq + core::fmt::Debug>(
    left: &T,
    right: &T,
    message: Option<&str>,
    location: &str,
) -> (r: Result<(), FailureCause>)
    ensures
        T::obeys_eq_spec() ==> (r is Ok <==> !left.eq_spec(right)),
        r matches Err(c) ==> c.location@ == location@ && exists|l: Seq<char>, rt: Seq<char>|
            c.message@ == #[trigger] comparison_failure_text(
                Comparison::NotEqual,
                l,
                rt,
                opt_str_view(message),
            ),
{
    let holds = *left != *right;
    compare(Comparison::NotEqual, holds, left, right, message, location)
}

/// Settles a check inside a relay function: a passed check calls nothing
/// and lets the body go on; a failed one tells the failure handler and
/// gives the empty call chain that the relay returns as its `Err`.
pub fn settle_relay<H: Fn(&PanicInfo)>(handlers: &OnceSlot<H>, outcome: Result<(), FailureCause>) -> (r:
    Result<(), CallStack>)
    requires
        outcome is Err ==> (handlers@ matches Some(h) && forall|info: &PanicInfo|
            call_requires(h, (info,))),
    ensures
        outcome is Ok ==> r is Ok,
        outcome matches Err(c) ==> {
            &&& r matches Err(cs) && cs@ == Seq::<Seq<char>>::empty()
            &&& call_ensures(
                handlers@->0,
                (&(PanicInfo { message: Some(c.message), location: c.location }),),
                (),
            )
        },
{
    match outcome {
        Ok(()) => Ok(()),
        Err(cause) => Err(raise(handlers, cause.message, cause.location)),
    }
}

/// Settles a check in the direct dispatch configuration: a passed check
/// calls nothing and gives `false`; a failed one hands the failure with the
/// test's metadata to the result processor and gives `true`, telling the
/// test to return.
pub fn settle_direct<P: Fn(TestResult)>(
    processors: &OnceSlot<P>,
    metadata: Metadata,
    outcome: Result<(), FailureCause>,
) -> (r: bool)
    requires
        outcome is Err ==> (processors@ matches Some(p) && forall|res: TestResult|
            call_requires(p, (res,))),
    ensures
        r <==> outcome is Err,
        outcome matches Err(c) ==> call_ensures(
            processors@->0,
            (Err::<Metadata, Error>(Error { metadata, cause: c }),),
            (),
        ),
{
    match outcome {
        Ok(()) => false,
        Err(cause) => {
            process_result(processors, Err(Error { metadata, cause }));
            true
        },
    }
}

} // verus!
