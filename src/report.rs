//! The host's reporter of metadata, outcomes and call chains.

use vstd::prelude::*;
use crate::backtrace::CallStack;
use crate::registry::OnceSlot;
use crate::result::{Metadata, TestResult};

verus! {

/// The host's reporting functions, each of which may be left out.
pub struct Reporter<M, R, S> {
    pub metadata: Option<M>,
    pub result: Option<R>,
    pub call_stack: Option<S>,
}

/// Registers the reporter, in a slot that holds none yet.
pub fn set_reporter<M, R, S>(slot: &mut OnceSlot<Reporter<M, R, S>>, reporter: Reporter<M, R, S>)
    requires
        old(slot)@ is None,
    ensures
        final(slot)@ == Some(reporter),
{
    slot.set(reporter)
}

/// Registers the reporter whatever was registered before, for hosts without
/// synchronization, which keep writers and readers apart themselves.
pub fn set_reporter_racy<M, R, S>(slot: &mut OnceSlot<Reporter<M, R, S>>, reporter: Reporter<M, R, S>)
    ensures
        final(slot)@ == Some(reporter),
{
    slot.replace(reporter)
}

/// Hands `metadata` to the metadata function of the registered reporter.
pub fn report_metadata<M: Fn(Metadata), R, S>(slot: &OnceSlot<Reporter<M, R, S>>, metadata: Metadata)
    requires
        slot@ matches Some(rep) && rep.metadata matches Some(f) && call_requires(f, (metadata,)),
    ensures
        call_ensures(slot@->0.metadata->0, (metadata,), ()),
{
    let reporter = slot.get();
    match &reporter.metadata {
        Some(f) => f(metadata),
        None => unreached(),
    }
}

/// Hands `result` to the result function of the registered reporter.
pub fn report_result<M, R: Fn(TestResult), S>(slot: &OnceSlot<Reporter<M, R, S>>, result: TestResult)
    requires
        slot@ matches Some(rep) && rep.result matches Some(f) && call_requires(f, (result,)),
    ensures
        call_ensures(slot@->0.result->0, (result,), ()),
{
    let reporter = slot.get();
    match &reporter.result {
        Some(f) => f(result),
        None => unreached(),
    }
}

/// Hands `call_stack` to the call-chain function of the registered
/// reporter.
pub fn report_call_stack<M, R, S: Fn(CallStack)>(slot: &OnceSlot<Reporter<M, R, S>>, call_stack: CallStack)
    requires
        slot@ matches Some(rep) && rep.call_stack matches Some(f) && call_requires(f, (call_stack,)),
    ensures
        call_ensures(slot@->0.call_stack->0, (call_stack,), ()),
{
    let reporter = slot.get();
    match &reporter.call_stack {
        Some(f) => f(call_stack),
        None => unreached(),
    }
}

} // verus!
