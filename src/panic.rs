//! Raising failures as values: the failure handler and the raise point.

use vstd::prelude::*;
use crate::backtrace::CallStack;
use crate::registry::OnceSlot;

verus! {

/// What a failure handler is told: the rendered message, if any, and where
/// the failure was raised.
#[derive(Clone, Debug)]
pub struct PanicInfo {
    pub message: Option<String>,
    pub location: String,
}

/// Registers the failure handler, in a slot that holds none yet.
pub fn set_panic_handler<H>(slot: &mut OnceSlot<H>, handler: H)
    requires
        old(slot)@ is None,
    ensures
        final(slot)@ == Some(handler),
{
    slot.set(handler)
}

/// Hands `info` to the registered failure handler.
pub fn handle_panic<H: Fn(&PanicInfo)>(slot: &OnceSlot<H>, info: &PanicInfo)
    requires
        slot@ matches Some(h) && call_requires(h, (info,)),
    ensures
        call_ensures(slot@->0, (info,), ()),
{
    let handler = slot.get();
    handler(info);
}

/// Raises a failure: hands the message and location to the registered
/// failure handler and gives back the fresh, empty call chain that the
/// failing relay returns as its `Err`.
pub fn raise<H: Fn(&PanicInfo)>(slot: &OnceSlot<H>, message: String, location: String) -> (r: CallStack)
    requires
        slot@ matches Some(h) && forall|info: &PanicInfo| call_requires(h, (info,)),
    ensures
        r@ == Seq::<Seq<char>>::empty(),
        call_ensures(slot@->0, (&(PanicInfo { message: Some(message), location }),), ()),
{
    let info = PanicInfo { message: Some(message), location };
    handle_panic(slot, &info);
    CallStack::new()
}

} // verus!
