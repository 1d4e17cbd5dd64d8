//! The call chain that a failure gathers while relay functions forward it,
//! and the call-site step of a relay.

use vstd::prelude::*;

verus! {

/// One frame of a call chain: the name of a relay function that forwarded a
/// failure.
#[derive(Clone, Debug)]
pub struct FuncCall {
    pub name: String,
}

impl View for FuncCall {
    type V = Seq<char>;

    open spec fn view(&self) -> Seq<char> {
        self.name@
    }
}

/// The frames gathered while a failure travels outward through relay
/// functions: index 0 is the first relay that observed and re-raised it.
#[derive(Clone, Debug)]
pub struct CallStack {
    pub calls: Vec<FuncCall>,
}

impl View for CallStack {
    type V = Seq<Seq<char>>;

    open spec fn view(&self) -> Seq<Seq<char>> {
        self.calls@.map_values(|c: FuncCall| c@)
    }
}

impl CallStack {
    /// An empty call chain, as a receiver or a failure point creates it.
    pub fn new() -> (r: Self)
        ensures
            r@ == Seq::<Seq<char>>::empty(),
    {
        CallStack { calls: Vec::new() }
    }

    /// Appends the frame `name` at the end of the chain.
    pub fn push_frame(&mut self, name: &str)
        ensures
            final(self)@ == old(self)@.push(name@),
    {
        let frame = FuncCall { name: name.to_string() };
        self.calls.push(frame);
        proof {
            assert(self@ =~= old(self)@.push(name@));
        }
    }
}

/// The frames of a failure after one more relay forwarded it from its call
/// of `callee`.
pub open spec fn relayed_frames(frames: Seq<Seq<char>>, callee: Seq<char>) -> Seq<Seq<char>> {
    frames.push(callee)
}

/// The call-site step of a relay: a success of the called relay `callee` is
/// passed on, and a failure gets one frame naming `callee` before it goes
/// further out.
pub fn micro_call_relay<T>(outcome: Result<T, CallStack>, callee: &str) -> (r: Result<T, CallStack>)
    ensures
        match outcome {
            Ok(v) => r == Ok::<T, CallStack>(v),
            Err(cs) => r matches Err(c2) && c2@ == relayed_frames(cs@, callee@),
        },
{
    match outcome {
        Ok(v) => Ok(v),
        Err(mut call_stack) => {
            call_stack.push_frame(callee);
            Err(call_stack)
        },
    }
}

/// The frames that reach the receiver when the innermost relay fails with
/// an empty call chain and the failure is forwarded through the calls of
/// `callees`, innermost first.
pub open spec fn chain_frames(callees: Seq<Seq<char>>) -> Seq<Seq<char>>
    decreases callees.len(),
{
    if callees.len() == 0 {
        Seq::empty()
    } else {
        relayed_frames(chain_frames(callees.drop_last()), callees.last())
    }
}

/// A chain of n relays whose innermost one fails delivers n - 1 frames, one
/// per forwarding call, in the order in which the failure was re-raised.
pub proof fn lemma_relay_chain_frames(callees: Seq<Seq<char>>)
    ensures
        chain_frames(callees) == callees,
        chain_frames(callees).len() == callees.len(),
    decreases callees.len(),
{
    if callees.len() > 0 {
        lemma_relay_chain_frames(callees.drop_last());
        assert(callees.drop_last().push(callees.last()) =~= callees);
    }
}

/// A captured native backtrace; frames are not gathered on the targets
/// this library serves.
pub struct Backtrace {
    frames: Vec<BacktraceFrame>,
}

/// One frame of a native backtrace.
pub struct BacktraceFrame {
    frame: Frame,
}

/// A native stack frame, without any recorded detail.
pub struct Frame {}

} // verus!
