//! The redraw scheduler: a single "frame requested" dirty flag with
//! at-least-once coalescing semantics.  Any number of `queue_next_frame`
//! calls between two `should_draw` calls collapse into exactly one pending
//! redraw; `should_draw` consumes the flag.

use vstd::prelude::*;

verus! {

/// The process-wide dirty-flag service.  Owned by the frame loop and passed
/// by reference to whoever may request a redraw.
pub struct RedrawScheduler {
    frame_queued: bool,
}

impl RedrawScheduler {
    /// Whether a redraw is currently owed.
    pub closed spec fn pending(self) -> bool {
        self.frame_queued
    }

    /// A fresh scheduler owes no redraw.
    pub fn new() -> (s: Self)
        ensures
            !s.pending(),
    {
        RedrawScheduler { frame_queued: false }
    }

    /// Request a redraw.  Safe to call any number of times; the effect is
    /// idempotent (OR semantics).
    pub fn queue_next_frame(&mut self)
        ensures
            final(self).pending(),
    {
        self.frame_queued = true;
    }

    /// Read and clear the pending flag, returning its prior value: true at
    /// most once per queued batch, then false until queued again.
    pub fn should_draw(&mut self) -> (r: bool)
        ensures
            r == old(self).pending(),
            !final(self).pending(),
    {
        let was_queued = self.frame_queued;
        self.frame_queued = false;
        was_queued
    }
}

/// One call made to the scheduler between two `should_draw` calls: either a
/// redraw request or something that leaves the scheduler alone.
#[derive(Clone, Copy, Debug, PartialEq, Eq, Structural)]
pub enum RedrawCall {
    QueueNextFrame,
    Noop,
}

/// The pending flag after a sequence of scheduler calls starting from `p`.
pub open spec fn pending_after(p: bool, calls: Seq<RedrawCall>) -> bool
    decreases calls.len(),
{
    if calls.len() == 0 {
        p
    } else {
        pending_after(p || calls[0] is QueueNextFrame, calls.drop_first())
    }
}

/// Coalescing law: a sequence of calls holding at least one
/// `queue_next_frame`, with any number of interleaved no-ops, leaves exactly
/// one pending redraw behind, whatever was pending before.  Together with
/// the contract of `should_draw` (which returns the pending flag and clears
/// it), a single following `should_draw` returns true exactly once, then
/// false until queued again.
pub proof fn lemma_queue_coalesces(p: bool, calls: Seq<RedrawCall>)
    requires
        exists|i: int| 0 <= i < calls.len() && calls[i] is QueueNextFrame,
    ensures
        pending_after(p, calls),
    decreases calls.len(),
{
    let i = choose|i: int| 0 <= i < calls.len() && calls[i] is QueueNextFrame;
    if i == 0 {
        lemma_pending_stays(true, calls.drop_first());
    } else {
        assert(calls.drop_first()[i - 1] is QueueNextFrame);
        lemma_queue_coalesces(p || calls[0] is QueueNextFrame, calls.drop_first());
    }
}

/// A pending redraw is never lost: no sequence of scheduler calls clears the
/// flag once it is set (only `should_draw` does).
pub proof fn lemma_pending_stays(p: bool, calls: Seq<RedrawCall>)
    requires
        p,
    ensures
        pending_after(p, calls),
    decreases calls.len(),
{
    if calls.len() > 0 {
        lemma_pending_stays(p || calls[0] is QueueNextFrame, calls.drop_first());
    }
}

/// A sequence of calls with no `queue_next_frame` among them leaves the
/// pending flag exactly as it was.
pub proof fn lemma_noops_preserve(p: bool, calls: Seq<RedrawCall>)
    requires
        forall|i: int| 0 <= i < calls.len() ==> calls[i] is Noop,
    ensures
        pending_after(p, calls) == p,
    decreases calls.len(),
{
    if calls.len() > 0 {
        assert(calls[0] is Noop);
        assert(forall|i: int| 0 <= i < calls.drop_first().len() ==> calls.drop_first()[i] is Noop);
        lemma_noops_preserve(p, calls.drop_first());
    }
}

/// Replay a sequence of scheduler calls; the flag afterwards is what the
/// model `pending_after` says.
pub fn perform_redraw_calls(sched: &mut RedrawScheduler, calls: &Vec<RedrawCall>)
    ensures
        final(sched).pending() == pending_after(old(sched).pending(), calls@),
{
    let ghost p0 = sched.pending();
    proof {
        assert(calls@.skip(0) =~= calls@);
    }
    for i in 0..calls.len()
        invariant
            pending_after(p0, calls@) == pending_after(sched.pending(), calls@.skip(i as int)),
    {
        proof {
            assert(calls@.skip(i as int)[0] == calls@[i as int]);
            assert(calls@.skip(i as int).drop_first() =~= calls@.skip(i as int + 1));
        }
        match calls[i] {
            RedrawCall::QueueNextFrame => sched.queue_next_frame(),
            RedrawCall::Noop => (),
        }
    }
}

} // verus!
