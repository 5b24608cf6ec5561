//! The cross-thread event bridge and the coalesced recompute notify.
//!
//! The bridge is the one path by which other threads hand events to the
//! loop: producers append, the loop drains once per tick. Sending never
//! blocks and never panics a producer; once the bridge stops accepting —
//! the loop has terminated — a send is dropped and the producer told so,
//! nothing more. Events from one producer are delivered in the order they
//! were sent; across producers no order is promised.
//!
//! The notify is the single-slot mailbox that wakes the application-state
//! recomputation path: signalling an already-signalled slot collapses
//! into one pending wake-up, so a burst of triggers buys one
//! recomputation, not a queue of them.

use vstd::prelude::*;

use crate::event::UserEvent;

verus! {

/// Multi-producer, single-consumer delivery of [`UserEvent`]s into the
/// loop.
#[derive(Debug)]
pub struct EventBridge {
    /// Whether sends are still accepted; cleared when the loop terminates.
    pub accepting: bool,
    /// Events sent and not yet drained, oldest first.
    pub queue: Vec<UserEvent>,
}

impl EventBridge {
    /// A fresh bridge: accepting, with nothing queued.
    pub fn new() -> (b: EventBridge)
        ensures
            b.accepting,
            b.queue@.len() == 0,
    {
        EventBridge { accepting: true, queue: Vec::new() }
    }

    /// Appends one event. Never blocks, never panics: while the bridge
    /// accepts, the event joins the end of the queue — so one producer's
    /// sends stay in send order — and once it no longer accepts, the event
    /// is dropped and `accepted` is false so the producer can log the
    /// loss.
    pub fn send(&mut self, e: UserEvent) -> (accepted: bool)
        ensures
            accepted == old(self).accepting,
            final(self).accepting == old(self).accepting,
            old(self).accepting ==> final(self).queue@ == old(self).queue@.push(e),
            !old(self).accepting ==> final(self).queue@ == old(self).queue@,
    {
        if self.accepting {
            self.queue.push(e);
            true
        } else {
            false
        }
    }

    /// Takes everything queued, in send order, leaving the queue empty.
    /// Non-blocking; the loop calls it once per tick and tolerates an
    /// empty result.
    pub fn try_drain(&mut self) -> (events: Vec<UserEvent>)
        ensures
            events@ == old(self).queue@,
            final(self).queue@.len() == 0,
            final(self).accepting == old(self).accepting,
    {
        let events = self.queue.split_off(0);
        proof {
            assert(events@ =~= old(self).queue@);
            assert(self.queue@ =~= Seq::<UserEvent>::empty());
        }
        events
    }

    /// Stops accepting: the loop has terminated, later sends are dropped.
    pub fn close(&mut self)
        ensures
            !final(self).accepting,
            final(self).queue@ == old(self).queue@,
    {
        self.accepting = false;
    }
}

/// The single-slot wake-up for application-state recomputation.
#[derive(Clone, Copy, Debug, PartialEq, Eq, Structural)]
pub struct CoalescedNotify {
    /// Whether a wake-up is pending and not yet consumed.
    pub pending: bool,
}

impl CoalescedNotify {
    /// A slot with no wake-up pending.
    pub fn new() -> (n: CoalescedNotify)
        ensures
            !n.pending,
    {
        CoalescedNotify { pending: false }
    }

    /// Posts a wake-up. Signalling an already-signalled slot leaves
    /// exactly one wake-up pending: repeats collapse, nothing queues.
    pub fn signal(&mut self)
        ensures
            final(self).pending,
    {
        self.pending = true;
    }

    /// Consumes the pending wake-up, if any, and says whether there was
    /// one.
    pub fn consume(&mut self) -> (was_pending: bool)
        ensures
            was_pending == old(self).pending,
            !final(self).pending,
    {
        let was = self.pending;
        self.pending = false;
        was
    }
}

/// However many times a slot is signalled before it is consumed, exactly
/// one wake-up comes out of it, and none is left behind.
pub proof fn lemma_signals_coalesce(slot: CoalescedNotify, extra_signals: nat)
    ensures
        (CoalescedNotify { pending: true }) == spec_signalled(spec_signalled_n(slot, extra_signals)),
{
}

/// The slot after one signal.
pub open spec fn spec_signalled(slot: CoalescedNotify) -> CoalescedNotify {
    CoalescedNotify { pending: true }
}

/// The slot after `n` further signals.
pub open spec fn spec_signalled_n(slot: CoalescedNotify, n: nat) -> CoalescedNotify
    decreases n,
{
    if n == 0 {
        slot
    } else {
        spec_signalled(spec_signalled_n(slot, (n - 1) as nat))
    }
}

} // verus!
