//! The bounded event channel between the backend callback and the
//! consumer, and the unbounded queue used for file replay.
//!
//! Each structure owns both halves of its channel, so the contracts below
//! describe the queue as seen by a single owner: no other thread can add
//! or remove items between two calls.

use vstd::prelude::*;
use crate::event::EtwEvent;

verus! {

/// A bounded FIFO channel holding normalized events. `try_send` never
/// blocks: it fails when the queue is at capacity, which is the
/// drop-on-full backpressure policy.
#[verifier::external_body]
pub struct EventChannel {
    tx: crossbeam_channel::Sender<EtwEvent>,
    rx: crossbeam_channel::Receiver<EtwEvent>,
}

/// The events queued in the channel, oldest first.
pub uninterp spec fn channel_queue(ch: EventChannel) -> Seq<EtwEvent>;

/// The capacity the channel was created with.
pub uninterp spec fn channel_capacity(ch: EventChannel) -> nat;

impl EventChannel {
    /// Relies on crossbeam_channel::bounded: a fresh empty channel of the
    /// given capacity. The capacity bound keeps clear of the size at
    /// which the channel's ring allocation is refused.
    #[verifier::external_body]
    pub fn with_capacity(capacity: usize) -> (ch: EventChannel)
        requires
            capacity < 0x1000_0000_0000_0000,
        ensures
            channel_queue(ch) == Seq::<EtwEvent>::empty(),
            channel_capacity(ch) == capacity as nat,
    {
        let (tx, rx) = crossbeam_channel::bounded(capacity);
        EventChannel { tx, rx }
    }

    /// Relies on crossbeam_channel::Sender::try_send: on a channel below
    /// capacity the event is appended and the call reports true; on a
    /// full channel (and on a zero-capacity channel, which is always
    /// full for a single owner) nothing changes and the call reports
    /// false. It never blocks.
    #[verifier::external_body]
    pub fn try_send(&mut self, event: EtwEvent) -> (ok: bool)
        ensures
            channel_capacity(*final(self)) == channel_capacity(*old(self)),
            if channel_queue(*old(self)).len() < channel_capacity(*old(self)) {
                ok && channel_queue(*final(self)) == channel_queue(*old(self)).push(event)
            } else {
                !ok && channel_queue(*final(self)) == channel_queue(*old(self))
            },
    {
        self.tx.try_send(event).is_ok()
    }

    /// Relies on crossbeam_channel::Receiver::try_recv and the channel's
    /// FIFO order: the oldest queued event comes out, or nothing when the
    /// queue is empty. It never blocks.
    #[verifier::external_body]
    pub fn try_recv(&mut self) -> (r: Option<EtwEvent>)
        ensures
            channel_capacity(*final(self)) == channel_capacity(*old(self)),
            if channel_queue(*old(self)).len() > 0 {
                r == Some(channel_queue(*old(self))[0]) && channel_queue(*final(self))
                    == channel_queue(*old(self)).skip(1)
            } else {
                r is None && channel_queue(*final(self)) == channel_queue(*old(self))
            },
    {
        self.rx.try_recv().ok()
    }

    /// Relies on crossbeam_channel::Receiver::recv and the channel's FIFO
    /// order. With both halves owned here, a receive on an empty queue
    /// would wait forever, so the queue must be non-empty.
    #[verifier::external_body]
    pub fn recv(&mut self) -> (r: EtwEvent)
        requires
            channel_queue(*old(self)).len() > 0,
        ensures
            channel_capacity(*final(self)) == channel_capacity(*old(self)),
            r == channel_queue(*old(self))[0],
            channel_queue(*final(self)) == channel_queue(*old(self)).skip(1),
    {
        self.rx.recv().unwrap()
    }

    /// Relies on crossbeam_channel::Receiver::recv_timeout: the oldest
    /// queued event comes out at once; on an empty queue the call waits
    /// out the timeout and reports nothing, since no sender exists
    /// outside this owner.
    #[verifier::external_body]
    pub fn recv_timeout_ms(&mut self, timeout_ms: u64) -> (r: Option<EtwEvent>)
        requires
            timeout_ms <= 31_536_000_000,
        ensures
            channel_capacity(*final(self)) == channel_capacity(*old(self)),
            if channel_queue(*old(self)).len() > 0 {
                r == Some(channel_queue(*old(self))[0]) && channel_queue(*final(self))
                    == channel_queue(*old(self)).skip(1)
            } else {
                r is None && channel_queue(*final(self)) == channel_queue(*old(self))
            },
    {
        self.rx.recv_timeout(std::time::Duration::from_millis(timeout_ms)).ok()
    }

    /// Relies on crossbeam_channel::Receiver::len.
    #[verifier::external_body]
    pub fn len(&self) -> (n: usize)
        ensures
            n == channel_queue(*self).len(),
    {
        self.rx.len()
    }
}

/// An unbounded FIFO queue holding replayed events; appending never
/// fails and never blocks.
#[verifier::external_body]
pub struct ReplayQueue {
    tx: crossbeam_channel::Sender<EtwEvent>,
    rx: crossbeam_channel::Receiver<EtwEvent>,
}

/// The events queued for replay, oldest first.
pub uninterp spec fn replay_queue(q: ReplayQueue) -> Seq<EtwEvent>;

impl ReplayQueue {
    /// Relies on crossbeam_channel::unbounded: a fresh empty queue.
    #[verifier::external_body]
    pub fn new() -> (q: ReplayQueue)
        ensures
            replay_queue(q) == Seq::<EtwEvent>::empty(),
    {
        let (tx, rx) = crossbeam_channel::unbounded();
        ReplayQueue { tx, rx }
    }

    /// Relies on crossbeam_channel::Sender::send, which on an unbounded
    /// connected channel appends without blocking.
    #[verifier::external_body]
    pub fn push(&mut self, event: EtwEvent)
        ensures
            replay_queue(*final(self)) == replay_queue(*old(self)).push(event),
    {
        let _ = self.tx.send(event);
    }

    /// Relies on crossbeam_channel::Receiver::try_recv and FIFO order.
    #[verifier::external_body]
    pub fn pop(&mut self) -> (r: Option<EtwEvent>)
        ensures
            if replay_queue(*old(self)).len() > 0 {
                r == Some(replay_queue(*old(self))[0]) && replay_queue(*final(self))
                    == replay_queue(*old(self)).skip(1)
            } else {
                r is None && replay_queue(*final(self)) == replay_queue(*old(self))
            },
    {
        self.rx.try_recv().ok()
    }

    /// Relies on crossbeam_channel::Receiver::len.
    #[verifier::external_body]
    pub fn len(&self) -> (n: usize)
        ensures
            n == replay_queue(*self).len(),
    {
        self.rx.len()
    }
}

} // verus!
