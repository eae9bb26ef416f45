use vstd::prelude::*;
use crate::probe::Probe;

verus! {

/// What a receiver obtains from its response channel: the value the paired
/// sender transmitted, or `Canceled` when the sender was destroyed without
/// sending. Both are normal outcomes, never faults.
pub enum RecvOutcome<T> {
    Value(T),
    Canceled,
}

/// A single-use response channel: one slot shared by a sender half and a
/// receiver half, carrying at most one value ever.
///
/// The two halves are modeled by the liveness flags: an operation consumes
/// its half, so sending twice or receiving twice is ruled out by `requires`
/// rather than tolerated at runtime.
pub struct Oneshot<T> {
    /// The transmitted value, once the sender has sent and before the
    /// receiver has taken it.
    pub value: Option<T>,
    /// Whether the sender half still exists.
    pub sender_live: bool,
    /// Whether the receiver half still exists.
    pub receiver_live: bool,
}

impl<T> Oneshot<T> {
    /// While the sender half exists, nothing has been transmitted yet.
    pub open spec fn wf(self) -> bool {
        self.sender_live ==> self.value is None
    }

    /// The channel state after the sender half transmits `v`: the sender is
    /// consumed, and the value lands in the slot only if a receiver is still
    /// interested. A `false` verdict means the receiver was already
    /// destroyed and the value was discarded — a silent no-op.
    pub open spec fn send_transition(self, v: T) -> (Oneshot<T>, bool) {
        if self.receiver_live {
            (Oneshot { value: Some(v), sender_live: false, receiver_live: true }, true)
        } else {
            (Oneshot { value: None, sender_live: false, receiver_live: false }, false)
        }
    }

    /// The channel state after the sender half is destroyed without sending.
    pub open spec fn drop_sender_transition(self) -> Oneshot<T> {
        Oneshot { value: None, sender_live: false, receiver_live: self.receiver_live }
    }

    /// The channel state and probe verdict when the receiver half is probed:
    /// pending while the sender still exists, otherwise ready with either
    /// the transmitted value or `Canceled`, consuming the receiver half.
    pub open spec fn recv_transition(self) -> (Oneshot<T>, Probe<RecvOutcome<T>>) {
        if self.sender_live {
            (self, Probe::Pending)
        } else {
            (
                Oneshot { value: None, sender_live: false, receiver_live: false },
                match self.value {
                    Some(v) => Probe::Ready(RecvOutcome::Value(v)),
                    None => Probe::Ready(RecvOutcome::Canceled),
                },
            )
        }
    }

    /// A fresh channel pair: slot empty, both halves alive.
    pub fn new() -> (c: Oneshot<T>)
        ensures
            c.wf(),
            c.value is None,
            c.sender_live,
            c.receiver_live,
    {
        Oneshot { value: None, sender_live: true, receiver_live: true }
    }

    /// Transmit `v`, consuming the sender half. Returns whether a receiver
    /// was still there to get it; a `false` verdict is not an error.
    pub fn send(&mut self, v: T) -> (delivered: bool)
        requires
            old(self).wf(),
            old(self).sender_live,
        ensures
            (*final(self)).wf(),
            (*final(self), delivered) == old(self).send_transition(v),
    {
        self.sender_live = false;
        if self.receiver_live {
            self.value = Some(v);
            true
        } else {
            false
        }
    }

    /// Destroy the sender half without sending; the receiver will observe
    /// `Canceled` rather than suspending forever.
    pub fn drop_sender(&mut self)
        requires
            old(self).wf(),
            old(self).sender_live,
        ensures
            (*final(self)).wf(),
            *final(self) == old(self).drop_sender_transition(),
    {
        self.sender_live = false;
    }

    /// Probe the receiver half: pending while the sender half still exists,
    /// otherwise ready exactly once, consuming the receiver half.
    pub fn probe_recv(&mut self) -> (r: Probe<RecvOutcome<T>>)
        requires
            old(self).wf(),
            old(self).receiver_live,
        ensures
            (*final(self)).wf(),
            (*final(self), r) == old(self).recv_transition(),
    {
        if self.sender_live {
            Probe::Pending
        } else {
            self.receiver_live = false;
            match self.value.take() {
                Some(v) => Probe::Ready(RecvOutcome::Value(v)),
                None => Probe::Ready(RecvOutcome::Canceled),
            }
        }
    }

    /// Destroy the receiver half: the caller abandoned interest. Any value
    /// already in the slot is discarded; a later send is silently dropped.
    pub fn drop_receiver(&mut self)
        requires
            old(self).wf(),
            old(self).receiver_live,
        ensures
            (*final(self)).wf(),
            *final(self) == (Oneshot::<T> {
                value: None,
                sender_live: old(self).sender_live,
                receiver_live: false,
            }),
    {
        self.receiver_live = false;
        let _ = self.value.take();
    }
}

/// Cancellation law: destroying the sender half of a fresh channel without
/// sending makes the very next receiver probe return `Canceled` — the
/// receiver is never left suspended forever.
pub proof fn lemma_cancellation<T>(c: Oneshot<T>)
    requires
        c.wf(),
        c.sender_live,
        c.receiver_live,
    ensures
        ({
            let dropped = c.drop_sender_transition();
            let (after, r) = dropped.recv_transition();
            &&& r == Probe::Ready(RecvOutcome::<T>::Canceled)
            &&& !after.receiver_live
        }),
{
}

/// Exactly-once law: once the sender half has transmitted a value, the very
/// next receiver probe returns exactly that value, and afterwards both
/// halves are consumed — no second send and no second receive can occur.
pub proof fn lemma_exactly_once<T>(c: Oneshot<T>, v: T)
    requires
        c.wf(),
        c.sender_live,
        c.receiver_live,
    ensures
        ({
            let (sent, delivered) = c.send_transition(v);
            let (after, r) = sent.recv_transition();
            &&& delivered
            &&& r == Probe::Ready(RecvOutcome::Value(v))
            &&& !after.sender_live
            &&& !after.receiver_live
        }),
{
}

} // verus!
