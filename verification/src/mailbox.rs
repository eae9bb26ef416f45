use vstd::prelude::*;

verus! {

/// The verdict of one send attempt. `Full` and `Disconnected` hand the item
/// back untouched: a full mailbox is a suspension point (the producer waits
/// for a slot), a disconnected one is a closed channel.
pub enum SendAttempt<T> {
    Accepted,
    Full(T),
    Disconnected(T),
}

/// The verdict of one receive attempt. `Empty` is a suspension point (the
/// consumer waits for an item); `Closed` is the clean end-of-stream verdict
/// once the mailbox is empty and every producer handle is gone.
pub enum RecvAttempt<T> {
    Item(T),
    Empty,
    Closed,
}

/// The mathematical model of a mailbox: the queued items as a sequence,
/// the fixed capacity, the count of live producer handles, and whether the
/// single consumer handle still exists.
pub struct MailboxModel<T> {
    pub queue: Seq<T>,
    pub capacity: nat,
    pub producers: nat,
    pub consumer_live: bool,
}

impl<T> MailboxModel<T> {
    /// The model and verdict after one send attempt: refused and unchanged
    /// when the consumer is gone or the mailbox is full, otherwise the item
    /// is appended at the back. Completion order determines FIFO position.
    pub open spec fn send_transition(self, item: T) -> (MailboxModel<T>, SendAttempt<T>) {
        if !self.consumer_live {
            (self, SendAttempt::Disconnected(item))
        } else if self.queue.len() >= self.capacity {
            (self, SendAttempt::Full(item))
        } else {
            (MailboxModel { queue: self.queue.push(item), ..self }, SendAttempt::Accepted)
        }
    }

    /// The model and verdict after one receive attempt: the front item in
    /// FIFO order when one is queued; `Closed` once the mailbox is empty and
    /// all producer handles are gone; otherwise a suspension.
    pub open spec fn recv_transition(self) -> (MailboxModel<T>, RecvAttempt<T>) {
        if self.queue.len() > 0 {
            (
                MailboxModel { queue: self.queue.subrange(1, self.queue.len() as int), ..self },
                RecvAttempt::Item(self.queue[0]),
            )
        } else if self.producers == 0 {
            (self, RecvAttempt::Closed)
        } else {
            (self, RecvAttempt::Empty)
        }
    }
}

/// A bounded multi-producer, single-consumer FIFO mailbox. The capacity is
/// fixed at creation; producer handles are counted rather than materialized,
/// so cloning and dropping a handle are counter updates on the shared state.
pub struct Mailbox<T> {
    pub queue: Vec<T>,
    pub capacity: usize,
    pub producers: usize,
    pub consumer_live: bool,
}

impl<T> Mailbox<T> {
    /// The mailbox as its mathematical model.
    pub open spec fn model(self) -> MailboxModel<T> {
        MailboxModel {
            queue: self.queue@,
            capacity: self.capacity as nat,
            producers: self.producers as nat,
            consumer_live: self.consumer_live,
        }
    }

    /// In-flight items never exceed the capacity fixed at creation.
    pub open spec fn wf(self) -> bool {
        &&& self.queue@.len() <= self.capacity
        &&& self.capacity >= 1
    }

    /// A fresh mailbox of the given capacity, with one producer handle and
    /// the consumer side alive.
    pub fn new(capacity: usize) -> (m: Mailbox<T>)
        requires
            capacity >= 1,
        ensures
            m.wf(),
            m.model() == (MailboxModel::<T> {
                queue: Seq::empty(),
                capacity: capacity as nat,
                producers: 1,
                consumer_live: true,
            }),
    {
        Mailbox { queue: Vec::new(), capacity, producers: 1, consumer_live: true }
    }

    /// Clone a producer handle: producer handles are reference-counted.
    pub fn clone_producer(&mut self)
        requires
            old(self).producers >= 1,
            old(self).producers < usize::MAX,
        ensures
            final(self).model() == (MailboxModel {
                producers: old(self).model().producers + 1,
                ..old(self).model()
            }),
            (*final(self)).wf() == (*old(self)).wf(),
    {
        self.producers = self.producers + 1;
    }

    /// Release one producer handle; once the count reaches zero the mailbox
    /// counts as closed for the consumer (after draining).
    pub fn drop_producer(&mut self)
        requires
            old(self).producers >= 1,
        ensures
            final(self).model() == (MailboxModel {
                producers: (old(self).model().producers - 1) as nat,
                ..old(self).model()
            }),
            (*final(self)).wf() == (*old(self)).wf(),
    {
        self.producers = self.producers - 1;
    }

    /// Release the consumer handle; later sends observe `Disconnected`.
    pub fn drop_consumer(&mut self)
        requires
            old(self).consumer_live,
        ensures
            final(self).model() == (MailboxModel { consumer_live: false, ..old(self).model() }),
            (*final(self)).wf() == (*old(self)).wf(),
    {
        self.consumer_live = false;
    }

    /// One send attempt by a producer. A `Full` verdict is the backpressure
    /// suspension point: the item comes back untouched and the producer
    /// retries once a slot frees; nothing is dropped or duplicated.
    pub fn try_send(&mut self, item: T) -> (r: SendAttempt<T>)
        requires
            old(self).wf(),
            old(self).producers >= 1,
        ensures
            (*final(self)).wf(),
            (final(self).model(), r) == old(self).model().send_transition(item),
    {
        if !self.consumer_live {
            SendAttempt::Disconnected(item)
        } else if self.queue.len() >= self.capacity {
            SendAttempt::Full(item)
        } else {
            self.queue.push(item);
            SendAttempt::Accepted
        }
    }

    /// One receive attempt by the single consumer: items leave in the exact
    /// order their sends completed.
    pub fn try_recv(&mut self) -> (r: RecvAttempt<T>)
        requires
            old(self).wf(),
            old(self).consumer_live,
        ensures
            (*final(self)).wf(),
            (final(self).model(), r) == old(self).model().recv_transition(),
    {
        if self.queue.len() > 0 {
            let item = self.queue.remove(0);
            proof {
                assert(self.queue@ =~= old(self).queue@.subrange(
                    1,
                    old(self).queue@.len() as int,
                ));
            }
            RecvAttempt::Item(item)
        } else if self.producers == 0 {
            RecvAttempt::Closed
        } else {
            RecvAttempt::Empty
        }
    }
}

/// Backpressure law: against a full mailbox of capacity K holding items
/// q[0..K], a further send is refused with the item handed back and the
/// mailbox unchanged; after the consumer drains one item, the same send is
/// accepted and appends the item — the queue is then exactly
/// q[1..K] + [item], so nothing was dropped or duplicated.
pub proof fn lemma_backpressure<T>(m: MailboxModel<T>, item: T)
    requires
        m.consumer_live,
        m.capacity >= 1,
        m.queue.len() == m.capacity,
    ensures
        ({
            let (m1, refused) = m.send_transition(item);
            &&& m1 == m
            &&& refused matches SendAttempt::Full(it) && it == item
        }),
        ({
            let (m2, got) = m.recv_transition();
            let (m3, accepted) = m2.send_transition(item);
            &&& got == RecvAttempt::Item(m.queue[0])
            &&& accepted is Accepted
            &&& m3.queue == m.queue.subrange(1, m.queue.len() as int).push(item)
            &&& m3.queue.len() == m.capacity
        }),
{
}

/// Close-and-drain law: once every producer handle is gone, receive attempts
/// return the remaining items one by one in FIFO order and only then report
/// `Closed`; a receive on a non-empty closed mailbox never skips an item.
pub proof fn lemma_drain_then_close<T>(m: MailboxModel<T>)
    requires
        m.producers == 0,
    ensures
        m.queue.len() > 0 ==> ({
            let (m1, got) = m.recv_transition();
            &&& got == RecvAttempt::Item(m.queue[0])
            &&& m1.queue == m.queue.subrange(1, m.queue.len() as int)
            &&& m1.producers == 0
        }),
        m.queue.len() == 0 ==> ({
            let (m1, got) = m.recv_transition();
            &&& got == RecvAttempt::<T>::Closed
            &&& m1 == m
        }),
{
}

} // verus!
