use vstd::prelude::*;

verus! {

/// Identifies one suspended computation owned by the scheduler.
pub type TaskId = usize;

/// A one-shot wake registration: when the clock reaches `fire_at`, the
/// scheduler wakes `task` once and discards the entry.
pub struct TimerEntry {
    pub fire_at: u64,
    pub task: TaskId,
}

/// The scheduler's shared state: a FIFO ready queue of computations awaiting
/// a probe, and the registered one-shot timer wakes. It is an explicitly
/// constructed context handed around by callers, not a hidden singleton, so
/// each test can instantiate a fresh one.
pub struct Scheduler {
    pub ready: Vec<TaskId>,
    pub timers: Vec<TimerEntry>,
}

/// What waking `id` does to a ready queue: a task already enqueued is not
/// enqueued again, so repeated wakes before the next probe collapse to a
/// single entry.
pub open spec fn wake_queue(q: Seq<TaskId>, id: TaskId) -> Seq<TaskId> {
    if q.contains(id) {
        q
    } else {
        q.push(id)
    }
}

impl Scheduler {
    /// No task is ever queued for a probe twice at once; together with the
    /// consumer taking tasks one at a time this is what keeps a computation
    /// from being probed concurrently by two workers.
    pub open spec fn wf(self) -> bool {
        forall|i: int, j: int|
            0 <= i < j < self.ready@.len() ==> self.ready@[i] != self.ready@[j]
    }

    pub fn new() -> (s: Scheduler)
        ensures
            s.wf(),
            s.ready@ == Seq::<TaskId>::empty(),
            s.timers@ == Seq::<TimerEntry>::empty(),
    {
        Scheduler { ready: Vec::new(), timers: Vec::new() }
    }

    /// The wake callback: enqueue `id` for a probe unless it is already
    /// queued. Invoking it repeatedly before the next probe is idempotent.
    pub fn wake(&mut self, id: TaskId)
        requires
            old(self).wf(),
        ensures
            final(self).wf(),
            final(self).ready@ == wake_queue(old(self).ready@, id),
            final(self).timers@ == old(self).timers@,
    {
        let mut i: usize = 0;
        let n = self.ready.len();
        while i < n
            invariant
                old(self).wf(),
                *self == *old(self),
                n == self.ready@.len(),
                0 <= i <= n,
                forall|k: int| 0 <= k < i ==> self.ready@[k] != id,
            decreases n - i,
        {
            if self.ready[i] == id {
                proof {
                    assert(self.ready@.contains(id));
                }
                return ;
            }
            i += 1;
        }
        proof {
            assert(!self.ready@.contains(id));
        }
        self.ready.push(id);
        proof {
            assert forall|a: int, b: int|
                0 <= a < b < self.ready@.len() implies self.ready@[a] != self.ready@[b] by {
                if b == self.ready@.len() - 1 {
                    assert(old(self).ready@.contains(self.ready@[a]) == old(
                        self,
                    ).ready@.contains(old(self).ready@[a]));
                }
            }
        }
    }

    /// Take the next computation to probe, in the order the wakes completed.
    pub fn take_next(&mut self) -> (r: Option<TaskId>)
        requires
            old(self).wf(),
        ensures
            final(self).wf(),
            final(self).timers@ == old(self).timers@,
            old(self).ready@.len() == 0 ==> r is None && final(self).ready@ == old(self).ready@,
            old(self).ready@.len() > 0 ==> r == Some(old(self).ready@[0]) && final(self).ready@
                == old(self).ready@.subrange(1, old(self).ready@.len() as int),
    {
        if self.ready.len() == 0 {
            None
        } else {
            let id = self.ready.remove(0);
            proof {
                assert(self.ready@ =~= old(self).ready@.subrange(
                    1,
                    old(self).ready@.len() as int,
                ));
            }
            Some(id)
        }
    }

    /// Register a one-shot wake for `task` at tick `fire_at`; the timer
    /// facility a pending deadline computation hands its wake callback to.
    pub fn register_timer(&mut self, fire_at: u64, task: TaskId)
        requires
            old(self).wf(),
        ensures
            final(self).wf(),
            final(self).ready@ == old(self).ready@,
            final(self).timers@ == old(self).timers@.push(TimerEntry { fire_at, task }),
    {
        self.timers.push(TimerEntry { fire_at, task });
    }

    /// Fire the earliest-registered timer that is due at tick `now`, if any:
    /// the entry is removed (it wakes once, never again) and its task is
    /// woken. Returns the task woken, or `None` when no entry is due.
    pub fn fire_one_due(&mut self, now: u64) -> (r: Option<TaskId>)
        requires
            old(self).wf(),
        ensures
            final(self).wf(),
            r is None ==> final(self).ready@ == old(self).ready@ && final(self).timers@ == old(
                self,
            ).timers@ && (forall|j: int|
                0 <= j < old(self).timers@.len() ==> old(self).timers@[j].fire_at > now),
            r matches Some(task) ==> exists|i: int|
                {
                    &&& 0 <= i < old(self).timers@.len()
                    &&& old(self).timers@[i].fire_at <= now
                    &&& old(self).timers@[i].task == task
                    &&& (forall|j: int| 0 <= j < i ==> old(self).timers@[j].fire_at > now)
                    &&& final(self).timers@ == old(self).timers@.remove(i)
                    &&& final(self).ready@ == wake_queue(old(self).ready@, task)
                },
    {
        let mut i: usize = 0;
        let n = self.timers.len();
        while i < n
            invariant
                old(self).wf(),
                *self == *old(self),
                n == self.timers@.len(),
                0 <= i <= n,
                forall|j: int| 0 <= j < i ==> self.timers@[j].fire_at > now,
            decreases n - i,
        {
            if self.timers[i].fire_at <= now {
                let entry = self.timers.remove(i);
                self.wake(entry.task);
                proof {
                    let gi = i as int;
                    assert(0 <= gi < old(self).timers@.len());
                    assert(old(self).timers@[gi].fire_at <= now);
                }
                return Some(entry.task);
            }
            i += 1;
        }
        None
    }
}

/// Wake-callback idempotence: waking a task that is already queued changes
/// nothing, so any number of wakes before the next probe collapse to one
/// re-enqueue.
pub proof fn lemma_wake_idempotent(q: Seq<TaskId>, id: TaskId)
    ensures
        wake_queue(wake_queue(q, id), id) == wake_queue(q, id),
{
    if !q.contains(id) {
        assert(q.push(id)[q.len() as int] == id);
        assert(wake_queue(q, id).contains(id));
    }
}

} // verus!
