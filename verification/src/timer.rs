use vstd::prelude::*;
use crate::probe::Probe;
use crate::scheduler::Scheduler;
use crate::scheduler::TaskId;
use crate::scheduler::TimerEntry;

verus! {

/// How many ticks a `WaitFlow` waits before completing.
pub const WAIT_TICKS: u64 = 10;

/// A leaf computation that becomes ready once a deadline has passed.
///
/// Time is an abstract tick count supplied by the prober; the scheduler's
/// clock decides what "now" is.
#[derive(Clone, Copy)]
pub struct Delay {
    /// The tick at which the delay elapses.
    pub when: u64,
    /// Whether the delay has already reported `Ready`.
    pub done: bool,
}

impl Delay {
    /// A spent delay has produced its result; probing it again is a usage
    /// fault, ruled out by the `requires` of `probe`.
    pub open spec fn is_spent(self) -> bool {
        self.done
    }

    pub fn new(when: u64) -> (d: Delay)
        ensures
            d.when == when,
            !d.is_spent(),
    {
        Delay { when, done: false }
    }

    /// Probe the delay at tick `now`, as task `task`: ready exactly when the
    /// deadline has passed. While pending, the wake callback is registered
    /// with the scheduler's timer facility to fire once at the deadline,
    /// rather than re-waking unconditionally on every probe, so a pending
    /// delay never busy-spins.
    pub fn probe(&mut self, now: u64, task: TaskId, sched: &mut Scheduler) -> (r: Probe<()>)
        requires
            !old(self).is_spent(),
            old(sched).wf(),
        ensures
            final(sched).wf(),
            final(self).when == old(self).when,
            now >= old(self).when ==> {
                &&& r is Ready
                &&& (*final(self)).is_spent()
                &&& *final(sched) == *old(sched)
            },
            now < old(self).when ==> {
                &&& r is Pending
                &&& !(*final(self)).is_spent()
                &&& final(sched).ready@ == old(sched).ready@
                &&& final(sched).timers@ == old(sched).timers@.push(
                    TimerEntry { fire_at: old(self).when, task },
                )
            },
    {
        if now >= self.when {
            self.done = true;
            Probe::Ready(())
        } else {
            sched.register_timer(self.when, task);
            Probe::Pending
        }
    }
}

/// A composite computation with one suspension point: it starts a delay of
/// `WAIT_TICKS` ticks, waits on it, and terminates. Each variant is one state
/// of the enumerated state machine; transitions occur strictly in program
/// order, and the composite is pending exactly while its delay is pending.
#[derive(Clone, Copy)]
pub enum WaitFlow {
    /// Initialized, never probed.
    NotStarted,
    /// Waiting on the inner delay.
    Waiting(Delay),
    /// The flow has completed; probing it again is a usage fault.
    Terminated,
}

impl WaitFlow {
    pub open spec fn is_terminated(self) -> bool {
        self is Terminated
    }

    /// A flow is well formed while any delay it waits on is not yet spent.
    pub open spec fn wf(self) -> bool {
        self matches WaitFlow::Waiting(d) ==> !d.is_spent()
    }

    /// The delay a waiting flow is suspended on.
    pub open spec fn inner_delay(self) -> Delay
        recommends
            self is Waiting,
    {
        match self {
            WaitFlow::Waiting(d) => d,
            _ => Delay { when: 0, done: false },
        }
    }

    pub fn new() -> (f: WaitFlow)
        ensures
            f is NotStarted,
            f.wf(),
    {
        WaitFlow::NotStarted
    }

    /// Advance the flow by one probe at tick `now`. A first probe starts the
    /// delay and immediately waits on it; later probes forward to the delay
    /// and terminate once it reports ready.
    pub fn probe(&mut self, now: u64, task: TaskId, sched: &mut Scheduler) -> (r: Probe<()>)
        requires
            !old(self).is_terminated(),
            old(self).wf(),
            now <= u64::MAX - WAIT_TICKS,
            old(sched).wf(),
        ensures
            (*final(self)).wf(),
            final(sched).wf(),
            *old(self) is NotStarted ==> {
                &&& r is Pending
                &&& *final(self) matches WaitFlow::Waiting(d) && d.when == now + WAIT_TICKS
                &&& final(sched).ready@ == old(sched).ready@
                &&& final(sched).timers@ == old(sched).timers@.push(
                    TimerEntry { fire_at: (now + WAIT_TICKS) as u64, task },
                )
            },
            *old(self) is Waiting && now >= (*old(self)).inner_delay().when ==> {
                &&& r is Ready
                &&& (*final(self)).is_terminated()
                &&& *final(sched) == *old(sched)
            },
            *old(self) is Waiting && now < (*old(self)).inner_delay().when ==> {
                &&& r is Pending
                &&& *final(self) == *old(self)
                &&& final(sched).ready@ == old(sched).ready@
                &&& final(sched).timers@ == old(sched).timers@.push(
                    TimerEntry { fire_at: (*old(self)).inner_delay().when, task },
                )
            },
    {
        let cur: WaitFlow = *self;
        match cur {
            WaitFlow::NotStarted => {
                let mut delay = Delay::new(now + WAIT_TICKS);
                let r = delay.probe(now, task, sched);
                *self = WaitFlow::Waiting(delay);
                r
            },
            WaitFlow::Waiting(mut delay) => {
                match delay.probe(now, task, sched) {
                    Probe::Ready(_) => {
                        *self = WaitFlow::Terminated;
                        Probe::Ready(())
                    },
                    Probe::Pending => {
                        *self = WaitFlow::Waiting(delay);
                        Probe::Pending
                    },
                }
            },
            WaitFlow::Terminated => {
                assert(false);
                Probe::Pending
            },
        }
    }
}

} // verus!
