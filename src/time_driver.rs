//! The time driver: a monotonic tick counter, advanced once per timer
//! interrupt, and one alarm that always holds the earliest pending deadline
//! of the wake queue.
//!
//! Every method that changes the driver takes `&mut self`: the caller holds
//! the driver inside a critical section (interrupts masked), which is what
//! makes the access exclusive. In particular the counter cannot advance
//! while a method runs.
use vstd::multiset::Multiset;
use vstd::prelude::*;

use crate::queue::{
    expiration_post, insert_post, is_earliest, pending, queue_new, queue_next_expiration,
    queue_schedule_wake,
};

verus! {

/// The timestamp that marks the alarm as disarmed.
pub const DISARMED: u64 = u64::MAX;

/// The single hardware alarm: the tick at which the driver must next look at
/// the wake queue, or `DISARMED`.
pub struct AlarmState {
    timestamp: u64,
}

impl AlarmState {
    pub closed spec fn spec_timestamp(&self) -> u64 {
        self.timestamp
    }

    /// A disarmed alarm.
    pub fn new() -> (r: Self)
        ensures
            r.spec_timestamp() == DISARMED,
    {
        AlarmState { timestamp: DISARMED }
    }

    pub fn timestamp(&self) -> (r: u64)
        ensures
            r == self.spec_timestamp(),
    {
        self.timestamp
    }

    pub fn is_armed(&self) -> (r: bool)
        ensures
            r == (self.spec_timestamp() != DISARMED),
    {
        self.timestamp != DISARMED
    }
}

/// `set_alarm` accepts a candidate deadline unless it already lies in the past.
pub open spec fn arm_accepts(candidate: u64, now: u64) -> bool {
    !(candidate < now)
}

pub struct TimeDriver {
    counter: u64,
    alarms: AlarmState,
    queue: embassy_time_queue_utils::Queue,
}

impl TimeDriver {
    /// The tick count.
    pub closed spec fn spec_now(&self) -> u64 {
        self.counter
    }

    /// The armed timestamp, or `DISARMED`.
    pub closed spec fn spec_alarm(&self) -> u64 {
        self.alarms.timestamp
    }

    /// The deadlines of the pending wakes.
    pub closed spec fn spec_pending(&self) -> Multiset<u64> {
        pending(self.queue)
    }

    /// The driver's invariant: the alarm holds the earliest pending deadline
    /// (`DISARMED` where none is pending), and no pending deadline lies
    /// before the current tick.
    pub open spec fn inv(&self) -> bool {
        &&& is_earliest(self.spec_pending(), self.spec_alarm())
        &&& forall|d: u64| #[trigger] self.spec_pending().contains(d) ==> d >= self.spec_now()
    }

    /// A driver at tick 1 with no pending wake and the alarm disarmed.
    pub fn new() -> (r: Self)
        ensures
            r.spec_now() == 1,
            r.spec_alarm() == DISARMED,
            r.spec_pending() =~= Multiset::empty(),
            r.inv(),
    {
        TimeDriver { counter: 1, alarms: AlarmState::new(), queue: queue_new() }
    }

    /// The current tick count.
    pub fn now(&self) -> (r: u64)
        ensures
            r == self.spec_now(),
    {
        self.counter
    }

    /// The armed timestamp, or `DISARMED`.
    pub fn alarm_timestamp(&self) -> (r: u64)
        ensures
            r == self.spec_alarm(),
    {
        self.alarms.timestamp()
    }

    /// Arms the alarm at `timestamp`, or disarms it and reports `false` where
    /// `timestamp` already lies before the current tick.
    fn set_alarm(&mut self, timestamp: u64) -> (r: bool)
        ensures
            r == arm_accepts(timestamp, old(self).spec_now()),
            final(self).spec_alarm() == if r { timestamp } else { DISARMED },
            final(self).spec_now() == old(self).spec_now(),
            final(self).spec_pending() == old(self).spec_pending(),
    {
        let now = self.now();
        if timestamp < now {
            self.alarms.timestamp = DISARMED;
            return false;
        }
        self.alarms.timestamp = timestamp;
        true
    }

    /// The interrupt handler, run once per timer compare-match: advances the
    /// tick count by one (wrapping, as an atomic fetch-add does), and where
    /// the new tick count has reached the alarm, notifies the due wakes and
    /// re-arms the alarm.
    pub fn on_interrupt(&mut self)
        requires
            old(self).inv(),
        ensures
            tick_post(&*old(self), &*final(self)),
            final(self).inv(),
    {
        let ts = self.counter;
        self.counter = ts.wrapping_add(1);
        if self.counter < self.alarms.timestamp() {
            return;
        }
        self.reconcile_alarm();
    }

    /// Queues a wake of `waker` at tick `at`. Where the queue reports a new
    /// earliest deadline, the alarm is re-armed; a deadline already in the
    /// past is then notified at once rather than dropped.
    pub fn schedule_wake(&mut self, at: u64, waker: &core::task::Waker)
        requires
            old(self).inv(),
        ensures
            schedule_post(&*old(self), &*final(self), at),
            final(self).inv(),
            at < old(self).spec_now() ==> forall|d: u64|
                #[trigger] final(self).spec_pending().contains(d) ==> d > at,
    {
        let changed = queue_schedule_wake(&mut self.queue, at, waker);
        let ghost mid = self.spec_pending();
        if changed {
            self.reconcile_alarm();
        }
        assert(insert_post(old(self).spec_pending(), mid, at, changed));
    }

    /// Re-arms the alarm for the earliest deadline that is still ahead:
    /// asks the queue for its next expiration (which notifies every due
    /// wake), tries to arm it, and asks again where the candidate already
    /// lies in the past.
    fn reconcile_alarm(&mut self)
        ensures
            final(self).spec_now() == old(self).spec_now(),
            expiration_post(
                old(self).spec_pending(),
                final(self).spec_pending(),
                old(self).spec_now(),
                final(self).spec_alarm(),
            ),
            final(self).inv(),
    {
        loop
            invariant_except_break
                self.spec_pending() == old(self).spec_pending(),
            invariant
                self.spec_now() == old(self).spec_now(),
            ensures
                expiration_post(
                    old(self).spec_pending(),
                    self.spec_pending(),
                    old(self).spec_now(),
                    self.spec_alarm(),
                ),
            decreases self.spec_pending().len(),
        {
            let now = self.now();
            let next = queue_next_expiration(&mut self.queue, now);
            proof {
                lemma_first_attempt_arms(old(self).spec_pending(), self.spec_pending(), now, next);
            }
            if self.set_alarm(next) {
                break;
            }
        }
    }
}

/// The tick that follows `t` (the counter wraps after `u64::MAX`).
pub open spec fn next_tick(t: u64) -> u64 {
    if t == u64::MAX {
        0
    } else {
        (t + 1) as u64
    }
}

/// What one interrupt does: the tick count advances by one; where the new
/// tick count lies before the alarm nothing else changes, otherwise the
/// queue gives up every deadline at or before the new tick and the alarm
/// takes the earliest remaining one.
pub open spec fn tick_post(before: &TimeDriver, after: &TimeDriver) -> bool {
    &&& after.spec_now() == next_tick(before.spec_now())
    &&& after.spec_now() < before.spec_alarm() ==> {
        &&& after.spec_pending() == before.spec_pending()
        &&& after.spec_alarm() == before.spec_alarm()
    }
    &&& after.spec_now() >= before.spec_alarm() ==> expiration_post(
        before.spec_pending(),
        after.spec_pending(),
        after.spec_now(),
        after.spec_alarm(),
    )
}

/// What `schedule_wake(at, _)` does: the tick count stays; the queue takes
/// the wake; where it reports a change, every deadline at or before the
/// current tick is given up and the alarm takes the earliest remaining one,
/// otherwise the alarm stays.
pub open spec fn schedule_post(before: &TimeDriver, after: &TimeDriver, at: u64) -> bool {
    &&& after.spec_now() == before.spec_now()
    &&& exists|mid: Multiset<u64>, changed: bool|
        #[trigger] insert_post(before.spec_pending(), mid, at, changed) && if changed {
            expiration_post(mid, after.spec_pending(), before.spec_now(), after.spec_alarm())
        } else {
            after.spec_pending() == mid && after.spec_alarm() == before.spec_alarm()
        }
}

/// Over any run of interrupts that does not reach the end of the counter's
/// range, the tick count goes up by exactly one per interrupt, so it never
/// decreases.
pub proof fn lemma_ticks_count_interrupts(run: Seq<TimeDriver>)
    requires
        run.len() > 0,
        forall|i: int| 0 < i < run.len() ==> #[trigger] tick_post(&run[i - 1], &run[i]),
        run[0].spec_now() + run.len() - 1 <= u64::MAX,
    ensures
        forall|i: int| 0 <= i < run.len() ==> #[trigger] run[i].spec_now() == run[0].spec_now() + i,
        forall|i: int, j: int|
            0 <= i <= j < run.len() ==> #[trigger] run[i].spec_now() <= #[trigger] run[j].spec_now(),
    decreases run.len(),
{
    if run.len() > 1 {
        let prefix = run.drop_last();
        lemma_ticks_count_interrupts(prefix);
        assert forall|i: int| 0 <= i < run.len() implies #[trigger] run[i].spec_now() == run[0].spec_now() + i by {
            if i < run.len() - 1 {
                assert(prefix[i] == run[i]);
            } else {
                assert(prefix[i - 1] == run[i - 1]);
                assert(tick_post(&run[i - 1], &run[i]));
            }
        }
    }
}

/// Under the invariant the alarm is exactly the earliest pending deadline,
/// no pending deadline lies before the current tick, and the alarm is
/// disarmed if and only if no deadline short of `u64::MAX` is pending (a
/// wake at `u64::MAX` cannot be told apart from the disarmed alarm).
pub proof fn lemma_alarm_is_earliest_pending(drv: &TimeDriver)
    requires
        drv.inv(),
    ensures
        drv.spec_alarm() != DISARMED ==> drv.spec_pending().contains(drv.spec_alarm()),
        forall|d: u64| #[trigger] drv.spec_pending().contains(d) ==> drv.spec_alarm() <= d,
        forall|d: u64| #[trigger] drv.spec_pending().contains(d) ==> drv.spec_now() <= d,
        drv.spec_alarm() == DISARMED <==> forall|d: u64|
            #[trigger] drv.spec_pending().contains(d) ==> d == u64::MAX,
{
}

/// A wake scheduled for a tick that is not after the current one is
/// notified no later than the next interrupt: once that interrupt has been
/// handled, no pending deadline is at or before `at`.
pub proof fn lemma_past_deadline_notified(
    s0: &TimeDriver,
    s1: &TimeDriver,
    s2: &TimeDriver,
    at: u64,
)
    requires
        s0.inv(),
        s0.spec_now() < u64::MAX,
        at <= s0.spec_now(),
        schedule_post(s0, s1, at),
        tick_post(s1, s2),
    ensures
        forall|d: u64| #[trigger] s2.spec_pending().contains(d) ==> d > at,
{
    let (mid, changed) = choose|mid: Multiset<u64>, changed: bool|
        #[trigger] insert_post(s0.spec_pending(), mid, at, changed) && if changed {
            expiration_post(mid, s1.spec_pending(), s0.spec_now(), s1.spec_alarm())
        } else {
            s1.spec_pending() == mid && s1.spec_alarm() == s0.spec_alarm()
        };
    if changed {
        assert forall|d: u64| #[trigger] s2.spec_pending().contains(d) implies d > at by {
            if s2.spec_now() >= s1.spec_alarm() {
                assert(s2.spec_pending().count(d) > 0);
            }
            assert(s1.spec_pending().count(d) > 0);
        }
    } else {
        let d0 = choose|d: u64| #[trigger] s0.spec_pending().contains(d) && d <= at;
        assert(s0.spec_alarm() <= d0);
        assert forall|d: u64| #[trigger] s2.spec_pending().contains(d) implies d > at by {
            assert(s2.spec_pending().count(d) > 0);
        }
    }
}

/// The first candidate that `next_expiration(now)` returns is never in the
/// past, so the re-arm loop succeeds on its first attempt: it runs at most
/// once more than there are overdue entries.
pub proof fn lemma_first_attempt_arms(before: Multiset<u64>, after: Multiset<u64>, now: u64, r: u64)
    requires
        expiration_post(before, after, now, r),
    ensures
        arm_accepts(r, now),
{
    if r != u64::MAX {
        assert(after.contains(r));
        assert(after.count(r) == if r > now { before.count(r) } else { 0 });
    }
}

} // verus!
