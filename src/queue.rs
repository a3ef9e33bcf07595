//! The wake queue: pending `(deadline, waker)` pairs, kept by
//! `embassy_time_queue_utils::Queue`. Only the multiset of pending deadlines
//! is visible to the proofs; wakers are opaque notify-handles.
use vstd::multiset::Multiset;
use vstd::prelude::*;

verus! {

#[verifier::external_type_specification]
#[verifier::external_body]
pub struct ExWaker(core::task::Waker);

#[verifier::external_type_specification]
#[verifier::external_body]
pub struct ExQueue(embassy_time_queue_utils::Queue);

/// The deadlines of the entries that a queue holds, one per pending wake.
pub uninterp spec fn pending(q: embassy_time_queue_utils::Queue) -> Multiset<u64>;

/// `m` is the earliest deadline of `s`, or `u64::MAX` where `s` is empty:
/// the value that the queue reports as its next expiration.
pub open spec fn is_earliest(s: Multiset<u64>, m: u64) -> bool {
    &&& forall|d: u64| s.contains(d) ==> m <= d
    &&& m == u64::MAX || s.contains(m)
}

/// What `next_expiration(now)` leaves behind and returns: every entry with a
/// deadline at or before `now` is removed (its waker is notified), the others
/// stay, and the result is the earliest remaining deadline.
pub open spec fn expiration_post(
    before: Multiset<u64>,
    after: Multiset<u64>,
    now: u64,
    r: u64,
) -> bool {
    &&& forall|d: u64| #[trigger] after.count(d) == if d > now { before.count(d) } else { 0 }
    &&& is_earliest(after, r)
}

/// How many entries the queue holds at most (the `generic-queue-8` variant).
pub open spec fn queue_capacity() -> nat {
    8
}

/// What `schedule_wake(at, waker)` does to the pending deadlines, as far as it
/// can be told without the identity of wakers. It reports `false` where an
/// entry of the same waker already has a deadline at or before `at`: nothing
/// changes. Otherwise it reports `true`, and `at` is pending in one of three
/// ways: pushed as a new entry; replacing a later deadline of the same
/// waker; or, where the queue is full, pushed after one entry was taken out
/// (its waker is notified early).
pub open spec fn insert_post(before: Multiset<u64>, after: Multiset<u64>, at: u64, r: bool) -> bool {
    &&& !r ==> after == before && exists|d: u64| #[trigger] before.contains(d) && d <= at
    &&& r ==> {
        ||| after == before.insert(at)
        ||| exists|d: u64| #[trigger] before.contains(d) && at < d && after == before.remove(d).insert(at)
        ||| before.len() == queue_capacity() && exists|d: u64| #[trigger] before.contains(d) && after == before.remove(d).insert(at)
    }
}

/// Relies on `Queue::new` (generic variant): a new queue holds no entries.
#[verifier::external_body]
pub(crate) fn queue_new() -> (q: embassy_time_queue_utils::Queue)
    ensures
        pending(q) =~= Multiset::empty(),
{
    embassy_time_queue_utils::Queue::new()
}

/// Relies on `Queue::schedule_wake` (generic variant): an entry of the same
/// waker keeps the earlier of its deadline and `at` (`true` only if `at` is
/// earlier); otherwise `(at, waker)` is pushed (`true`), after the last entry
/// is popped and woken where the queue is full.
#[verifier::external_body]
pub(crate) fn queue_schedule_wake(
    q: &mut embassy_time_queue_utils::Queue,
    at: u64,
    waker: &core::task::Waker,
) -> (r: bool)
    ensures
        insert_post(pending(*old(q)), pending(*final(q)), at, r),
{
    q.schedule_wake(at, waker)
}

/// Relies on `Queue::next_expiration` (generic variant): it removes and wakes
/// every entry whose deadline is at or before `now`, and returns the minimum
/// of the remaining deadlines, starting from `u64::MAX`.
#[verifier::external_body]
pub(crate) fn queue_next_expiration(q: &mut embassy_time_queue_utils::Queue, now: u64) -> (r: u64)
    ensures
        expiration_post(pending(*old(q)), pending(*final(q)), now, r),
{
    q.next_expiration(now)
}

} // verus!
