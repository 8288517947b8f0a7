use vstd::prelude::*;

verus! {

use heapless::binary_heap::{BinaryHeap, Min};
use vstd::multiset::Multiset;
use crate::executor::{Fatal, ReadyQueue, wake_task, READY_CAPACITY};
use crate::future::Poll;

broadcast use {vstd::multiset::group_multiset_axioms, vstd::seq_lib::group_to_multiset_ensures};

// ---------------------------------------------------------------------------
// Time: millisecond ticks over a wrapping 32-bit hardware counter.
//
// The counter is free-running and wraps from u32::MAX to 0. All comparisons
// and arithmetic on instants are modular: an instant `a` is at or after an
// instant `b` exactly when the wrapping distance from `b` to `a` is less than
// half the counter range. Two instants are therefore only meaningfully
// ordered while they are within half a wrap period of each other, which every
// duration used by this runtime respects.
// ---------------------------------------------------------------------------

/// One full wrap of the 32-bit tick counter.
pub open spec fn tick_range() -> int {
    0x1_0000_0000
}

/// Half of the counter range: the horizon within which wrapping comparison of
/// two instants is meaningful.
pub open spec fn tick_horizon() -> int {
    0x8000_0000
}

/// Addition modulo the counter range.
pub open spec fn wrap_add_spec(a: u32, b: u32) -> u32 {
    if a + b > u32::MAX {
        (a + b - tick_range()) as u32
    } else {
        (a + b) as u32
    }
}

/// Subtraction modulo the counter range.
pub open spec fn wrap_sub_spec(a: u32, b: u32) -> u32 {
    if a - b < 0 {
        (a - b + tick_range()) as u32
    } else {
        (a - b) as u32
    }
}

/// Whether the counter reading `now` is at or after the absolute tick value
/// `deadline`, under wrapping comparison.
pub open spec fn reached_spec(now: u32, deadline: u32) -> bool {
    wrap_sub_spec(now, deadline) < tick_horizon()
}

/// An absolute reading of the wrapping millisecond counter.
#[derive(Clone, Copy, PartialEq, Eq, Structural, Debug)]
pub struct TickInstant {
    pub ticks: u32,
}

/// A span of milliseconds, at most one wrap of the counter.
#[derive(Clone, Copy, PartialEq, Eq, Structural, Debug)]
pub struct TickDuration {
    pub ticks: u32,
}

impl TickInstant {
    pub fn from_ticks(ticks: u32) -> (r: TickInstant)
        ensures
            r.ticks == ticks,
    {
        TickInstant { ticks }
    }

    pub fn ticks(&self) -> (r: u32)
        ensures
            r == self.ticks,
    {
        self.ticks
    }

    /// The instant `duration` later, wrapping around the end of the counter
    /// range.
    pub fn plus(self, duration: TickDuration) -> (r: TickInstant)
        ensures
            r.ticks == wrap_add_spec(self.ticks, duration.ticks),
    {
        TickInstant { ticks: self.ticks.wrapping_add(duration.ticks) }
    }

    /// Wrapping comparison: whether `self` is at or after `other`.
    pub fn at_or_after(self, other: TickInstant) -> (r: bool)
        ensures
            r == reached_spec(self.ticks, other.ticks),
    {
        self.ticks.wrapping_sub(other.ticks) < 0x8000_0000
    }
}

impl TickDuration {
    pub fn from_ticks(ticks: u32) -> (r: TickDuration)
        ensures
            r.ticks == ticks,
    {
        TickDuration { ticks }
    }

    /// Milliseconds in this duration (the tick resolution is one
    /// millisecond).
    pub fn to_millis(&self) -> (r: u32)
        ensures
            r == self.ticks,
    {
        self.ticks
    }

    pub fn minus(self, other: TickDuration) -> (r: TickDuration)
        requires
            other.ticks <= self.ticks,
        ensures
            r.ticks == self.ticks - other.ticks,
    {
        TickDuration { ticks: self.ticks - other.ticks }
    }
}

/// A deadline strictly less than half the counter range in the future is
/// never already reached at the instant it is computed, while a deadline a
/// zero duration away is reached at once.
pub proof fn lemma_fresh_deadline_unreached(now: u32, duration: u32)
    ensures
        0 < duration < tick_horizon() ==> !reached_spec(now, wrap_add_spec(now, duration)),
        duration == 0 ==> reached_spec(now, wrap_add_spec(now, duration)),
{
}

/// Wrapping comparison is authoritative once the deadline has been reached:
/// any counter reading that is at the deadline or up to (but not including)
/// half a wrap after it reports the deadline as reached.
pub proof fn lemma_reached_within_horizon(deadline: u32, later: u32)
    ensures
        reached_spec(wrap_add_spec(deadline, later), deadline) == (later < tick_horizon()),
{
}

// ---------------------------------------------------------------------------
// The deadline scheduler.
//
// Pending deadlines are (absolute tick, task identity) pairs in a bounded
// min-heap. The scheduler pops every entry whose deadline the current counter
// reading has reached, wakes the corresponding tasks, and then arms the
// hardware for the nearest remaining deadline: a compare match if it lies
// ahead in the current counter cycle, or the counter-overflow event if it
// lies beyond the coming wrap. A synthetic heartbeat entry is inserted
// whenever the heap would otherwise be empty, so some timer interrupt is
// always armed and the wrap is always observed.
// ---------------------------------------------------------------------------

/// Capacity of the deadline heap.
pub const MAX_DEADLINES: usize = 8;

/// How far ahead the synthetic heartbeat deadline lies: twenty-four hours of
/// millisecond ticks, well under half the counter range.
pub const HEARTBEAT_INTERVAL_MS: u32 = 24 * 60 * 60 * 1000;

/// The reserved identity tagging the heartbeat entry; it is never a real
/// task and is never delivered to a wake.
pub const HEARTBEAT_TASK_ID: usize = 0xFFFF_FFFF;

/// The lexicographic order on deadline entries that the min-heap uses:
/// core's derived order on pairs of integers, deadline first.
pub open spec fn entry_le(a: (u32, usize), b: (u32, usize)) -> bool {
    a.0 < b.0 || (a.0 == b.0 && a.1 <= b.1)
}

/// `e` is a least entry of `m` under the lexicographic order.
pub open spec fn min_of(m: Multiset<(u32, usize)>, e: (u32, usize)) -> bool {
    m.contains(e) && (forall|x: (u32, usize)| #[trigger] m.contains(x) ==> entry_le(e, x))
}

/// The lexicographic order admits one least entry value at most.
pub proof fn lemma_min_of_unique(m: Multiset<(u32, usize)>, a: (u32, usize), b: (u32, usize))
    requires
        min_of(m, a),
        min_of(m, b),
    ensures
        a == b,
{
    assert(entry_le(a, b));
    assert(entry_le(b, a));
}

// ---------------------------------------------------------------------------
// Trusted view of the heapless min-heap backing the scheduler.
// ---------------------------------------------------------------------------

#[verifier::external_type_specification]
#[verifier::external_body]
#[verifier::reject_recursive_types(T)]
#[verifier::reject_recursive_types(K)]
pub struct ExBinaryHeap<T, K, const N: usize>(BinaryHeap<T, K, N>);

#[verifier::external_type_specification]
#[verifier::external_body]
pub struct ExMin(Min);

/// The deadline entries stored in the backing heap, as a multiset (the heap
/// imposes no order on its storage beyond the top being least).
pub uninterp spec fn heap_entries(h: BinaryHeap<(u32, usize), Min, MAX_DEADLINES>) -> Multiset<(u32, usize)>;

/// Relies on heapless::BinaryHeap::new: constructs an empty heap.
#[verifier::external_body]
fn heap_new() -> (h: BinaryHeap<(u32, usize), Min, MAX_DEADLINES>)
    ensures
        heap_entries(h) == Multiset::<(u32, usize)>::empty(),
{
    BinaryHeap::new()
}

/// Relies on heapless::BinaryHeap::len: the number of stored entries, never
/// more than the capacity.
#[verifier::external_body]
fn heap_len(h: &BinaryHeap<(u32, usize), Min, MAX_DEADLINES>) -> (n: usize)
    ensures
        n == heap_entries(*h).len(),
        n <= MAX_DEADLINES,
{
    h.len()
}

/// Relies on heapless::BinaryHeap::push: stores the entry, handing it back
/// unstored exactly when the heap already holds its capacity.
#[verifier::external_body]
fn heap_push(h: &mut BinaryHeap<(u32, usize), Min, MAX_DEADLINES>, entry: (u32, usize)) -> (r: Result<(), (u32, usize)>)
    ensures
        r == (if heap_entries(*old(h)).len() < MAX_DEADLINES { Ok::<(), (u32, usize)>(()) } else { Err(entry) }),
        heap_entries(*old(h)).len() < MAX_DEADLINES ==> heap_entries(*final(h)) == heap_entries(*old(h)).insert(entry),
        heap_entries(*old(h)).len() >= MAX_DEADLINES ==> *final(h) == *old(h),
{
    h.push(entry)
}

/// Relies on heapless::BinaryHeap::peek on a min-heap whose items are pairs
/// of integers: returns the least stored entry under core's lexicographic
/// pair order, or nothing exactly when the heap is empty.
#[verifier::external_body]
fn heap_peek(h: &BinaryHeap<(u32, usize), Min, MAX_DEADLINES>) -> (r: Option<(u32, usize)>)
    ensures
        r is Some <==> heap_entries(*h).len() > 0,
        r matches Some(e) ==> min_of(heap_entries(*h), e),
{
    h.peek().copied()
}

/// Relies on heapless::BinaryHeap::pop on a min-heap whose items are pairs
/// of integers: removes and returns the least stored entry under core's
/// lexicographic pair order, or returns nothing exactly when the heap is
/// empty.
#[verifier::external_body]
fn heap_pop(h: &mut BinaryHeap<(u32, usize), Min, MAX_DEADLINES>) -> (r: Option<(u32, usize)>)
    ensures
        r is Some <==> heap_entries(*old(h)).len() > 0,
        r is None ==> *final(h) == *old(h),
        r matches Some(e) ==> min_of(heap_entries(*old(h)), e) && heap_entries(*final(h)) == heap_entries(*old(h)).remove(e),
{
    h.pop()
}

// ---------------------------------------------------------------------------
// The ticker: the deadline heap plus the modeled compare-interrupt state.
// ---------------------------------------------------------------------------

/// What the scheduler has asked the hardware timer to interrupt on next: a
/// compare match at an absolute counter value ahead in the current counter
/// cycle, or only the counter-overflow (wrap) event for a nearest deadline
/// that lies beyond the coming wrap, after which the heap is re-examined.
#[derive(Clone, Copy, PartialEq, Eq, Structural, Debug)]
pub enum CompareArm {
    At(u32),
    AtWrap,
}

/// The arming rule for a nearest deadline that has not been reached yet: a
/// deadline numerically ahead of `now` lies in the current counter cycle and
/// is armed as a compare match; otherwise it lies beyond the coming wrap.
pub open spec fn arm_rule(deadline: u32, now: u32) -> CompareArm {
    if deadline > now {
        CompareArm::At(deadline)
    } else {
        CompareArm::AtWrap
    }
}

/// The synthetic entry keeping the timer interrupt alive when no real
/// deadline is pending.
pub open spec fn heartbeat_entry(now: u32) -> (u32, usize) {
    (wrap_add_spec(now, HEARTBEAT_INTERVAL_MS), HEARTBEAT_TASK_ID)
}

/// The task identities a drained sequence of expired entries wakes: every
/// entry's identity except the synthetic heartbeat's, in drain order.
pub open spec fn woken_ids(expired: Seq<(u32, usize)>) -> Seq<usize>
    decreases expired.len(),
{
    if expired.len() == 0 {
        Seq::empty()
    } else if expired.last().1 == HEARTBEAT_TASK_ID {
        woken_ids(expired.drop_last())
    } else {
        woken_ids(expired.drop_last()).push(expired.last().1)
    }
}

/// The deadline scheduler: the bounded min-heap of pending deadline entries,
/// and the interrupt source currently armed for the nearest one.
pub struct Ticker {
    deadlines: BinaryHeap<(u32, usize), Min, MAX_DEADLINES>,
    compare: CompareArm,
}

impl Ticker {
    /// The pending deadline entries.
    pub closed spec fn entries(self) -> Multiset<(u32, usize)> {
        heap_entries(self.deadlines)
    }

    /// The interrupt source currently armed.
    pub closed spec fn armed(self) -> CompareArm {
        self.compare
    }

    /// The heap never exceeds its capacity.
    pub open spec fn wf(self) -> bool {
        self.entries().len() <= MAX_DEADLINES
    }

    /// The interrupt source the hardware is currently asked to raise.
    pub fn get_armed(&self) -> (a: CompareArm)
        ensures
            a == self.armed(),
    {
        self.compare
    }

    /// Starts the scheduler at counter reading `now`: no real deadline is
    /// pending, so the heartbeat entry is inserted and armed.
    pub fn init(now: TickInstant) -> (t: Ticker)
        ensures
            t.wf(),
            t.entries() == Multiset::<(u32, usize)>::empty().insert(heartbeat_entry(now.ticks)),
            t.armed() == arm_rule(heartbeat_entry(now.ticks).0, now.ticks),
    {
        let mut t = Ticker { deadlines: heap_new(), compare: CompareArm::AtWrap };
        let hb_deadline = now.ticks().wrapping_add(HEARTBEAT_INTERVAL_MS);
        let _ = heap_push(&mut t.deadlines, (hb_deadline, HEARTBEAT_TASK_ID));
        proof {
            lemma_fresh_deadline_unreached(now.ticks, HEARTBEAT_INTERVAL_MS);
        }
        t.set_compare_for_deadline(now, hb_deadline);
        t
    }

    /// Arms the hardware for a nearest deadline that has not been reached
    /// yet: a compare match if it lies ahead in the current counter cycle,
    /// the overflow event if it lies beyond the coming wrap.
    fn set_compare_for_deadline(&mut self, now: TickInstant, deadline: u32)
        requires
            !reached_spec(now.ticks, deadline),
        ensures
            final(self).entries() == old(self).entries(),
            final(self).armed() == arm_rule(deadline, now.ticks),
    {
        if deadline > now.ticks() {
            self.compare = CompareArm::At(deadline);
        } else {
            self.compare = CompareArm::AtWrap;
        }
    }

    /// Pops every entry whose deadline the counter reading `now` has reached
    /// and wakes each popped real task, in heap (nondecreasing-deadline)
    /// order; the heartbeat identity is recognized and not delivered. The
    /// popped entries are returned in pop order.
    pub fn wake_tasks_with_deadline(&mut self, now: TickInstant, ready: &mut ReadyQueue) -> (r:
        Result<Vec<(u32, usize)>, Fatal>)
        requires
            old(self).wf(),
        ensures
            final(self).wf(),
            final(self).armed() == old(self).armed(),
            r matches Ok(expired) ==> {
                &&& final(self).entries().add(expired@.to_multiset()) == old(self).entries()
                &&& forall|i: int|
                    0 <= i < expired@.len() ==> reached_spec(now.ticks, (#[trigger] expired@[i]).0)
                &&& forall|i: int, j: int|
                    0 <= i <= j < expired@.len() ==> entry_le(
                        #[trigger] expired@[i],
                        #[trigger] expired@[j],
                    )
                &&& forall|x: (u32, usize)|
                    #[trigger] final(self).entries().contains(x) ==> !entry_lt_some(expired@, x)
                &&& final(self).entries().len() > 0 ==> exists|e: (u32, usize)|
                    min_of(final(self).entries(), e) && !reached_spec(now.ticks, e.0)
                &&& final(ready).ids() == old(ready).ids() + woken_ids(expired@)
            },
            r matches Err(f) ==> f is ReadyQueueFull,
            old(ready).ids().is_prefix_of(final(ready).ids()),
            final(self).entries().len() <= old(self).entries().len(),
            final(ready).ids().len() + final(self).entries().len() <= old(ready).ids().len() + old(self).entries().len(),
            old(ready).ids().len() + old(self).entries().len() <= READY_CAPACITY ==> r is Ok,
    {
        let mut expired: Vec<(u32, usize)> = Vec::new();
        loop
            invariant
                self.wf(),
                self.armed() == old(self).armed(),
                self.entries().add(expired@.to_multiset()) == old(self).entries(),
                forall|i: int|
                    0 <= i < expired@.len() ==> reached_spec(now.ticks, (#[trigger] expired@[i]).0),
                forall|i: int, j: int|
                    0 <= i <= j < expired@.len() ==> entry_le(
                        #[trigger] expired@[i],
                        #[trigger] expired@[j],
                    ),
                forall|x: (u32, usize)|
                    #[trigger] self.entries().contains(x) ==> !entry_lt_some(expired@, x),
                ready.ids() == old(ready).ids() + woken_ids(expired@),
                self.entries().len() <= old(self).entries().len(),
                ready.ids().len() + self.entries().len() <= old(ready).ids().len() + old(self).entries().len(),
            ensures
                self.entries().len() > 0 ==> exists|e: (u32, usize)|
                    min_of(self.entries(), e) && !reached_spec(now.ticks, e.0),
            decreases self.entries().len(),
        {
            let top = match heap_peek(&self.deadlines) {
                None => break,
                Some(e) => e,
            };
            if !now.at_or_after(TickInstant::from_ticks(top.0)) {
                break;
            }
            let ghost pre_entries = self.entries();
            let popped = match heap_pop(&mut self.deadlines) {
                Some(p) => p,
                None => {
                    proof {
                        assert(false);
                    }
                    top
                },
            };
            proof {
                lemma_min_of_unique(pre_entries, popped, top);
            }
            if popped.1 != HEARTBEAT_TASK_ID {
                match wake_task(ready, popped.1) {
                    Ok(u) => u,
                    Err(f) => {
                        proof {
                            lemma_append_is_prefix(old(ready).ids(), woken_ids(expired@));
                        }
                        return Err(f);
                    },
                }
            }
            let ghost pre_expired = expired@;
            expired.push(popped);
            proof {
                let s = expired@;
                assert(s.drop_last() =~= pre_expired);
                assert(self.entries().add(s.to_multiset()) =~= old(self).entries());
                assert(ready.ids() =~= old(ready).ids() + woken_ids(s));
                assert forall|x: (u32, usize)|
                    #[trigger] self.entries().contains(x) implies !entry_lt_some(s, x) by {
                    assert(pre_entries.contains(x));
                    assert(!entry_lt_some(pre_expired, x));
                    assert(entry_le(popped, x));
                    assert forall|i: int| 0 <= i < s.len() implies entry_le(#[trigger] s[i], x) by {
                        if i < s.len() - 1 {
                            assert(s[i] == pre_expired[i]);
                        } else {
                            assert(s[i] == popped);
                        }
                    }
                }
            }
        }
        proof {
            lemma_append_is_prefix(old(ready).ids(), woken_ids(expired@));
        }
        Ok(expired)
    }

    /// One full service pass, run after a deadline is recorded and by the
    /// timer interrupt handler: drains and wakes every reached deadline,
    /// re-inserts the heartbeat if the heap would be left empty, and arms the
    /// hardware for the nearest remaining deadline (which is never already
    /// reached).
    pub fn update_compare_for_earliest_deadline(&mut self, now: TickInstant, ready: &mut ReadyQueue) -> (r:
        Result<Vec<(u32, usize)>, Fatal>)
        requires
            old(self).wf(),
        ensures
            final(self).wf(),
            r matches Ok(expired) ==> {
                &&& forall|i: int|
                    0 <= i < expired@.len() ==> reached_spec(now.ticks, (#[trigger] expired@[i]).0)
                &&& forall|i: int, j: int|
                    0 <= i <= j < expired@.len() ==> entry_le(
                        #[trigger] expired@[i],
                        #[trigger] expired@[j],
                    )
                &&& expired@.len() <= old(self).entries().len()
                &&& expired@.len() < old(self).entries().len()
                    ==> final(self).entries().add(expired@.to_multiset()) == old(self).entries()
                &&& expired@.len() == old(self).entries().len()
                    ==> expired@.to_multiset() == old(self).entries()
                        && final(self).entries()
                            == Multiset::<(u32, usize)>::empty().insert(heartbeat_entry(now.ticks))
                &&& final(ready).ids() == old(ready).ids() + woken_ids(expired@)
                &&& final(self).entries().len() >= 1
                &&& exists|top: (u32, usize)|
                    min_of(final(self).entries(), top) && !reached_spec(now.ticks, top.0)
                        && final(self).armed() == arm_rule(top.0, now.ticks)
            },
            r matches Err(f) ==> f is ReadyQueueFull,
            old(ready).ids().is_prefix_of(final(ready).ids()),
            final(self).entries().len() <= old(self).entries().len() + 1,
            final(ready).ids().len() + final(self).entries().len() <= old(ready).ids().len() + old(self).entries().len() + 1,
            old(ready).ids().len() + old(self).entries().len() <= READY_CAPACITY ==> r is Ok,
    {
        let expired = match self.wake_tasks_with_deadline(now, ready) {
            Ok(v) => v,
            Err(f) => {
                return Err(f);
            },
        };
        let ghost mid = self.entries();
        if heap_len(&self.deadlines) == 0 {
            let hb_deadline = now.ticks().wrapping_add(HEARTBEAT_INTERVAL_MS);
            let _ = heap_push(&mut self.deadlines, (hb_deadline, HEARTBEAT_TASK_ID));
            proof {
                assert(self.entries() =~= Multiset::<(u32, usize)>::empty().insert(
                    heartbeat_entry(now.ticks),
                ));
                assert(mid.add(expired@.to_multiset()) =~= expired@.to_multiset());
            }
        }
        let top = match heap_peek(&self.deadlines) {
            Some(e) => e,
            None => {
                proof {
                    assert(false);
                }
                (0, 0)
            },
        };
        proof {
            if mid.len() == 0 {
                assert(self.entries().count(top) > 0);
                assert(top == heartbeat_entry(now.ticks));
                lemma_fresh_deadline_unreached(now.ticks, HEARTBEAT_INTERVAL_MS);
            } else {
                let e = choose|e: (u32, usize)|
                    min_of(self.entries(), e) && !reached_spec(now.ticks, e.0);
                lemma_min_of_unique(self.entries(), top, e);
            }
        }
        self.set_compare_for_deadline(now, top.0);
        proof {
            assert(min_of(self.entries(), top) && !reached_spec(now.ticks, top.0) && self.armed()
                == arm_rule(top.0, now.ticks));
        }
        Ok(expired)
    }
}

// ---------------------------------------------------------------------------
// Laws of the deadline scheduler.
// ---------------------------------------------------------------------------

/// Law: a wake is never early. If a deadline registered at counter reading
/// `reg_now` for `duration` ticks ahead (less than half the counter range)
/// has been reached at counter reading `wake_now`, then at least `duration`
/// ticks lie between the two readings.
pub proof fn lemma_wake_not_early(reg_now: u32, duration: u32, wake_now: u32)
    requires
        duration < tick_horizon(),
        reached_spec(wake_now, wrap_add_spec(reg_now, duration)),
    ensures
        wrap_sub_spec(wake_now, reg_now) >= duration,
{
}

/// Law: within one drain the wakes come in nondecreasing deadline order:
/// the drained sequence, ordered entrywise, is nondecreasing in its deadline
/// component.
pub proof fn lemma_drain_order(expired: Seq<(u32, usize)>, i: int, j: int)
    requires
        forall|a: int, b: int|
            0 <= a <= b < expired.len() ==> entry_le(#[trigger] expired[a], #[trigger] expired[b]),
        0 <= i <= j < expired.len(),
    ensures
        expired[i].0 <= expired[j].0,
{
}

/// Law: the drain is complete wherever raw and wrapping comparison agree.
/// When no pending deadline straddles the coming counter wrap relative to
/// `now` — numeric and wrapping comparison against `now` coincide on every
/// entry — a heap whose least entry is unreached holds no reached entry at
/// all: the drain that stopped there woke every reached deadline.
pub proof fn lemma_drain_complete(remaining: Multiset<(u32, usize)>, now: u32)
    requires
        forall|x: (u32, usize)|
            #[trigger] remaining.contains(x) ==> (reached_spec(now, x.0) <==> x.0 <= now),
        remaining.len() > 0 ==> exists|e: (u32, usize)|
            min_of(remaining, e) && !reached_spec(now, e.0),
    ensures
        forall|x: (u32, usize)| #[trigger] remaining.contains(x) ==> !reached_spec(now, x.0),
{
    assert forall|x: (u32, usize)| #[trigger] remaining.contains(x) implies !reached_spec(
        now,
        x.0,
    ) by {
        assert(remaining.len() > 0);
        let e = choose|e: (u32, usize)| min_of(remaining, e) && !reached_spec(now, e.0);
        assert(entry_le(e, x));
    }
}

// ---------------------------------------------------------------------------
// The deadline wait.
// ---------------------------------------------------------------------------

enum TimerState {
    Init,
    Wait,
}

/// A one-shot wait that resolves once the counter reaches an absolute
/// deadline. The first poll records the deadline with the scheduler and stays
/// pending; every later poll compares the current counter reading against the
/// deadline directly, so the wait resolves as soon as it is polled after the
/// deadline, with or without the compare interrupt having fired.
pub struct TickTimer {
    end_time: TickInstant,
    state: TimerState,
}

impl TickTimer {
    /// The absolute tick this wait resolves at.
    pub closed spec fn end(self) -> u32 {
        self.end_time.ticks
    }

    /// Whether the first poll has already registered the deadline.
    pub closed spec fn started(self) -> bool {
        self.state is Wait
    }

    /// A wait ending `duration` after the counter reading `now`.
    pub fn new(now: TickInstant, duration: TickDuration) -> (t: TickTimer)
        ensures
            t.end() == wrap_add_spec(now.ticks, duration.ticks),
            !t.started(),
    {
        TickTimer { end_time: now.plus(duration), state: TimerState::Init }
    }

    /// Records this wait's deadline with the scheduler and re-arms the
    /// hardware for the nearest pending deadline. Recording fails exactly
    /// when the heap is already at capacity; that is the fatal
    /// deadline-overflow condition.
    fn register(&self, ticker: &mut Ticker, now: TickInstant, task_id: usize, ready: &mut ReadyQueue) -> (r:
        Result<(), Fatal>)
        requires
            old(ticker).wf(),
        ensures
            final(ticker).wf(),
            old(ticker).entries().len() >= MAX_DEADLINES
                ==> r == Err::<(), Fatal>(Fatal::DeadlineHeapFull(task_id))
                    && *final(ticker) == *old(ticker) && *final(ready) == *old(ready),
            old(ticker).entries().len() < MAX_DEADLINES ==> {
                &&& r matches Err(f) ==> f is ReadyQueueFull
                &&& r is Ok ==> {
                    &&& final(ticker).entries().len() >= 1
                    &&& !reached_spec(now.ticks, self.end()) ==> final(ticker).entries().contains(
                        (self.end(), task_id),
                    )
                    &&& exists|top: (u32, usize)|
                        min_of(final(ticker).entries(), top) && !reached_spec(now.ticks, top.0)
                            && final(ticker).armed() == arm_rule(top.0, now.ticks)
                }
                &&& old(ready).ids().is_prefix_of(final(ready).ids())
            },
            final(ticker).entries().len() <= old(ticker).entries().len() + 2,
            final(ready).ids().len() + final(ticker).entries().len() <= old(ready).ids().len() + old(ticker).entries().len() + 2,
            old(ticker).entries().len() < MAX_DEADLINES && old(ready).ids().len() + old(ticker).entries().len() + 1 <= READY_CAPACITY ==> r is Ok,
    {
        let entry = (self.end_time.ticks(), task_id);
        match heap_push(&mut ticker.deadlines, entry) {
            Err(_) => {
                return Err(Fatal::DeadlineHeapFull(task_id));
            },
            Ok(u) => u,
        }
        let ghost pushed = ticker.entries();
        let result = ticker.update_compare_for_earliest_deadline(now, ready);
        match result {
            Err(f) => Err(f),
            Ok(expired) => {
                proof {
                    let cur = ticker.entries();
                    assert(pushed.count(entry) > 0) by {
                        assert(pushed == old(ticker).entries().insert(entry));
                        assert(old(ticker).entries().add(Multiset::singleton(entry)).count(entry)
                            == old(ticker).entries().count(entry) + Multiset::singleton(
                            entry,
                        ).count(entry));
                    }
                    if !reached_spec(now.ticks, self.end()) {
                        if expired@.to_multiset().count(entry) > 0 {
                            assert(expired@.contains(entry));
                            let i = choose|i: int|
                                0 <= i < expired@.len() && expired@[i] == entry;
                            assert(reached_spec(now.ticks, expired@[i].0));
                            assert(false);
                        }
                        if expired@.len() == pushed.len() {
                            assert(expired@.to_multiset() == pushed);
                            assert(false);
                        } else {
                            assert(cur.add(expired@.to_multiset()).count(entry) == cur.count(entry)
                                + expired@.to_multiset().count(entry));
                            assert(cur.count(entry) > 0);
                        }
                    }
                }
                Ok(())
            },
        }
    }

    /// One poll of the deadline wait. The first poll registers the deadline
    /// and stays pending. Every later poll resolves exactly when the counter
    /// reading has reached the deadline: the time comparison is
    /// authoritative, independent of interrupt delivery.
    pub fn poll(&mut self, ticker: &mut Ticker, now: TickInstant, task_id: usize, ready: &mut ReadyQueue) -> (r:
        Result<Poll<()>, Fatal>)
        requires
            old(ticker).wf(),
        ensures
            final(ticker).wf(),
            final(self).end() == old(self).end(),
            final(self).started(),
            final(ticker).entries().len() <= old(ticker).entries().len() + 2,
            final(ready).ids().len() + final(ticker).entries().len() <= old(ready).ids().len() + old(ticker).entries().len() + 2,
            old(self).started() ==> *final(self) == *old(self) && *final(ticker) == *old(ticker)
                && *final(ready) == *old(ready)
                && r == Ok::<Poll<()>, Fatal>(
                if reached_spec(now.ticks, old(self).end()) {
                    Poll::Ready(())
                } else {
                    Poll::Pending
                },
            ),
            !old(self).started() ==> {
                &&& r matches Ok(p) ==> p == Poll::<()>::Pending
                &&& (old(ticker).entries().len() >= MAX_DEADLINES <==> r == Err::<Poll<()>, Fatal>(
                    Fatal::DeadlineHeapFull(task_id),
                ))
                &&& r matches Err(f) ==> f == Fatal::DeadlineHeapFull(task_id) || f
                    is ReadyQueueFull
                &&& old(ticker).entries().len() >= MAX_DEADLINES ==> *final(ticker) == *old(ticker)
                    && *final(ready) == *old(ready)
                &&& r is Ok ==> {
                    &&& final(ticker).entries().len() >= 1
                    &&& !reached_spec(now.ticks, old(self).end()) ==> final(ticker).entries().contains((old(self).end(), task_id))
                    &&& exists|top: (u32, usize)|
                        min_of(final(ticker).entries(), top) && !reached_spec(now.ticks, top.0)
                            && final(ticker).armed() == arm_rule(top.0, now.ticks)
                }
                &&& old(ticker).entries().len() < MAX_DEADLINES ==> old(ready).ids().is_prefix_of(
                    final(ready).ids(),
                )
                &&& old(ticker).entries().len() < MAX_DEADLINES && old(ready).ids().len() + old(ticker).entries().len() + 1 <= READY_CAPACITY ==> r is Ok
            },
    {
        match self.state {
            TimerState::Init => {
                match self.register(ticker, now, task_id, ready) {
                    Ok(u) => u,
                    Err(f) => {
                        self.state = TimerState::Wait;
                        return Err(f);
                    },
                }
                self.state = TimerState::Wait;
                Ok(Poll::Pending)
            },
            TimerState::Wait => {
                if now.at_or_after(self.end_time) {
                    Ok(Poll::Ready(()))
                } else {
                    Ok(Poll::Pending)
                }
            },
        }
    }
}

/// Appending to a sequence preserves it as a prefix.
proof fn lemma_append_is_prefix(a: Seq<usize>, b: Seq<usize>)
    ensures
        a.is_prefix_of(a + b),
{
    assert((a + b).subrange(0, a.len() as int) =~= a);
}

/// Whether some element of `s` is strictly above `x` in the entry order:
/// used negated to say that everything drained lies at or below everything
/// remaining.
pub open spec fn entry_lt_some(s: Seq<(u32, usize)>, x: (u32, usize)) -> bool {
    exists|i: int| 0 <= i < s.len() && !entry_le(#[trigger] s[i], x)
}

} // verus!
