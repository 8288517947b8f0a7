use vstd::prelude::*;

verus! {

use heapless::Deque;
use crate::button::{ButtonEvent, ButtonTask};
use crate::button_interrupt::PinLevel;
use crate::channel::Channel;
use crate::led::LedTask;
use crate::ticker::{
    arm_rule, entry_le, heartbeat_entry, min_of, reached_spec, woken_ids, CompareArm, TickInstant,
    Ticker, MAX_DEADLINES,
};
use vstd::multiset::Multiset;

// ---------------------------------------------------------------------------
// Waking and the ready queue.
//
// A waker is an explicit tagged value carrying the identity of the task it
// wakes; waking a task appends its identity to a bounded FIFO shared (in the
// real system) between interrupt handlers and the executor loop. A full ready
// queue is a fatal condition: a silently dropped wake is a permanently
// stalled task.
// ---------------------------------------------------------------------------

/// How many tasks the executor drives: the LED blinker and the button
/// watcher.
pub const NUM_TASKS: usize = 2;

/// Task identity of the LED task (first in the task array).
pub const LED_TASK_ID: usize = 0;

/// Task identity of the button task.
pub const BUTTON_TASK_ID: usize = 1;

/// Capacity of the ready queue of task identities.
pub const READY_CAPACITY: usize = 4;

/// The unrecoverable conditions: the design refuses to drop a wake or a
/// deadline silently, and halts instead. Each variant carries the task
/// identity whose wake or deadline could not be recorded.
#[derive(Clone, Copy, PartialEq, Eq, Structural, Debug)]
pub enum Fatal {
    /// A task identity could not be enqueued because the ready queue already
    /// held `READY_CAPACITY` entries.
    ReadyQueueFull(usize),
    /// A deadline could not be recorded because the deadline heap already
    /// held `MAX_DEADLINES` entries.
    DeadlineHeapFull(usize),
}

/// An opaque-looking wake handle whose sole payload is a task identity.
#[derive(Clone, Copy, PartialEq, Eq, Structural, Debug)]
pub struct Waker {
    pub task_id: usize,
}

/// Recovering the task identity a waker was made for.
pub trait ExtWaker {
    spec fn spec_task_id(&self) -> usize;

    fn task_id(&self) -> (id: usize)
        ensures
            id == self.spec_task_id(),
    ;
}

impl ExtWaker for Waker {
    open spec fn spec_task_id(&self) -> usize {
        self.task_id
    }

    fn task_id(&self) -> (id: usize) {
        self.task_id
    }
}

pub fn get_waker(task_id: usize) -> (w: Waker)
    ensures
        w.task_id == task_id,
{
    Waker { task_id }
}

// ---------------------------------------------------------------------------
// Trusted view of the heapless deque backing the ready queue.
// ---------------------------------------------------------------------------

#[verifier::external_type_specification]
#[verifier::external_body]
#[verifier::reject_recursive_types(T)]
pub struct ExDeque<T, const N: usize>(Deque<T, N>);

/// The identities stored in the backing deque, front first.
pub uninterp spec fn deque_ids(q: Deque<usize, READY_CAPACITY>) -> Seq<usize>;

/// Relies on heapless::Deque::new: constructs an empty deque.
#[verifier::external_body]
fn deque_new() -> (q: Deque<usize, READY_CAPACITY>)
    ensures
        deque_ids(q) == Seq::<usize>::empty(),
{
    Deque::new()
}

/// Relies on heapless::Deque::len: the number of stored elements, which never
/// exceeds the capacity.
#[verifier::external_body]
fn deque_len(q: &Deque<usize, READY_CAPACITY>) -> (n: usize)
    ensures
        n == deque_ids(*q).len(),
        n <= READY_CAPACITY,
{
    q.len()
}

/// Relies on heapless::Deque::push_back: appends at the back, handing the
/// element back instead exactly when the deque already holds its capacity.
#[verifier::external_body]
fn deque_push_back(q: &mut Deque<usize, READY_CAPACITY>, id: usize) -> (r: Result<(), usize>)
    ensures
        r == (if deque_ids(*old(q)).len() < READY_CAPACITY { Ok::<(), usize>(()) } else { Err(id) }),
        deque_ids(*old(q)).len() < READY_CAPACITY ==> deque_ids(*final(q)) == deque_ids(*old(q)).push(id),
        deque_ids(*old(q)).len() >= READY_CAPACITY ==> *final(q) == *old(q),
{
    q.push_back(id)
}

/// Relies on heapless::Deque::pop_front: removes and returns the front
/// element, or returns nothing when the deque is empty.
#[verifier::external_body]
fn deque_pop_front(q: &mut Deque<usize, READY_CAPACITY>) -> (r: Option<usize>)
    ensures
        deque_ids(*old(q)).len() == 0 ==> r == Option::<usize>::None && *final(q) == *old(q),
        deque_ids(*old(q)).len() > 0 ==> r == Some(deque_ids(*old(q))[0]) && deque_ids(*final(q)) == deque_ids(*old(q)).drop_first(),
{
    q.pop_front()
}

// ---------------------------------------------------------------------------
// The ready queue of task identities.
// ---------------------------------------------------------------------------

/// A bounded FIFO of task identities waiting to be polled.
pub struct ReadyQueue {
    queue: Deque<usize, READY_CAPACITY>,
}

impl ReadyQueue {
    /// The queued task identities, front (next to be polled) first.
    pub closed spec fn ids(self) -> Seq<usize> {
        deque_ids(self.queue)
    }

    pub fn new() -> (q: ReadyQueue)
        ensures
            q.ids() == Seq::<usize>::empty(),
    {
        ReadyQueue { queue: deque_new() }
    }

    pub fn len(&self) -> (n: usize)
        ensures
            n == self.ids().len(),
            n <= READY_CAPACITY,
    {
        deque_len(&self.queue)
    }

    /// Removes the task identity that has been waiting longest.
    pub fn dequeue(&mut self) -> (r: Option<usize>)
        ensures
            old(self).ids().len() == 0 ==> r == Option::<usize>::None && *final(self) == *old(self),
            old(self).ids().len() > 0
                ==> r == Some(old(self).ids()[0])
                    && final(self).ids() == old(self).ids().drop_first(),
    {
        deque_pop_front(&mut self.queue)
    }
}

/// Records a wake request for `task_id`: appends it to the ready queue, or
/// reports the fatal overflow condition if the queue is already full.
pub fn wake_task(ready: &mut ReadyQueue, task_id: usize) -> (r: Result<(), Fatal>)
    ensures
        old(ready).ids().len() < READY_CAPACITY
            ==> r == Ok::<(), Fatal>(()) && final(ready).ids() == old(ready).ids().push(task_id),
        old(ready).ids().len() >= READY_CAPACITY
            ==> r == Err::<(), Fatal>(Fatal::ReadyQueueFull(task_id))
                && *final(ready) == *old(ready),
{
    match deque_push_back(&mut ready.queue, task_id) {
        Ok(()) => Ok(()),
        Err(id) => Err(Fatal::ReadyQueueFull(id)),
    }
}

// ---------------------------------------------------------------------------
// The assembled runtime.
// ---------------------------------------------------------------------------

/// The complete runtime: the fixed task set (the LED task first, the button
/// task second), the mailbox they share, the deadline scheduler, and the
/// ready queue. The driver outside the library alternates draining the ready
/// queue with delivering the two interrupts (timer compare or overflow, and
/// pin edge) as the hardware raises them.
pub struct System {
    ticker: Ticker,
    channel: Channel<ButtonEvent>,
    button: ButtonTask,
    led: LedTask,
    ready: ReadyQueue,
}

impl System {
    pub closed spec fn ticker(self) -> Ticker {
        self.ticker
    }

    pub closed spec fn channel(self) -> Channel<ButtonEvent> {
        self.channel
    }

    pub closed spec fn button(self) -> ButtonTask {
        self.button
    }

    pub closed spec fn led(self) -> LedTask {
        self.led
    }

    pub closed spec fn ready(self) -> ReadyQueue {
        self.ready
    }

    pub open spec fn wf(self) -> bool {
        self.ticker().wf() && self.button().wf() && self.led().wf()
    }

    /// Assembles the runtime at counter reading `now` and seeds the ready
    /// queue with every task identity once, so each task performs its first
    /// registration when the queue is first drained.
    pub fn new(now: TickInstant) -> (s: System)
        ensures
            s.wf(),
            s.ready().ids() == seq![LED_TASK_ID, BUTTON_TASK_ID],
            !s.led().on(),
            s.led().period_ms() == crate::led::DEFAULT_PERIOD_MS,
            !s.led().receiver_waiting(),
            s.button().in_wait_for_press(),
            s.channel().stored() == Option::<ButtonEvent>::None,
            s.channel().registered() == Option::<usize>::None,
            s.ticker().entries() == Multiset::<(u32, usize)>::empty().insert(
                heartbeat_entry(now.ticks),
            ),
    {
        let channel: Channel<ButtonEvent> = Channel::new();
        let sender = channel.get_sender();
        let receiver = channel.get_receiver();
        let mut ready = ReadyQueue::new();
        match wake_task(&mut ready, LED_TASK_ID) {
            Ok(u) => u,
            Err(f) => {
                proof {
                    assert(false);
                }
            },
        }
        match wake_task(&mut ready, BUTTON_TASK_ID) {
            Ok(u) => u,
            Err(f) => {
                proof {
                    assert(false);
                }
            },
        }
        proof {
            assert(ready.ids() =~= seq![LED_TASK_ID, BUTTON_TASK_ID]);
        }
        System {
            ticker: Ticker::init(now),
            channel,
            button: ButtonTask::new(sender),
            led: LedTask::new(receiver),
            ready,
        }
    }

    pub fn led_is_on(&self) -> (b: bool)
        ensures
            b == self.led().on(),
    {
        self.led.is_on()
    }

    pub fn led_period_millis(&self) -> (p: u32)
        ensures
            p == self.led().period_ms(),
    {
        self.led.get_period().to_millis()
    }

    pub fn ready_len(&self) -> (n: usize)
        ensures
            n == self.ready().ids().len(),
    {
        self.ready.len()
    }

    pub fn armed_compare(&self) -> (a: CompareArm)
        ensures
            a == self.ticker().armed(),
    {
        self.ticker.get_armed()
    }

    /// Records a wake request for `task_id`, as a waker fired from interrupt
    /// context would.
    pub fn wake(&mut self, task_id: usize) -> (r: Result<(), Fatal>)
        ensures
            final(self).ticker() == old(self).ticker(),
            final(self).channel() == old(self).channel(),
            final(self).button() == old(self).button(),
            final(self).led() == old(self).led(),
            old(self).ready().ids().len() < READY_CAPACITY
                ==> r is Ok
                    && final(self).ready().ids() == old(self).ready().ids().push(task_id),
            old(self).ready().ids().len() >= READY_CAPACITY
                ==> r == Err::<(), Fatal>(Fatal::ReadyQueueFull(task_id))
                    && final(self).ready() == old(self).ready(),
    {
        wake_task(&mut self.ready, task_id)
    }

    /// The work of the timer interrupt (compare match or counter overflow),
    /// once the hardware flag is cleared: pops every deadline entry the
    /// counter reading has reached, wakes each popped real task in
    /// nondecreasing-deadline order, re-inserts the heartbeat if the heap
    /// would be left empty, and re-arms the hardware for the nearest
    /// remaining (never already reached) deadline. Returns the popped
    /// entries.
    pub fn handle_timer_interrupt(&mut self, now: TickInstant) -> (r: Result<
        Vec<(u32, usize)>,
        Fatal,
    >)
        requires
            old(self).wf(),
        ensures
            final(self).wf(),
            final(self).channel() == old(self).channel(),
            final(self).button() == old(self).button(),
            final(self).led() == old(self).led(),
            old(self).ready().ids().is_prefix_of(final(self).ready().ids()),
            r matches Ok(expired) ==> {
                &&& forall|i: int|
                    0 <= i < expired@.len() ==> reached_spec(now.ticks, (#[trigger] expired@[i]).0)
                &&& forall|i: int, j: int|
                    0 <= i <= j < expired@.len() ==> entry_le(
                        #[trigger] expired@[i],
                        #[trigger] expired@[j],
                    )
                &&& expired@.len() <= old(self).ticker().entries().len()
                &&& expired@.len() < old(self).ticker().entries().len()
                    ==> final(self).ticker().entries().add(expired@.to_multiset()) == old(self).ticker().entries()
                &&& expired@.len() == old(self).ticker().entries().len()
                    ==> expired@.to_multiset() == old(self).ticker().entries()
                        && final(self).ticker().entries()
                            == Multiset::<(u32, usize)>::empty().insert(heartbeat_entry(now.ticks))
                &&& final(self).ready().ids() == old(self).ready().ids() + woken_ids(expired@)
                &&& final(self).ticker().entries().len() >= 1
                &&& exists|top: (u32, usize)|
                    min_of(final(self).ticker().entries(), top) && !reached_spec(now.ticks, top.0)
                        && final(self).ticker().armed() == arm_rule(top.0, now.ticks)
            },
            r matches Err(f) ==> f is ReadyQueueFull,
            old(self).ready().ids().len() + old(self).ticker().entries().len() <= READY_CAPACITY
                ==> r is Ok,
    {
        self.ticker.update_compare_for_earliest_deadline(now, &mut self.ready)
    }

    /// The work of the pin edge interrupt, once the hardware flag is cleared:
    /// takes the line's wake slot and wakes the task recorded there, if any.
    pub fn handle_pin_interrupt(&mut self) -> (r: Result<(), Fatal>)
        requires
            old(self).wf(),
        ensures
            final(self).wf(),
            final(self).button().input_waiter() == Option::<usize>::None,
            old(self).ready().ids().is_prefix_of(final(self).ready().ids()),
            match old(self).button().input_waiter() {
                Some(id) => {
                    &&& old(self).ready().ids().len() < READY_CAPACITY
                        ==> r is Ok && final(self).ready().ids() == old(self).ready().ids().push(id)
                    &&& old(self).ready().ids().len() >= READY_CAPACITY
                        ==> r == Err::<(), Fatal>(Fatal::ReadyQueueFull(id))
                            && final(self).ready() == old(self).ready()
                },
                None => r is Ok && final(self).ready() == old(self).ready(),
            },
    {
        let r = self.button.handle_edge_interrupt(&mut self.ready);
        proof {
            if r is Ok {
                match old(self).button().input_waiter() {
                    Some(id) => {
                        assert(self.ready.ids().subrange(
                            0,
                            old(self).ready().ids().len() as int,
                        ) =~= old(self).ready().ids());
                    },
                    None => {},
                }
            }
        }
        r
    }

    /// Polls the task named by `task_id` once, with the given counter and pin
    /// samples. A malformed identity is skipped and must never bring the
    /// system down: only the capacity-exhaustion conditions are fatal.
    fn poll_task(&mut self, task_id: usize, now: TickInstant, pin: PinLevel) -> (r: Result<
        (),
        Fatal,
    >)
        requires
            old(self).wf(),
        ensures
            final(self).wf(),
            task_id >= NUM_TASKS ==> *final(self) == *old(self) && r is Ok,
            final(self).ready() == old(self).ready() || old(self).ready().ids().is_prefix_of(
                final(self).ready().ids(),
            ),
            final(self).ready().ids().len() >= old(self).ready().ids().len(),
            final(self).ticker().entries().len() <= old(self).ticker().entries().len() + 2,
            final(self).ready().ids().len() + final(self).ticker().entries().len() <= old(self).ready().ids().len() + old(self).ticker().entries().len() + 3,
            old(self).ticker().entries().len() < MAX_DEADLINES && old(self).ready().ids().len() + old(self).ticker().entries().len() + 2 <= READY_CAPACITY ==> r is Ok,
    {
        if task_id == LED_TASK_ID {
            match self.led.poll(&mut self.channel, &mut self.ticker, &mut self.ready, now, task_id)
            {
                Ok(p) => Ok(()),
                Err(f) => Err(f),
            }
        } else if task_id == BUTTON_TASK_ID {
            proof {
                crate::button::lemma_button_state_one_hot(self.button);
            }
            match self.button.poll(
                &mut self.channel,
                &mut self.ticker,
                &mut self.ready,
                now,
                pin,
                task_id,
            ) {
                Ok(p) => Ok(()),
                Err(f) => Err(f),
            }
        } else {
            Ok(())
        }
    }

    /// Drains the ready queue: repeatedly dequeues the task identity that has
    /// waited longest and polls that task, until the queue is empty or
    /// `max_polls` identities have been processed. The budget bounds the work
    /// of one drain; a drain cut short by it is resumed by calling again.
    /// Returns how many identities were processed: every identity that was
    /// queued on entry is either processed or still queued, a nonempty queue
    /// makes progress, failure arises only from a nonempty queue, and a drain
    /// whose budget fits the capacity head-room cannot fail.
    pub fn run_tasks(&mut self, now: TickInstant, pin: PinLevel, max_polls: usize) -> (r: Result<
        usize,
        Fatal,
    >)
        requires
            old(self).wf(),
        ensures
            final(self).wf(),
            r matches Ok(n) ==> n <= max_polls,
            r matches Ok(n) && n < max_polls ==> final(self).ready().ids().len() == 0,
            r matches Ok(n) ==> n + final(self).ready().ids().len() >= old(self).ready().ids().len(),
            r matches Ok(n) ==> (old(self).ready().ids().len() > 0 && max_polls > 0 ==> n >= 1),
            r is Err ==> old(self).ready().ids().len() > 0,
            old(self).ready().ids().len() == 0 ==> r == Ok::<usize, Fatal>(0) && *final(self)
                == *old(self),
            max_polls == 0 ==> r == Ok::<usize, Fatal>(0) && *final(self) == *old(self),
            old(self).ready().ids().len() + old(self).ticker().entries().len() + 2 * max_polls <= READY_CAPACITY && old(self).ticker().entries().len() + 2 * max_polls <= MAX_DEADLINES ==> r is Ok,
    {
        let mut polled: usize = 0;
        loop
            invariant
                self.wf(),
                polled <= max_polls,
                polled == 0 ==> *self == *old(self),
                old(self).ready().ids().len() == 0 ==> polled == 0,
                polled + self.ready().ids().len() >= old(self).ready().ids().len(),
                self.ticker().entries().len() <= old(self).ticker().entries().len() + 2 * polled,
                self.ready().ids().len() + self.ticker().entries().len() <= old(self).ready().ids().len() + old(self).ticker().entries().len() + 2 * polled,
            ensures
                self.wf(),
                polled <= max_polls,
                polled < max_polls ==> self.ready().ids().len() == 0,
                polled == 0 ==> *self == *old(self),
                old(self).ready().ids().len() == 0 ==> polled == 0,
                polled + self.ready().ids().len() >= old(self).ready().ids().len(),
            decreases max_polls - polled,
        {
            if polled == max_polls {
                break;
            }
            let task_id = match self.ready.dequeue() {
                None => break,
                Some(id) => id,
            };
            match self.poll_task(task_id, now, pin) {
                Ok(u) => u,
                Err(f) => {
                    return Err(f);
                },
            }
            polled = polled + 1;
        }
        Ok(polled)
    }
}

} // verus!
