use vstd::prelude::*;

verus! {

use crate::button::ButtonEvent;
use crate::channel::{Channel, Receiver};
use crate::executor::{Fatal, ReadyQueue, READY_CAPACITY};
use crate::future::Poll;
use crate::ticker::{
    reached_spec, wrap_add_spec, TickDuration, TickInstant, TickTimer, Ticker, MAX_DEADLINES,
};

// ---------------------------------------------------------------------------
// The LED task: blinks an output pin, toggling it each time the current blink
// period elapses. A `Pressed` event — checked on every poll before the local
// state — forces the LED low, halves the blink period (resetting to the
// default once it falls under the floor), and restarts the toggle cycle.
// ---------------------------------------------------------------------------

/// The default blink period in millisecond ticks.
pub const DEFAULT_PERIOD_MS: u32 = 500;

/// The floor under which a period is reset rather than halved.
pub const PERIOD_FLOOR_MS: u32 = 100;

/// The blink period after one press: a period that has fallen under the
/// floor resets to the default; any other loses its integer half.
pub open spec fn next_period(p: u32) -> u32 {
    if p < PERIOD_FLOOR_MS {
        DEFAULT_PERIOD_MS
    } else {
        (p - p / 2) as u32
    }
}

enum LedState {
    Toggle,
    Wait(TickTimer),
}

/// The blink-driving task.
pub struct LedTask {
    led_on: bool,
    blink_period: TickDuration,
    state: LedState,
    receiver: Receiver,
}

impl LedTask {
    /// Whether the modeled LED is lit.
    pub closed spec fn on(self) -> bool {
        self.led_on
    }

    /// The current blink period in ticks.
    pub closed spec fn period_ms(self) -> u32 {
        self.blink_period.ticks
    }

    /// Whether the task sits in a blink wait (rather than about to toggle).
    pub closed spec fn in_wait(self) -> bool {
        self.state is Wait
    }

    /// The absolute tick the current blink wait ends at (meaningful while
    /// waiting).
    pub closed spec fn wait_end(self) -> u32 {
        match self.state {
            LedState::Wait(timer) => timer.end(),
            _ => 0,
        }
    }

    /// Whether the two-phase receive has moved past its registration poll.
    pub closed spec fn receiver_waiting(self) -> bool {
        self.receiver.waiting()
    }

    /// A blink wait in progress has always been registered.
    pub open spec fn wf(self) -> bool {
        self.in_wait() ==> wait_timer_started(self)
    }

    /// A fresh LED task: off, at the default period, about to toggle.
    pub fn new(receiver: Receiver) -> (t: LedTask)
        requires
            !receiver.waiting(),
        ensures
            !t.on(),
            t.period_ms() == DEFAULT_PERIOD_MS,
            !t.in_wait(),
            !t.receiver_waiting(),
            t.wf(),
    {
        LedTask {
            led_on: false,
            blink_period: TickDuration::from_ticks(DEFAULT_PERIOD_MS),
            state: LedState::Toggle,
            receiver,
        }
    }

    pub fn is_on(&self) -> (b: bool)
        ensures
            b == self.on(),
    {
        self.led_on
    }

    pub fn get_period(&self) -> (p: TickDuration)
        ensures
            p.ticks == self.period_ms(),
    {
        self.blink_period
    }

    /// Halves the blink period, resetting to the default once it has fallen
    /// under the floor.
    pub fn update_blink_period(&mut self)
        ensures
            final(self).period_ms() == next_period(old(self).period_ms()),
            final(self).on() == old(self).on(),
            final(self).in_wait() == old(self).in_wait(),
            final(self).wait_end() == old(self).wait_end(),
            wait_timer_started(*final(self)) == wait_timer_started(*old(self)),
            final(self).receiver_waiting() == old(self).receiver_waiting(),
    {
        let current_period = self.blink_period.to_millis();
        if current_period < PERIOD_FLOOR_MS {
            self.blink_period = TickDuration::from_ticks(DEFAULT_PERIOD_MS);
        } else {
            self.blink_period = self.blink_period.minus(
                TickDuration::from_ticks(current_period / 2),
            );
        }
    }

    /// One poll of the LED state machine. The mailbox is checked first: a
    /// pending `Pressed` event forces the LED low, halves the period and
    /// restarts the toggle cycle. Then the cycle advances: a due (or
    /// restarted) toggle flips the LED and starts the next blink wait. The
    /// task itself never resolves.
    pub fn poll(&mut self, channel: &mut Channel<ButtonEvent>, ticker: &mut Ticker, ready: &mut ReadyQueue, now: TickInstant, task_id: usize) -> (r:
        Result<Poll<()>, Fatal>)
        requires
            old(self).wf(),
            old(ticker).wf(),
        ensures
            final(self).wf(),
            final(ticker).wf(),
            r matches Ok(p) ==> p == Poll::<()>::Pending,
            old(ready).ids().is_prefix_of(final(ready).ids()),
            final(ticker).entries().len() <= old(ticker).entries().len() + 2,
            final(ready).ids().len() + final(ticker).entries().len() <= old(ready).ids().len() + old(ticker).entries().len() + 2,
            // the receive step: register on the first poll, take afterwards
            final(channel).registered() == (if old(self).receiver_waiting() {
                old(channel).registered()
            } else {
                Some(task_id)
            }),
            final(self).receiver_waiting(),
            final(channel).stored() == (if old(self).receiver_waiting() {
                Option::<ButtonEvent>::None
            } else {
                old(channel).stored()
            }),
            // the period halves exactly on a received press
            final(self).period_ms() == (if spec_takes_press(*old(self), *old(channel)) {
                next_period(old(self).period_ms())
            } else {
                old(self).period_ms()
            }),
            // the LED level after the poll
            final(self).on() == (if spec_takes_press(*old(self), *old(channel)) {
                true
            } else if spec_toggles(*old(self), *old(channel), now.ticks) {
                !old(self).on()
            } else {
                old(self).on()
            }),
            // the blink wait after the poll
            spec_toggles(*old(self), *old(channel), now.ticks) ==> {
                &&& r is Ok ==> {
                    &&& final(self).in_wait()
                    &&& final(self).wait_end() == wrap_add_spec(
                        now.ticks,
                        final(self).period_ms(),
                    )
                    &&& !reached_spec(now.ticks, final(self).wait_end()) ==> final(ticker).entries().contains((final(self).wait_end(), task_id))
                }
                &&& (old(ticker).entries().len() >= MAX_DEADLINES <==> r == Err::<
                    Poll<()>,
                    Fatal,
                >(Fatal::DeadlineHeapFull(task_id)))
                &&& r matches Err(f) ==> f == Fatal::DeadlineHeapFull(task_id) || f
                    is ReadyQueueFull
                &&& old(ticker).entries().len() < MAX_DEADLINES && old(ready).ids().len() + old(ticker).entries().len() + 1 <= READY_CAPACITY ==> r is Ok
            },
            !spec_toggles(*old(self), *old(channel), now.ticks) ==> {
                &&& r == Ok::<Poll<()>, Fatal>(Poll::Pending)
                &&& final(self).in_wait()
                &&& final(self).wait_end() == old(self).wait_end()
                &&& *final(ticker) == *old(ticker)
                &&& *final(ready) == *old(ready)
            },
    {
        let received = self.receiver.receive(channel, task_id);
        match received {
            Poll::Ready(event) => {
                match event {
                    ButtonEvent::Pressed => {
                        self.led_on = false;
                        self.update_blink_period();
                        self.state = LedState::Toggle;
                    },
                }
            },
            Poll::Pending => {},
        }
        let do_toggle: bool;
        match &mut self.state {
            LedState::Toggle => {
                do_toggle = true;
            },
            LedState::Wait(timer) => {
                match timer.poll(ticker, now, task_id, ready) {
                    Ok(Poll::Ready(u)) => {
                        do_toggle = true;
                    },
                    Ok(Poll::Pending) => {
                        do_toggle = false;
                    },
                    Err(f) => {
                        proof {
                            assert(false);
                        }
                        do_toggle = false;
                    },
                }
            },
        }
        if do_toggle {
            self.led_on = !self.led_on;
            let mut timer = TickTimer::new(now, self.blink_period);
            match timer.poll(ticker, now, task_id, ready) {
                Ok(p) => p,
                Err(f) => {
                    self.state = LedState::Wait(timer);
                    return Err(f);
                },
            };
            self.state = LedState::Wait(timer);
        }
        Ok(Poll::Pending)
    }
}

/// Whether the blink timer held by a waiting LED task has been registered.
pub closed spec fn wait_timer_started(t: LedTask) -> bool {
    match t.state {
        LedState::Wait(timer) => timer.started(),
        _ => true,
    }
}

/// Whether this poll takes a `Pressed` event out of the mailbox: the
/// receiver is past its registration phase and an event is stored.
pub open spec fn spec_takes_press(t: LedTask, c: Channel<ButtonEvent>) -> bool {
    t.receiver_waiting() && c.stored() == Some(ButtonEvent::Pressed)
}

/// Whether this poll toggles the LED: a press restarts the cycle at once; a
/// toggle is otherwise due when no blink wait is running or the running
/// wait's deadline has been reached.
pub open spec fn spec_toggles(t: LedTask, c: Channel<ButtonEvent>, now: u32) -> bool {
    spec_takes_press(t, c) || !t.in_wait() || reached_spec(now, t.wait_end())
}

/// A standalone blinker handle: the modeled output pin level and the blink
/// period it is driven at. It packages the toggle and period rules on their
/// own, apart from the polling task that schedules them.
pub struct LedThing {
    led_on: bool,
    blink_period: TickDuration,
}

impl LedThing {
    /// Whether the modeled LED is lit.
    pub closed spec fn on(self) -> bool {
        self.led_on
    }

    /// The current blink period in ticks.
    pub closed spec fn period_ms(self) -> u32 {
        self.blink_period.ticks
    }

    /// A fresh blinker: off, at the default period.
    pub fn new() -> (t: LedThing)
        ensures
            !t.on(),
            t.period_ms() == DEFAULT_PERIOD_MS,
    {
        LedThing { led_on: false, blink_period: TickDuration::from_ticks(DEFAULT_PERIOD_MS) }
    }

    /// Halves the blink period, resetting to the default once it has fallen
    /// under the floor.
    pub fn update_blink_period(&mut self)
        ensures
            final(self).period_ms() == next_period(old(self).period_ms()),
            final(self).on() == old(self).on(),
    {
        let current_period = self.blink_period.to_millis();
        if current_period < PERIOD_FLOOR_MS {
            self.blink_period = TickDuration::from_ticks(DEFAULT_PERIOD_MS);
        } else {
            self.blink_period = self.blink_period.minus(
                TickDuration::from_ticks(current_period / 2),
            );
        }
    }

    pub fn get_period(&self) -> (p: TickDuration)
        ensures
            p.ticks == self.period_ms(),
    {
        self.blink_period
    }

    pub fn is_on(&self) -> (b: bool)
        ensures
            b == self.on(),
    {
        self.led_on
    }

    /// Flips the modeled output pin.
    pub fn toggle(&mut self)
        ensures
            final(self).on() == !old(self).on(),
            final(self).period_ms() == old(self).period_ms(),
    {
        self.led_on = !self.led_on;
    }
}

} // verus!
