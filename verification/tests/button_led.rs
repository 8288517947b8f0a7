use blinky_rt::button::{ButtonEvent, ButtonTask};
use blinky_rt::button_interrupt::{InputChannel, PinLevel};
use blinky_rt::channel::Channel;
use blinky_rt::executor::{ReadyQueue, System, BUTTON_TASK_ID, LED_TASK_ID};
use blinky_rt::future::Poll;
use blinky_rt::led::{LedTask, LedThing};
use blinky_rt::ticker::{CompareArm, TickDuration, TickInstant, TickTimer, Ticker};

fn at(ticks: u32) -> TickInstant {
    TickInstant::from_ticks(ticks)
}

#[test]
fn edge_wait_resolves_immediately_on_matching_level() {
    let mut input = InputChannel::new();
    input.set_ready_state(PinLevel::Low);
    // The pin already reads the target level: no interrupt is needed.
    assert!(input.poll(4, PinLevel::Low).is_ready());
    assert_eq!(input.poll(4, PinLevel::Low), Poll::Ready(()));

    input.set_ready_state(PinLevel::High);
    assert_eq!(input.poll(4, PinLevel::High), Poll::Ready(()));
}

#[test]
fn edge_wait_records_the_waiter_and_wakes_it_once() {
    let mut input = InputChannel::new();
    let mut ready = ReadyQueue::new();
    input.set_ready_state(PinLevel::Low);
    assert_eq!(input.poll(4, PinLevel::High), Poll::Pending);

    // The edge interrupt wakes the recorded task and clears the slot, so a
    // bouncing line cannot re-queue the task before it re-polls.
    input.handle_edge_interrupt(&mut ready).unwrap();
    assert_eq!(ready.dequeue(), Some(4));
    input.handle_edge_interrupt(&mut ready).unwrap();
    assert_eq!(ready.dequeue(), None);
}

#[test]
fn button_press_produces_one_event_and_debounces() {
    let now0 = at(0);
    let mut ticker = Ticker::init(now0);
    let mut ready = ReadyQueue::new();
    let mut channel: Channel<ButtonEvent> = Channel::new();
    let mut button = ButtonTask::new(channel.get_sender());

    // First poll: button up, so the task waits on the line.
    button.poll(&mut channel, &mut ticker, &mut ready, now0, PinLevel::High, 1).unwrap();
    assert_eq!(channel.receive(), None);

    // The pin falls at tick 10: the edge interrupt wakes the task, and its
    // poll publishes exactly one event within that poll cycle.
    button.handle_edge_interrupt(&mut ready).unwrap();
    assert_eq!(ready.dequeue(), Some(1));
    button.poll(&mut channel, &mut ticker, &mut ready, at(10), PinLevel::Low, 1).unwrap();
    assert_eq!(channel.receive(), Some(ButtonEvent::Pressed));

    // The contact bounces inside the 100 ms window: the edge interrupt finds
    // no recorded waiter, and polls publish nothing further.
    button.handle_edge_interrupt(&mut ready).unwrap();
    assert_eq!(ready.dequeue(), None);
    button.poll(&mut channel, &mut ticker, &mut ready, at(40), PinLevel::High, 1).unwrap();
    assert_eq!(channel.receive(), None);
    button.poll(&mut channel, &mut ticker, &mut ready, at(70), PinLevel::Low, 1).unwrap();
    assert_eq!(channel.receive(), None);

    // The debounce deadline (tick 110) fires and wakes the task.
    let expired = ticker
        .update_compare_for_earliest_deadline(at(110), &mut ready)
        .unwrap();
    assert_eq!(expired, vec![(110, 1)]);
    assert_eq!(ready.dequeue(), Some(1));

    // Still held down: the task now waits for the release.
    button.poll(&mut channel, &mut ticker, &mut ready, at(115), PinLevel::Low, 1).unwrap();
    assert_eq!(channel.receive(), None);

    // Released at tick 200: back to waiting for a press, still no event.
    button.handle_edge_interrupt(&mut ready).unwrap();
    assert_eq!(ready.dequeue(), Some(1));
    button.poll(&mut channel, &mut ticker, &mut ready, at(200), PinLevel::High, 1).unwrap();
    assert_eq!(channel.receive(), None);

    // A second press produces a second event.
    button.handle_edge_interrupt(&mut ready).unwrap();
    assert_eq!(ready.dequeue(), Some(1));
    button.poll(&mut channel, &mut ticker, &mut ready, at(300), PinLevel::Low, 1).unwrap();
    assert_eq!(channel.receive(), Some(ButtonEvent::Pressed));
}

#[test]
fn led_blinks_and_presses_halve_the_period() {
    let mut ticker = Ticker::init(at(0));
    let mut ready = ReadyQueue::new();
    let mut channel: Channel<ButtonEvent> = Channel::new();
    let sender = channel.get_sender();
    let mut led = LedTask::new(channel.get_receiver());

    // First poll: registers the receiver, toggles the LED on, starts the
    // 500 ms blink wait.
    led.poll(&mut channel, &mut ticker, &mut ready, at(0), 0).unwrap();
    assert!(led.is_on());
    assert_eq!(led.get_period().to_millis(), 500);
    assert_eq!(ticker.get_armed(), CompareArm::At(500));

    // The blink deadline passes: the LED toggles off and the wait restarts.
    led.poll(&mut channel, &mut ticker, &mut ready, at(500), 0).unwrap();
    assert!(!led.is_on());

    // One press: the LED is forced low, then toggled on, at half the period.
    sender.send(&mut channel, &mut ready, ButtonEvent::Pressed).unwrap();
    assert_eq!(ready.dequeue(), Some(0));
    led.poll(&mut channel, &mut ticker, &mut ready, at(600), 0).unwrap();
    assert!(led.is_on());
    assert_eq!(led.get_period().to_millis(), 250);

    // Further presses: 250 -> 125 -> 63, integer halving.
    sender.send(&mut channel, &mut ready, ButtonEvent::Pressed).unwrap();
    assert_eq!(ready.dequeue(), Some(0));
    led.poll(&mut channel, &mut ticker, &mut ready, at(700), 0).unwrap();
    assert_eq!(led.get_period().to_millis(), 125);

    sender.send(&mut channel, &mut ready, ButtonEvent::Pressed).unwrap();
    assert_eq!(ready.dequeue(), Some(0));
    led.poll(&mut channel, &mut ticker, &mut ready, at(800), 0).unwrap();
    assert_eq!(led.get_period().to_millis(), 63);

    // A press at a period under the floor resets to the default.
    sender.send(&mut channel, &mut ready, ButtonEvent::Pressed).unwrap();
    assert_eq!(ready.dequeue(), Some(0));
    led.poll(&mut channel, &mut ticker, &mut ready, at(900), 0).unwrap();
    assert_eq!(led.get_period().to_millis(), 500);
}

#[test]
fn led_thing_follows_the_period_schedule() {
    let mut blinker = LedThing::new();
    assert!(!blinker.is_on());
    assert_eq!(blinker.get_period().to_millis(), 500);
    blinker.update_blink_period();
    assert_eq!(blinker.get_period().to_millis(), 250);
    blinker.update_blink_period();
    assert_eq!(blinker.get_period().to_millis(), 125);
    blinker.update_blink_period();
    assert_eq!(blinker.get_period().to_millis(), 63);
    blinker.update_blink_period();
    assert_eq!(blinker.get_period().to_millis(), 500);
}

#[test]
fn led_thing_toggles_its_pin() {
    let mut blinker = LedThing::new();
    assert!(!blinker.is_on());
    blinker.toggle();
    assert!(blinker.is_on());
    blinker.toggle();
    assert!(!blinker.is_on());
}

#[test]
fn system_blinks_and_reacts_to_a_press() {
    let mut sys = System::new(at(0));

    // The seeded drain lets both tasks make their first registrations: the
    // LED toggles on and schedules its blink; the button waits on the line.
    let polled = sys.run_tasks(at(0), PinLevel::High, 16).unwrap();
    assert!(polled >= 2);
    assert!(sys.led_is_on());
    assert_eq!(sys.led_period_millis(), 500);
    assert_eq!(sys.armed_compare(), CompareArm::At(500));
    assert_eq!(sys.ready_len(), 0);

    // The blink deadline fires: exactly the due entry is popped and the LED
    // task woken; the drain then toggles the LED off.
    let expired = sys.handle_timer_interrupt(at(500)).unwrap();
    assert_eq!(expired, vec![(500, LED_TASK_ID)]);
    assert_eq!(sys.ready_len(), 1);
    sys.run_tasks(at(500), PinLevel::High, 16).unwrap();
    assert!(!sys.led_is_on());

    // The button falls at tick 600: one press event reaches the LED task
    // within the drain, halving the period and restarting the blink.
    sys.handle_pin_interrupt().unwrap();
    sys.run_tasks(at(600), PinLevel::Low, 16).unwrap();
    assert!(sys.led_is_on());
    assert_eq!(sys.led_period_millis(), 250);
    assert_eq!(sys.armed_compare(), CompareArm::At(700));

    // The debounce window ends at 710; the button then waits for release.
    sys.handle_timer_interrupt(at(710)).unwrap();
    sys.run_tasks(at(710), PinLevel::Low, 16).unwrap();
    // The blink deadline at 850 fires; the LED toggles off again.
    sys.handle_timer_interrupt(at(850)).unwrap();
    sys.run_tasks(at(850), PinLevel::Low, 16).unwrap();
    assert!(!sys.led_is_on());

    // Release at 900, then a second press at 1000 halves the period again.
    sys.handle_pin_interrupt().unwrap();
    sys.run_tasks(at(900), PinLevel::High, 16).unwrap();
    sys.handle_pin_interrupt().unwrap();
    sys.run_tasks(at(1000), PinLevel::Low, 16).unwrap();
    assert_eq!(sys.led_period_millis(), 125);
}

#[test]
fn executor_skips_malformed_task_identities() {
    let mut sys = System::new(at(0));
    // Drain the seeds first.
    sys.run_tasks(at(0), PinLevel::High, 16).unwrap();

    // A stray identity beyond the task array is skipped, not fatal.
    sys.wake(9).unwrap();
    let polled = sys.run_tasks(at(1), PinLevel::High, 16).unwrap();
    assert_eq!(polled, 1);
    assert_eq!(sys.ready_len(), 0);
}

#[test]
fn seeded_queue_names_every_task_once() {
    let sys = System::new(at(0));
    assert_eq!(sys.ready_len(), 2);
    let _ = (LED_TASK_ID, BUTTON_TASK_ID);
}

#[test]
fn a_drain_makes_progress_and_counts_its_polls() {
    let mut sys = System::new(at(0));
    // Two seeded identities, budget one: exactly one poll, one still queued.
    let polled = sys.run_tasks(at(0), PinLevel::High, 1).unwrap();
    assert_eq!(polled, 1);
    assert_eq!(sys.ready_len(), 1);
    // The resumed drain finishes the seeds.
    let polled = sys.run_tasks(at(0), PinLevel::High, 16).unwrap();
    assert_eq!(polled, 1);
    assert_eq!(sys.ready_len(), 0);
    // An empty queue drains in zero polls.
    assert_eq!(sys.run_tasks(at(1), PinLevel::High, 16).unwrap(), 0);
}

#[test]
fn a_press_before_the_first_drain_is_kept() {
    // A wake delivered before the task is dequeued is observed: the drain
    // empties the queue before the system would sleep.
    let mut sys = System::new(at(0));
    let polled = sys.run_tasks(at(0), PinLevel::Low, 16).unwrap();
    // Button saw the pin already low: the press event reached the LED task.
    assert!(polled >= 2);
    assert_eq!(sys.led_period_millis(), 250);
}

#[test]
fn deadline_timer_is_reusable_only_per_wait() {
    // Each wait is one-shot: after resolving it stays resolved.
    let mut ticker = Ticker::init(at(0));
    let mut ready = ReadyQueue::new();
    let mut timer = TickTimer::new(at(0), TickDuration::from_ticks(5));
    assert_eq!(timer.poll(&mut ticker, at(0), 1, &mut ready).unwrap(), Poll::Pending);
    assert_eq!(timer.poll(&mut ticker, at(5), 1, &mut ready).unwrap(), Poll::Ready(()));
    assert_eq!(timer.poll(&mut ticker, at(6), 1, &mut ready).unwrap(), Poll::Ready(()));
}
