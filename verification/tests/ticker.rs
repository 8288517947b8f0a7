use blinky_rt::executor::{Fatal, ReadyQueue};
use blinky_rt::future::Poll;
use blinky_rt::ticker::{
    CompareArm, TickDuration, TickInstant, TickTimer, Ticker, HEARTBEAT_INTERVAL_MS,
    HEARTBEAT_TASK_ID, MAX_DEADLINES,
};

#[test]
fn instants_wrap_and_compare_modularly() {
    let near_end = TickInstant::from_ticks(u32::MAX - 9);
    let wrapped = near_end.plus(TickDuration::from_ticks(20));
    assert_eq!(wrapped.ticks(), 10);

    assert!(TickInstant::from_ticks(5).at_or_after(TickInstant::from_ticks(5)));
    assert!(!TickInstant::from_ticks(5).at_or_after(TickInstant::from_ticks(6)));
    // Readings just after the wrap are at-or-after readings just before it.
    assert!(TickInstant::from_ticks(2).at_or_after(TickInstant::from_ticks(u32::MAX - 1)));
    assert!(!TickInstant::from_ticks(u32::MAX - 1).at_or_after(TickInstant::from_ticks(2)));
}

#[test]
fn durations_convert_and_subtract() {
    let d = TickDuration::from_ticks(500);
    assert_eq!(d.to_millis(), 500);
    assert_eq!(d.minus(TickDuration::from_ticks(250)).to_millis(), 250);
}

#[test]
fn fresh_ticker_arms_the_heartbeat() {
    let ticker = Ticker::init(TickInstant::from_ticks(0));
    assert_eq!(ticker.get_armed(), CompareArm::At(HEARTBEAT_INTERVAL_MS));
}

#[test]
fn deadlines_wake_at_or_after_their_time_in_order() {
    let now = TickInstant::from_ticks(0);
    let mut ticker = Ticker::init(now);
    let mut ready = ReadyQueue::new();

    // Three waits with distinct identities and durations, registered out of
    // deadline order.
    let mut t_late = TickTimer::new(now, TickDuration::from_ticks(50));
    let mut t_early = TickTimer::new(now, TickDuration::from_ticks(10));
    let mut t_mid = TickTimer::new(now, TickDuration::from_ticks(30));
    assert_eq!(t_late.poll(&mut ticker, now, 7, &mut ready).unwrap(), Poll::Pending);
    assert_eq!(t_early.poll(&mut ticker, now, 5, &mut ready).unwrap(), Poll::Pending);
    assert_eq!(t_mid.poll(&mut ticker, now, 6, &mut ready).unwrap(), Poll::Pending);

    // The compare interrupt is armed for the nearest deadline.
    assert_eq!(ticker.get_armed(), CompareArm::At(10));
    assert_eq!(ready.len(), 0);

    // Nothing is woken before its deadline.
    let expired = ticker
        .update_compare_for_earliest_deadline(TickInstant::from_ticks(9), &mut ready)
        .unwrap();
    assert!(expired.is_empty());
    assert_eq!(ready.len(), 0);

    // At tick 35, the two elapsed deadlines are woken, earliest first.
    let expired = ticker
        .update_compare_for_earliest_deadline(TickInstant::from_ticks(35), &mut ready)
        .unwrap();
    assert_eq!(expired, vec![(10, 5), (30, 6)]);
    assert_eq!(ready.dequeue(), Some(5));
    assert_eq!(ready.dequeue(), Some(6));
    assert_eq!(ready.dequeue(), None);
    assert_eq!(ticker.get_armed(), CompareArm::At(50));

    // The remaining deadline is woken once reached.
    let expired = ticker
        .update_compare_for_earliest_deadline(TickInstant::from_ticks(50), &mut ready)
        .unwrap();
    assert_eq!(expired, vec![(50, 7)]);
    assert_eq!(ready.dequeue(), Some(7));
}

#[test]
fn deadline_poll_resolves_by_time_alone() {
    let now = TickInstant::from_ticks(100);
    let mut ticker = Ticker::init(now);
    let mut ready = ReadyQueue::new();

    let mut timer = TickTimer::new(now, TickDuration::from_ticks(40));
    assert_eq!(timer.poll(&mut ticker, now, 1, &mut ready).unwrap(), Poll::Pending);

    // No interrupt is delivered; polling before the deadline stays pending,
    // polling at or after it resolves.
    let at_139 = TickInstant::from_ticks(139);
    assert_eq!(timer.poll(&mut ticker, at_139, 1, &mut ready).unwrap(), Poll::Pending);
    let at_140 = TickInstant::from_ticks(140);
    assert_eq!(timer.poll(&mut ticker, at_140, 1, &mut ready).unwrap(), Poll::Ready(()));
    let at_500 = TickInstant::from_ticks(500);
    assert_eq!(timer.poll(&mut ticker, at_500, 1, &mut ready).unwrap(), Poll::Ready(()));
}

#[test]
fn zero_duration_deadline_is_immediately_ready() {
    let now = TickInstant::from_ticks(7);
    let mut ticker = Ticker::init(now);
    let mut ready = ReadyQueue::new();

    let mut timer = TickTimer::new(now, TickDuration::from_ticks(0));
    // The first poll still registers and reports pending once.
    assert_eq!(timer.poll(&mut ticker, now, 2, &mut ready).unwrap(), Poll::Pending);
    // The registration found the deadline already reached and woke at once.
    assert_eq!(ready.dequeue(), Some(2));
    assert_eq!(timer.poll(&mut ticker, now, 2, &mut ready).unwrap(), Poll::Ready(()));
}

#[test]
fn overflowing_the_deadline_heap_is_fatal() {
    let now = TickInstant::from_ticks(0);
    let mut ticker = Ticker::init(now);
    let mut ready = ReadyQueue::new();

    // The heartbeat holds one slot; fill the rest.
    let mut timers = Vec::new();
    for i in 0..(MAX_DEADLINES - 1) {
        let mut timer = TickTimer::new(now, TickDuration::from_ticks(1000 + i as u32));
        assert_eq!(timer.poll(&mut ticker, now, 10 + i, &mut ready).unwrap(), Poll::Pending);
        timers.push(timer);
    }

    // One more concurrently pending deadline cannot be recorded.
    let mut overflowing = TickTimer::new(now, TickDuration::from_ticks(9999));
    assert_eq!(
        overflowing.poll(&mut ticker, now, 99, &mut ready),
        Err(Fatal::DeadlineHeapFull(99))
    );
}

#[test]
fn deadline_straddling_the_wrap_is_handled() {
    let before_wrap = TickInstant::from_ticks(u32::MAX - 9);
    let mut ticker = Ticker::init(before_wrap);
    let mut ready = ReadyQueue::new();

    // A 20-tick wait whose absolute deadline lies after the counter wraps.
    let mut timer = TickTimer::new(before_wrap, TickDuration::from_ticks(20));
    assert_eq!(timer.poll(&mut ticker, before_wrap, 3, &mut ready).unwrap(), Poll::Pending);
    // It was not woken early, and the compare interrupt cannot be armed for
    // it this cycle: the scheduler waits for the counter overflow.
    assert_eq!(ready.len(), 0);
    assert_eq!(ticker.get_armed(), CompareArm::AtWrap);

    // The overflow interrupt re-examines the heap and arms the compare.
    let after_wrap = TickInstant::from_ticks(0);
    let expired = ticker
        .update_compare_for_earliest_deadline(after_wrap, &mut ready)
        .unwrap();
    assert!(expired.is_empty());
    assert_eq!(ticker.get_armed(), CompareArm::At(10));

    // Still pending one tick before the deadline, ready at it.
    let at_9 = TickInstant::from_ticks(9);
    assert_eq!(timer.poll(&mut ticker, at_9, 3, &mut ready).unwrap(), Poll::Pending);
    let at_10 = TickInstant::from_ticks(10);
    assert_eq!(timer.poll(&mut ticker, at_10, 3, &mut ready).unwrap(), Poll::Ready(()));
}

#[test]
fn heartbeat_replaces_an_emptied_heap_and_is_not_woken() {
    let now = TickInstant::from_ticks(0);
    let mut ticker = Ticker::init(now);
    let mut ready = ReadyQueue::new();

    // Reach the heartbeat itself: a full day passes.
    let at_heartbeat = TickInstant::from_ticks(HEARTBEAT_INTERVAL_MS);
    let expired = ticker
        .update_compare_for_earliest_deadline(at_heartbeat, &mut ready)
        .unwrap();
    // The heartbeat entry expired but woke no task, and a fresh heartbeat
    // was armed in its place.
    assert_eq!(expired, vec![(HEARTBEAT_INTERVAL_MS, HEARTBEAT_TASK_ID)]);
    assert_eq!(ready.len(), 0);
    assert_eq!(ticker.get_armed(), CompareArm::At(2 * HEARTBEAT_INTERVAL_MS));
}
