use async_avr::sim::{Countdown, ScriptTicks};
use async_avr::timer::Timer;
use async_avr::{block_on, Future, Join, Poll, Volatile, Yield};

#[test]
fn volatile_cell_reads_back_what_was_written() {
    let mut cell: Volatile<bool> = Volatile::new(false);
    assert!(!cell.read());
    cell.write(true);
    assert!(cell.read());
    cell.write(false);
    assert!(!cell.read());
}

#[test]
fn yield_is_pending_once_then_ready_forever() {
    let mut y = Yield::default();
    let mut wake = Volatile::new(true);
    assert_eq!(y.poll(&mut wake), Poll::Pending);
    assert_eq!(y.poll(&mut wake), Poll::Ready(()));
    assert_eq!(y.poll(&mut wake), Poll::Ready(()));
    assert_eq!(y.poll(&mut wake), Poll::Ready(()));
}

#[test]
fn yield_never_touches_the_wake_signal() {
    let mut y = Yield::default();
    let mut wake = Volatile::new(true);
    y.poll(&mut wake);
    assert!(wake.read());
    y.poll(&mut wake);
    assert!(wake.read());
}

#[test]
fn block_on_returns_the_value_of_an_immediately_ready_computation() {
    let mut task = Countdown::new(0, 7);
    assert_eq!(block_on(&mut task), 7);
    assert_eq!(task.polls, 1);
}

#[test]
fn block_on_polls_through_pendings_to_the_value() {
    let mut task = Countdown::new(3, 9);
    assert_eq!(block_on(&mut task), 9);
    assert_eq!(task.polls, 4);
}

#[test]
fn block_on_drives_a_yield_to_completion() {
    let mut y = Yield::default();
    block_on(&mut y);
    assert!(y.0);
}

#[test]
fn join_is_ready_only_after_the_slow_child_and_spares_the_fast_one() {
    // One child completes immediately, the other needs three pending polls:
    // the root is ready only on the fourth pass, and the already-complete
    // child is never polled again.
    let mut root = Join::new(Countdown::new(0, 1), Countdown::new(3, 2));
    let mut wake = Volatile::new(true);
    assert_eq!(root.poll(&mut wake), Poll::Pending);
    assert_eq!(root.poll(&mut wake), Poll::Pending);
    assert_eq!(root.poll(&mut wake), Poll::Pending);
    assert_eq!(root.poll(&mut wake), Poll::Ready((1, 2)));
    assert_eq!(root.a.polls, 1);
    assert_eq!(root.b.polls, 4);
}

#[test]
fn block_on_runs_a_join_of_two_countdowns() {
    let mut root = Join::new(Countdown::new(2, 10), Countdown::new(5, 20));
    assert_eq!(block_on(&mut root), (10, 20));
}

#[test]
fn timer_converts_milliseconds_to_ticks() {
    // 7 ms at 16 MHz behind a 1024 prescaler: 7 * 10 / 64 * 100 = 100 ticks.
    let ticks = ScriptTicks::new(vec![1000], 1000);
    let timer = Timer::sleep_in_millis(7, ticks);
    assert_eq!(timer.delay_in_ticks, 100);
    assert_eq!(timer.start_tick, 1000);
}

#[test]
fn timer_is_pending_until_the_delay_has_elapsed() {
    let ticks = ScriptTicks::new(vec![1000, 1050, 1099, 1100, 1200], 1200);
    let mut timer = Timer::sleep_in_millis(7, ticks);
    let mut wake = Volatile::new(true);
    assert_eq!(timer.poll(&mut wake), Poll::Pending);
    assert_eq!(timer.poll(&mut wake), Poll::Pending);
    assert_eq!(timer.poll(&mut wake), Poll::Ready(true));
    assert_eq!(timer.poll(&mut wake), Poll::Ready(true));
}

#[test]
fn timer_tolerates_a_counter_wraparound() {
    // The counter rolls over from near its maximum back past zero; the
    // wraparound-tolerant comparison still sees the elapsed ticks.
    let ticks = ScriptTicks::new(vec![65500, 65535, 0, 63, 64], 64);
    let mut timer = Timer::sleep_in_millis(7, ticks);
    let mut wake = Volatile::new(true);
    assert_eq!(timer.start_tick, 65500);
    assert_eq!(timer.poll(&mut wake), Poll::Pending);
    assert_eq!(timer.poll(&mut wake), Poll::Pending);
    assert_eq!(timer.poll(&mut wake), Poll::Pending);
    assert_eq!(timer.poll(&mut wake), Poll::Ready(true));
}

#[test]
fn block_on_waits_out_a_timer() {
    let ticks = ScriptTicks::new(vec![0, 50, 99, 100], 100);
    let mut timer = Timer::sleep_in_millis(7, ticks);
    assert!(block_on(&mut timer));
}
