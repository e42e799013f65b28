//! Timed sleep over a monotonic tick counter.
#![allow(unused_imports)]
use vstd::prelude::*;
use vstd::wrapping::u16_specs;

use crate::executor::Volatile;
use crate::{Future, Poll};

verus! {

/// Whether the counter value `tick` lies at least `delay` ticks past
/// `start`, compared with wraparound-tolerant unsigned subtraction so a
/// rollover of the counter does not break the comparison.
pub open spec fn tick_reached(tick: u16, start: u16, delay: u16) -> bool {
    u16_specs::wrapping_sub(tick, start) >= delay
}

/// How many reads of the counter come back before one reaches the target.
pub open spec fn reads_until_reached(traj: Seq<u16>, start: u16, delay: u16) -> nat
    decreases traj.len(),
{
    if traj.len() == 0 {
        0
    } else if tick_reached(traj[0], start, delay) {
        0
    } else {
        1 + reads_until_reached(traj.skip(1), start, delay)
    }
}

/// Whether the counter will ever hand out a value that reaches the target:
/// some value of the trajectory does, or the settled value does.
pub open spec fn will_reach(traj: Seq<u16>, settled: u16, start: u16, delay: u16) -> bool
    decreases traj.len(),
{
    if traj.len() == 0 {
        tick_reached(settled, start, delay)
    } else if tick_reached(traj[0], start, delay) {
        true
    } else {
        will_reach(traj.skip(1), settled, start, delay)
    }
}

/// A monotonically increasing (with wraparound) tick counter, readable
/// without side effects on the rest of the system. Specified by the stream
/// of values coming reads will return: the `trajectory`, and the `settled`
/// value reads return once it is exhausted.
pub trait TimeReader: Sized {
    /// The values coming reads will return, oldest first.
    spec fn trajectory(&self) -> Seq<u16>;

    /// The value reads settle on once the trajectory is exhausted.
    spec fn settled(&self) -> u16;

    /// Read the counter.
    fn ticks(&mut self) -> (t: u16)
        ensures
            old(self).trajectory().len() > 0 ==> {
                &&& t == old(self).trajectory()[0]
                &&& final(self).trajectory() == old(self).trajectory().skip(1)
                &&& final(self).settled() == old(self).settled()
            },
            old(self).trajectory().len() == 0 ==> {
                &&& t == old(self).settled()
                &&& *final(self) == *old(self)
            },
    ;
}

/// A computation that becomes `Ready(true)` once the tick counter has
/// advanced `delay_in_ticks` past `start_tick`. Each poll re-reads the
/// counter and compares the wraparound-tolerant difference against the
/// target; nothing else changes between polls.
pub struct Timer<T: TimeReader> {
    pub delay_in_ticks: u16,
    pub start_tick: u16,
    pub hw_timer: T,
}

impl<T: TimeReader> Timer<T> {
    /// Build a sleep for `delay_in_millis` milliseconds: the delay is
    /// converted to ticks for a 16 MHz clock behind a 1024 prescaler, and
    /// the current counter value is recorded as the start.
    pub fn sleep_in_millis(delay_in_millis: u16, hw_timer: T) -> (r: Timer<T>)
        requires
            delay_in_millis <= 4198,
        ensures
            r.delay_in_ticks == delay_in_millis * 10 / 64 * 100,
            hw_timer.trajectory().len() > 0 ==> {
                &&& r.start_tick == hw_timer.trajectory()[0]
                &&& r.hw_timer.trajectory() == hw_timer.trajectory().skip(1)
                &&& r.hw_timer.settled() == hw_timer.settled()
            },
            hw_timer.trajectory().len() == 0 ==> {
                &&& r.start_tick == hw_timer.settled()
                &&& r.hw_timer == hw_timer
            },
    {
        let mut hw_timer = hw_timer;
        let start_tick = hw_timer.ticks();
        Timer {
            // this assumes a 16MHz timer with a 1024 prescaler
            delay_in_ticks: delay_in_millis * 10 / 64 * 100,
            start_tick,
            hw_timer,
        }
    }
}

impl<T: TimeReader> Future for Timer<T> {
    type Output = bool;

    open spec fn pollable(&self) -> bool {
        will_reach(
            self.hw_timer.trajectory(),
            self.hw_timer.settled(),
            self.start_tick,
            self.delay_in_ticks,
        )
    }

    open spec fn steps(&self) -> nat {
        reads_until_reached(self.hw_timer.trajectory(), self.start_tick, self.delay_in_ticks)
    }

    open spec fn ready_now(&self) -> bool {
        if self.hw_timer.trajectory().len() > 0 {
            tick_reached(self.hw_timer.trajectory()[0], self.start_tick, self.delay_in_ticks)
        } else {
            tick_reached(self.hw_timer.settled(), self.start_tick, self.delay_in_ticks)
        }
    }

    open spec fn ready_value(&self) -> bool {
        true
    }

    open spec fn poll_rel(&self, next: &Self, r: Poll<bool>, w0: bool, w1: bool) -> bool {
        let traj = self.hw_timer.trajectory();
        &&& w1 == w0
        &&& next.delay_in_ticks == self.delay_in_ticks
        &&& next.start_tick == self.start_tick
        &&& if traj.len() > 0 {
            // The poll consumed one counter read, and its value alone
            // decided the outcome.
            &&& next.hw_timer.trajectory() == traj.skip(1)
            &&& next.hw_timer.settled() == self.hw_timer.settled()
            &&& r == (if tick_reached(traj[0], self.start_tick, self.delay_in_ticks) {
                Poll::<bool>::Ready(true)
            } else {
                Poll::<bool>::Pending
            })
        } else {
            &&& next.hw_timer == self.hw_timer
            &&& r == (if tick_reached(
                self.hw_timer.settled(),
                self.start_tick,
                self.delay_in_ticks,
            ) {
                Poll::<bool>::Ready(true)
            } else {
                Poll::<bool>::Pending
            })
        }
    }

    fn poll(&mut self, wake: &mut Volatile<bool>) -> (r: Poll<bool>) {
        let tick = self.hw_timer.ticks();
        if tick.wrapping_sub(self.start_tick) >= self.delay_in_ticks {
            Poll::Ready(true)
        } else {
            Poll::Pending
        }
    }
}

} // verus!
