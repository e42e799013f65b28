//! The executor and its shared wake signal.
#![allow(unused_imports)]
use vstd::prelude::*;

use crate::{Future, Poll};

verus! {

/// A single shared cell, the model of a memory location that an interrupt
/// handler may also write. Within the verified core it is an ordinary value;
/// hardware-facing code supplies the volatile access.
pub struct Volatile<T: Copy> {
    cell: T,
}

impl<T: Copy> Volatile<T> {
    /// The current contents of the cell.
    pub closed spec fn value(&self) -> T {
        self.cell
    }

    pub fn new(value: T) -> (r: Volatile<T>)
        ensures
            r.value() == value,
    {
        Volatile { cell: value }
    }

    pub fn read(&self) -> (r: T)
        ensures
            r == self.value(),
    {
        self.cell
    }

    pub fn write(&mut self, value: T)
        ensures
            final(self).value() == value,
    {
        self.cell = value;
    }
}

/// Drives a computation until it resolves, returning its result.
///
/// The wake signal is initialized to `true` and — in this busy-polling
/// variant — never cleared, so the loop re-polls unconditionally until the
/// computation reports `Ready`. A computation that is ready on its very
/// first poll has its value returned at once, before any further touch of
/// the wake signal. The loop terminates because every `Pending` strictly
/// lowers the computation's `steps` bound.
pub fn block_on<F: Future>(task: &mut F) -> (r: F::Output)
    requires
        old(task).pollable(),
    ensures
        old(task).ready_now() ==> r == old(task).ready_value(),
        // A computation that is ready at once is polled exactly once, with
        // the wake signal still holding its initial `true` on either side
        // of that poll: no further wake-signal manipulation happens.
        old(task).ready_now() ==> old(task).poll_rel(
            final(task),
            Poll::Ready(old(task).ready_value()),
            true,
            true,
        ),
{
    let mut ready: Volatile<bool> = Volatile::new(true);
    let ghost mut first: bool = true;
    loop
        invariant
            task.pollable(),
            ready.value(),
            first ==> *task == *old(task),
            !first ==> !old(task).ready_now(),
        decreases task.steps(),
    {
        while ready.read()
            invariant
                task.pollable(),
                ready.value(),
                first ==> *task == *old(task),
                !first ==> !old(task).ready_now(),
            decreases task.steps(),
        {
            match task.poll(&mut ready) {
                Poll::Ready(val) => {
                    return val;
                },
                Poll::Pending => {
                    // The clearing write `ready.write(false)` is deliberately
                    // absent: the signal only ever serves as a liveness
                    // placeholder, and every `Pending` is followed by an
                    // immediate re-poll.
                },
            }
            proof {
                first = false;
            }
        }
    }
}

} // verus!
