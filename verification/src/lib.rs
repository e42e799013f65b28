//! A minimal cooperative task runtime for bare-metal targets: suspendable
//! computations are polled to completion by a busy-polling executor, share a
//! single wake signal, and communicate with peripherals through a
//! blocking-with-retry driver capability.
#![allow(unused_imports)]
use vstd::pervasive::VecAdditionalExecFns;
use vstd::prelude::*;

mod executor;
pub mod hal;
pub mod io;
mod join;
pub mod sim;
mod spi;
pub mod timer;

pub use executor::Volatile;
pub use executor::block_on;
pub use join::Join;
pub use join::join_pass;
pub use spi::AsyncSpi;

verus! {

/// The outcome of advancing a suspendable computation one step: either the
/// final value, or a request to be polled again later.
#[derive(Clone, Copy, Debug, PartialEq, Eq)]
pub enum Poll<T> {
    Ready(T),
    Pending,
}

/// A suspendable computation: a state machine advanced by polling.
///
/// Each implementation publishes its own transition relation `poll_rel`;
/// `poll` promises to conform to it, so a caller that knows the concrete type
/// knows exactly what one poll does. The wake signal handed to `poll` may be
/// set by the computation (to request another pass) but is never cleared.
///
/// `steps` bounds the number of `Pending` results the computation can still
/// produce. It makes explicit the liveness assumption that the busy-polling
/// executor rests on: a computation reports `Pending` only finitely often
/// before resolving, because the peripherals behind it eventually become
/// ready.
pub trait Future: Sized {
    type Output;

    /// Whether the computation may be polled: completed computations must not
    /// be polled again.
    spec fn pollable(&self) -> bool;

    /// A bound on the number of further polls that may report `Pending`.
    spec fn steps(&self) -> nat;

    /// A sufficient condition for the next poll to complete immediately.
    spec fn ready_now(&self) -> bool;

    /// The value the next poll completes with, when `ready_now` holds.
    spec fn ready_value(&self) -> Self::Output;

    /// The transition relation of one poll: how the state moves, what is
    /// returned, and what happens to the wake signal (`w0` before, `w1`
    /// after).
    spec fn poll_rel(&self, next: &Self, r: Poll<Self::Output>, w0: bool, w1: bool) -> bool;

    /// Advance the computation one step.
    fn poll(&mut self, wake: &mut Volatile<bool>) -> (r: Poll<Self::Output>)
        requires
            old(self).pollable(),
        ensures
            old(self).poll_rel(final(self), r, old(wake).value(), final(wake).value()),
            old(self).ready_now() ==> r == Poll::Ready(old(self).ready_value()),
            r is Pending ==> final(self).pollable(),
            r is Pending ==> final(self).steps() < old(self).steps(),
            old(wake).value() ==> final(wake).value(),
    ;
}

/// An adapter translating a blocking-with-retry serial driver into the
/// asynchronous capability contract: one byte in flight at a time, no
/// internal buffering.
pub struct AsyncSerial<T>(pub T);

impl<T> AsyncSerial<T> {
    pub fn new(serial: T) -> (r: AsyncSerial<T>)
        ensures
            r.0 == serial,
    {
        AsyncSerial(serial)
    }
}

impl<T> core::convert::From<T> for AsyncSerial<T> {
    fn from(serial: T) -> (r: AsyncSerial<T>) {
        AsyncSerial(serial)
    }
}

impl<T> vstd::std_specs::convert::FromSpecImpl<T> for AsyncSerial<T> {
    open spec fn obeys_from_spec() -> bool {
        true
    }

    open spec fn from_spec(serial: T) -> AsyncSerial<T> {
        AsyncSerial(serial)
    }
}

impl<T: hal::SerialRead> io::AsyncRead for AsyncSerial<T> {
    type Error = T::Error;

    open spec fn steps(&self) -> nat {
        self.0.steps()
    }

    open spec fn read_rel(
        &self,
        next: &Self,
        space: nat,
        delivered: Seq<u8>,
        r: Poll<Result<usize, T::Error>>,
        w0: bool,
        w1: bool,
    ) -> bool {
        &&& w1 == w0
        &&& if space == 0 {
            // No room offered: reports zero without touching the driver.
            &&& r == Poll::Ready(Result::<usize, T::Error>::Ok(0))
            &&& next == self
            &&& delivered == Seq::<u8>::empty()
        } else {
            match r {
                Poll::Pending => {
                    &&& delivered == Seq::<u8>::empty()
                    &&& self.0.read_rel(&next.0, Result::Err(hal::NbError::WouldBlock))
                },
                Poll::Ready(Result::Ok(n)) => {
                    // A successful transfer moves exactly one byte.
                    &&& n == 1
                    &&& delivered.len() == 1
                    &&& self.0.read_rel(&next.0, Result::Ok(delivered[0]))
                },
                Poll::Ready(Result::Err(e)) => {
                    &&& delivered == Seq::<u8>::empty()
                    &&& self.0.read_rel(&next.0, Result::Err(hal::NbError::Other(e)))
                },
            }
        }
    }

    fn poll_read(&mut self, wake: &mut Volatile<bool>, buf: &mut Vec<u8>, from: usize) -> (r: Poll<
        Result<usize, T::Error>,
    >) {
        if from < buf.len() {
            match self.0.read() {
                Ok(byte) => {
                    buf.set(from, byte);
                    proof {
                        assert(buf@.subrange(from as int, from + 1) =~= seq![byte]);
                    }
                    Poll::Ready(Ok(1))
                },
                Err(hal::NbError::WouldBlock) => Poll::Pending,
                Err(hal::NbError::Other(err)) => Poll::Ready(Err(err)),
            }
        } else {
            proof {
                assert(buf@.subrange(from as int, from as int) =~= Seq::<u8>::empty());
            }
            Poll::Ready(Ok(0))
        }
    }
}

impl<T: hal::SerialWrite> io::AsyncWrite for AsyncSerial<T> {
    type Error = T::Error;

    open spec fn steps(&self) -> nat {
        self.0.steps()
    }

    open spec fn write_rel(
        &self,
        next: &Self,
        avail: nat,
        consumed: Seq<u8>,
        r: Poll<Result<usize, T::Error>>,
        w0: bool,
        w1: bool,
    ) -> bool {
        &&& w1 == w0
        &&& if avail == 0 {
            // Nothing offered: reports zero without touching the driver.
            &&& r == Poll::Ready(Result::<usize, T::Error>::Ok(0))
            &&& next == self
            &&& consumed == Seq::<u8>::empty()
        } else {
            match r {
                Poll::Pending => {
                    &&& consumed == Seq::<u8>::empty()
                    &&& hal::serial_offered(
                        &self.0,
                        &next.0,
                        Result::Err(hal::NbError::WouldBlock),
                    )
                },
                Poll::Ready(Result::Ok(n)) => {
                    // A successful transfer moves exactly one byte.
                    &&& n == 1
                    &&& consumed.len() == 1
                    &&& self.0.write_rel(&next.0, consumed[0], Result::Ok(()))
                },
                Poll::Ready(Result::Err(e)) => {
                    &&& consumed == Seq::<u8>::empty()
                    &&& hal::serial_offered(
                        &self.0,
                        &next.0,
                        Result::Err(hal::NbError::Other(e)),
                    )
                },
            }
        }
    }

    open spec fn flush_rel(
        &self,
        next: &Self,
        r: Poll<Result<(), T::Error>>,
        w0: bool,
        w1: bool,
    ) -> bool {
        &&& w1 == w0
        &&& match r {
            Poll::Pending => self.0.flush_rel(&next.0, Result::Err(hal::NbError::WouldBlock)),
            Poll::Ready(Result::Ok(u)) => self.0.flush_rel(&next.0, Result::Ok(())),
            Poll::Ready(Result::Err(e)) => self.0.flush_rel(
                &next.0,
                Result::Err(hal::NbError::Other(e)),
            ),
        }
    }

    open spec fn close_rel(
        &self,
        next: &Self,
        r: Poll<Result<(), T::Error>>,
        w0: bool,
        w1: bool,
    ) -> bool {
        // Closing a serial port is a no-op: it succeeds without touching
        // the driver.
        &&& w1 == w0
        &&& r == Poll::Ready(Result::<(), T::Error>::Ok(()))
        &&& next == self
    }

    fn poll_write(&mut self, wake: &mut Volatile<bool>, buf: &Vec<u8>, from: usize) -> (r: Poll<
        Result<usize, T::Error>,
    >) {
        if from < buf.len() {
            let byte = buf[from];
            match self.0.write(byte) {
                Ok(u) => {
                    proof {
                        assert(buf@.subrange(from as int, from + 1) =~= seq![byte]);
                    }
                    Poll::Ready(Ok(1))
                },
                Err(hal::NbError::WouldBlock) => {
                    proof {
                        assert(hal::serial_offered(
                            &old(self).0,
                            &self.0,
                            Result::<(), hal::NbError<T::Error>>::Err(hal::NbError::WouldBlock),
                        )) by {
                            assert(old(self).0.write_rel(
                                &self.0,
                                byte,
                                Result::Err(hal::NbError::WouldBlock),
                            ));
                        }
                    }
                    Poll::Pending
                },
                Err(hal::NbError::Other(err)) => {
                    proof {
                        assert(hal::serial_offered(
                            &old(self).0,
                            &self.0,
                            Result::<(), hal::NbError<T::Error>>::Err(hal::NbError::Other(err)),
                        )) by {
                            assert(old(self).0.write_rel(
                                &self.0,
                                byte,
                                Result::Err(hal::NbError::Other(err)),
                            ));
                        }
                    }
                    Poll::Ready(Err(err))
                },
            }
        } else {
            proof {
                assert(buf@.subrange(from as int, from as int) =~= Seq::<u8>::empty());
            }
            Poll::Ready(Ok(0))
        }
    }

    fn poll_flush(&mut self, wake: &mut Volatile<bool>) -> (r: Poll<Result<(), T::Error>>) {
        match self.0.flush() {
            Ok(u) => Poll::Ready(Ok(())),
            Err(hal::NbError::WouldBlock) => Poll::Pending,
            Err(hal::NbError::Other(err)) => Poll::Ready(Err(err)),
        }
    }

    fn poll_close(&mut self, wake: &mut Volatile<bool>) -> (r: Poll<Result<(), T::Error>>) {
        Poll::Ready(Ok(()))
    }
}

/// The basic cooperative-yield point: `Pending` on its first poll, `Ready`
/// on every poll thereafter. Reusing an already-fired instance has no
/// further effect.
pub struct Yield(pub bool);

impl Default for Yield {
    fn default() -> (r: Yield)
        ensures
            !r.0,
    {
        Yield(false)
    }
}

impl Future for Yield {
    type Output = ();

    open spec fn pollable(&self) -> bool {
        true
    }

    open spec fn steps(&self) -> nat {
        if self.0 {
            0
        } else {
            1
        }
    }

    open spec fn ready_now(&self) -> bool {
        self.0
    }

    open spec fn ready_value(&self) -> () {
        ()
    }

    open spec fn poll_rel(&self, next: &Yield, r: Poll<()>, w0: bool, w1: bool) -> bool {
        &&& w1 == w0
        &&& next.0
        &&& if self.0 {
            r == Poll::<()>::Ready(())
        } else {
            r is Pending
        }
    }

    fn poll(&mut self, wake: &mut Volatile<bool>) -> (r: Poll<()>) {
        if self.0 {
            Poll::Ready(())
        } else {
            self.0 = true;
            Poll::Pending
        }
    }
}

} // verus!
