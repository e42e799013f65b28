//! An adapter translating a blocking-with-retry full-duplex port into the
//! asynchronous capability contract.
#![allow(unused_imports)]
use vstd::prelude::*;
use vstd::pervasive::VecAdditionalExecFns;

use crate::executor::Volatile;
use crate::hal::{spi_offered, NbError, SpiFullDuplex};
use crate::io::{write_consumed, AsyncRead, AsyncWrite};
use crate::Poll;

verus! {

/// An adapter translating a blocking-with-retry full-duplex port into the
/// asynchronous capability contract: one byte in flight at a time, no
/// internal buffering. Flush and close are no-ops for such a port.
pub struct AsyncSpi<T>(pub T);

impl<T> AsyncSpi<T> {
    pub fn new(spi: T) -> (r: AsyncSpi<T>)
        ensures
            r.0 == spi,
    {
        AsyncSpi(spi)
    }
}

impl<T> core::convert::From<T> for AsyncSpi<T> {
    fn from(spi: T) -> (r: AsyncSpi<T>) {
        AsyncSpi(spi)
    }
}

impl<T> vstd::std_specs::convert::FromSpecImpl<T> for AsyncSpi<T> {
    open spec fn obeys_from_spec() -> bool {
        true
    }

    open spec fn from_spec(spi: T) -> AsyncSpi<T> {
        AsyncSpi(spi)
    }
}

impl<T: SpiFullDuplex> AsyncRead for AsyncSpi<T> {
    type Error = T::Error;

    open spec fn steps(&self) -> nat {
        self.0.steps()
    }

    open spec fn read_rel(
        &self,
        next: &Self,
        space: nat,
        delivered: Seq<u8>,
        r: Poll<Result<usize, T::Error>>,
        w0: bool,
        w1: bool,
    ) -> bool {
        &&& w1 == w0
        &&& if space == 0 {
            // No room offered: reports zero without touching the driver.
            &&& r == Poll::Ready(Result::<usize, T::Error>::Ok(0))
            &&& next == self
            &&& delivered == Seq::<u8>::empty()
        } else {
            match r {
                Poll::Pending => {
                    &&& delivered == Seq::<u8>::empty()
                    &&& self.0.read_rel(&next.0, Result::Err(NbError::WouldBlock))
                },
                Poll::Ready(Result::Ok(n)) => {
                    // A successful transfer moves exactly one byte.
                    &&& n == 1
                    &&& delivered.len() == 1
                    &&& self.0.read_rel(&next.0, Result::Ok(delivered[0]))
                },
                Poll::Ready(Result::Err(e)) => {
                    &&& delivered == Seq::<u8>::empty()
                    &&& self.0.read_rel(&next.0, Result::Err(NbError::Other(e)))
                },
            }
        }
    }

    fn poll_read(&mut self, wake: &mut Volatile<bool>, buf: &mut Vec<u8>, from: usize) -> (r: Poll<
        Result<usize, T::Error>,
    >) {
        if from < buf.len() {
            match self.0.read() {
                Ok(byte) => {
                    buf.set(from, byte);
                    proof {
                        assert(buf@.subrange(from as int, from + 1) =~= seq![byte]);
                    }
                    Poll::Ready(Ok(1))
                },
                Err(NbError::WouldBlock) => Poll::Pending,
                Err(NbError::Other(err)) => Poll::Ready(Err(err)),
            }
        } else {
            proof {
                assert(buf@.subrange(from as int, from as int) =~= Seq::<u8>::empty());
            }
            Poll::Ready(Ok(0))
        }
    }
}

impl<T: SpiFullDuplex> AsyncWrite for AsyncSpi<T> {
    type Error = T::Error;

    open spec fn steps(&self) -> nat {
        self.0.steps()
    }

    open spec fn write_rel(
        &self,
        next: &Self,
        avail: nat,
        consumed: Seq<u8>,
        r: Poll<Result<usize, T::Error>>,
        w0: bool,
        w1: bool,
    ) -> bool {
        &&& w1 == w0
        &&& if avail == 0 {
            // Nothing offered: reports zero without touching the port.
            &&& r == Poll::Ready(Result::<usize, T::Error>::Ok(0))
            &&& next == self
            &&& consumed == Seq::<u8>::empty()
        } else {
            match r {
                Poll::Pending => {
                    &&& consumed == Seq::<u8>::empty()
                    &&& spi_offered(&self.0, &next.0, Result::Err(NbError::WouldBlock))
                },
                Poll::Ready(Result::Ok(n)) => {
                    // A successful transfer moves exactly one byte.
                    &&& n == 1
                    &&& consumed.len() == 1
                    &&& self.0.send_rel(&next.0, consumed[0], Result::Ok(()))
                },
                Poll::Ready(Result::Err(e)) => {
                    &&& consumed == Seq::<u8>::empty()
                    &&& spi_offered(&self.0, &next.0, Result::Err(NbError::Other(e)))
                },
            }
        }
    }

    open spec fn flush_rel(
        &self,
        next: &Self,
        r: Poll<Result<(), T::Error>>,
        w0: bool,
        w1: bool,
    ) -> bool {
        // A full-duplex port buffers nothing: flushing succeeds without
        // touching it.
        &&& w1 == w0
        &&& r == Poll::Ready(Result::<(), T::Error>::Ok(()))
        &&& next == self
    }

    open spec fn close_rel(
        &self,
        next: &Self,
        r: Poll<Result<(), T::Error>>,
        w0: bool,
        w1: bool,
    ) -> bool {
        &&& w1 == w0
        &&& r == Poll::Ready(Result::<(), T::Error>::Ok(()))
        &&& next == self
    }

    fn poll_write(&mut self, wake: &mut Volatile<bool>, buf: &Vec<u8>, from: usize) -> (r: Poll<
        Result<usize, T::Error>,
    >) {
        if from < buf.len() {
            let byte = buf[from];
            match self.0.send(byte) {
                Ok(u) => {
                    proof {
                        assert(buf@.subrange(from as int, from + 1) =~= seq![byte]);
                    }
                    Poll::Ready(Ok(1))
                },
                Err(NbError::WouldBlock) => {
                    proof {
                        assert(spi_offered(
                            &old(self).0,
                            &self.0,
                            Result::<(), NbError<T::Error>>::Err(NbError::WouldBlock),
                        )) by {
                            assert(old(self).0.send_rel(
                                &self.0,
                                byte,
                                Result::Err(NbError::WouldBlock),
                            ));
                        }
                    }
                    Poll::Pending
                },
                Err(NbError::Other(err)) => {
                    proof {
                        assert(spi_offered(
                            &old(self).0,
                            &self.0,
                            Result::<(), NbError<T::Error>>::Err(NbError::Other(err)),
                        )) by {
                            assert(old(self).0.send_rel(
                                &self.0,
                                byte,
                                Result::Err(NbError::Other(err)),
                            ));
                        }
                    }
                    Poll::Ready(Err(err))
                },
            }
        } else {
            proof {
                assert(buf@.subrange(from as int, from as int) =~= Seq::<u8>::empty());
            }
            Poll::Ready(Ok(0))
        }
    }

    fn poll_flush(&mut self, wake: &mut Volatile<bool>) -> (r: Poll<Result<(), T::Error>>) {
        Poll::Ready(Ok(()))
    }

    fn poll_close(&mut self, wake: &mut Volatile<bool>) -> (r: Poll<Result<(), T::Error>>) {
        Poll::Ready(Ok(()))
    }
}

} // verus!
