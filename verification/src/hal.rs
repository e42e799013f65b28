//! The blocking-with-retry driver capability contract.
//!
//! A peripheral driver exposes byte transfers with three outcomes: success,
//! "would block now" (try again), or a terminal driver error. The peripheral
//! adapters translate this shape into the asynchronous capability contract;
//! the hardware-facing implementations live outside the verified core.
//!
//! Each trait carries a `steps` bound on consecutive "would block" outcomes:
//! the explicit form of the liveness assumption that a polled peripheral
//! eventually becomes ready.
#![allow(unused_imports)]
use vstd::prelude::*;

verus! {

/// The error side of a blocking-with-retry transfer: a transient "try
/// again", or a terminal driver error.
#[derive(Clone, Copy, Debug, PartialEq, Eq)]
pub enum NbError<E> {
    WouldBlock,
    Other(E),
}

/// The transmitter was offered some byte and answered `r`: the shape a
/// send attempt leaves in a transition relation when the byte itself does
/// not matter.
pub open spec fn serial_offered<T: SerialWrite>(
    t0: &T,
    t1: &T,
    r: Result<(), NbError<T::Error>>,
) -> bool {
    exists|b: u8| t0.write_rel(t1, b, r)
}

/// The full-duplex port was offered some byte and answered `r`.
pub open spec fn spi_offered<T: SpiFullDuplex>(
    t0: &T,
    t1: &T,
    r: Result<(), NbError<T::Error>>,
) -> bool {
    exists|b: u8| t0.send_rel(t1, b, r)
}

/// A serial receiver handing out one byte per successful call.
pub trait SerialRead: Sized {
    type Error;

    /// A bound on the number of further calls that may report `WouldBlock`.
    spec fn steps(&self) -> nat;

    /// The transition relation of one read attempt.
    spec fn read_rel(&self, next: &Self, r: Result<u8, NbError<Self::Error>>) -> bool;

    /// Attempt to receive one byte.
    fn read(&mut self) -> (r: Result<u8, NbError<Self::Error>>)
        ensures
            final(self).steps() <= old(self).steps(),
            r matches Result::Err(NbError::WouldBlock) ==> final(self).steps() < old(
                self,
            ).steps(),
            old(self).read_rel(final(self), r),
    ;
}

/// A serial transmitter consuming one byte per successful call.
pub trait SerialWrite: Sized {
    type Error;

    /// A bound on the number of further calls that may report `WouldBlock`.
    spec fn steps(&self) -> nat;

    /// The transition relation of one write attempt.
    spec fn write_rel(&self, next: &Self, byte: u8, r: Result<(), NbError<Self::Error>>) -> bool;

    /// The transition relation of one flush attempt.
    spec fn flush_rel(&self, next: &Self, r: Result<(), NbError<Self::Error>>) -> bool;

    /// Attempt to send one byte.
    fn write(&mut self, byte: u8) -> (r: Result<(), NbError<Self::Error>>)
        ensures
            final(self).steps() <= old(self).steps(),
            r matches Result::Err(NbError::WouldBlock) ==> final(self).steps() < old(
                self,
            ).steps(),
            old(self).write_rel(final(self), byte, r),
    ;

    /// Attempt to drain the transmitter.
    fn flush(&mut self) -> (r: Result<(), NbError<Self::Error>>)
        ensures
            final(self).steps() <= old(self).steps(),
            r matches Result::Err(NbError::WouldBlock) ==> final(self).steps() < old(
                self,
            ).steps(),
            old(self).flush_rel(final(self), r),
    ;
}

/// A full-duplex transfer port: every sent byte is answered by a received
/// one.
pub trait SpiFullDuplex: Sized {
    type Error;

    /// A bound on the number of further calls that may report `WouldBlock`.
    spec fn steps(&self) -> nat;

    /// The transition relation of one read attempt.
    spec fn read_rel(&self, next: &Self, r: Result<u8, NbError<Self::Error>>) -> bool;

    /// The transition relation of one send attempt.
    spec fn send_rel(&self, next: &Self, byte: u8, r: Result<(), NbError<Self::Error>>) -> bool;

    /// Attempt to take the byte answering the last sent one.
    fn read(&mut self) -> (r: Result<u8, NbError<Self::Error>>)
        ensures
            final(self).steps() <= old(self).steps(),
            r matches Result::Err(NbError::WouldBlock) ==> final(self).steps() < old(
                self,
            ).steps(),
            old(self).read_rel(final(self), r),
    ;

    /// Attempt to send one byte.
    fn send(&mut self, byte: u8) -> (r: Result<(), NbError<Self::Error>>)
        ensures
            final(self).steps() <= old(self).steps(),
            r matches Result::Err(NbError::WouldBlock) ==> final(self).steps() < old(
                self,
            ).steps(),
            old(self).send_rel(final(self), byte, r),
    ;
}

} // verus!
