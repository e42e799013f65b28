//! The byte-oriented asynchronous read/write capability contract.
#![allow(unused_imports)]
use vstd::prelude::*;

use crate::Poll;
use crate::executor::Volatile;

mod ext;

pub use ext::AsyncReadExt;
pub use ext::AsyncWriteExt;
pub use ext::Close;
pub use ext::Flush;
pub use ext::Read;
pub use ext::ReadExact;
pub use ext::ReadExactError;
pub use ext::Write;
pub use ext::WriteAll;
pub use ext::WriteAllError;

verus! {

/// The bytes a read handed over: the slice of the destination it filled, or
/// nothing when it did not complete with a count.
pub open spec fn read_delivered<E>(
    buf1: Seq<u8>,
    from: int,
    r: Poll<Result<usize, E>>,
) -> Seq<u8> {
    match r {
        Poll::Ready(Ok(n)) => buf1.subrange(from, from + n),
        _ => Seq::empty(),
    }
}

/// The bytes a write handed to the sink: the consumed prefix of the source
/// slice, or nothing when it did not complete with a count.
pub open spec fn write_consumed<E>(
    buf: Seq<u8>,
    from: int,
    r: Poll<Result<usize, E>>,
) -> Seq<u8> {
    match r {
        Poll::Ready(Ok(n)) => buf.subrange(from, from + n),
        _ => Seq::empty(),
    }
}

/// Read bytes asynchronously.
///
/// `poll_read` attempts to fill `buf` from position `from` onward with as
/// much as is currently available. `Ready(Ok(n))` with `n == 0` while space
/// remains means end of input; `Pending` means try again later. A transient
/// "would block" condition is never surfaced as an error: it must be mapped
/// to `Pending`. Each implementation publishes the exact behaviour of one
/// poll as its `read_rel` relation, and bounds its consecutive `Pending`
/// answers by `steps`.
pub trait AsyncRead: Sized {
    type Error;

    /// A bound on the number of further polls that may report `Pending`.
    spec fn steps(&self) -> nat;

    /// The transition relation of one `poll_read`: how the source state
    /// moves when offered `space` bytes of room, which bytes (`delivered`)
    /// were placed, and what happens to the wake signal.
    spec fn read_rel(
        &self,
        next: &Self,
        space: nat,
        delivered: Seq<u8>,
        r: Poll<Result<usize, Self::Error>>,
        w0: bool,
        w1: bool,
    ) -> bool;

    /// Attempt to read into `buf[from..]`, returning how many bytes were
    /// placed there.
    fn poll_read(&mut self, wake: &mut Volatile<bool>, buf: &mut Vec<u8>, from: usize) -> (r: Poll<
        Result<usize, Self::Error>,
    >)
        requires
            from <= old(buf)@.len(),
        ensures
            final(buf)@.len() == old(buf)@.len(),
            forall|i: int| 0 <= i < from ==> final(buf)@[i] == old(buf)@[i],
            (r matches Poll::Ready(Result::Ok(n)) ==> from + n <= old(buf)@.len() && (forall|i: int|
                from + n <= i < old(buf)@.len() ==> final(buf)@[i] == old(buf)@[i])),
            !(r matches Poll::Ready(Result::Ok(_))) ==> final(buf)@ == old(buf)@,
            final(self).steps() <= old(self).steps(),
            r is Pending ==> final(self).steps() < old(self).steps(),
            old(wake).value() ==> final(wake).value(),
            old(self).read_rel(
                final(self),
                (old(buf)@.len() - from) as nat,
                read_delivered(final(buf)@, from as int, r),
                r,
                old(wake).value(),
                final(wake).value(),
            ),
    ;
}

/// Write bytes asynchronously.
///
/// `poll_write` attempts to consume a prefix of `buf[from..]`;
/// `Ready(Ok(0))` with bytes remaining means the sink made no progress,
/// `Pending` means try again later. As for reads, "would block" is always
/// mapped to `Pending`, one poll's behaviour is published as `write_rel`
/// (and `flush_rel`, `close_rel` for the drain and terminate operations),
/// and `steps` bounds consecutive `Pending` answers.
pub trait AsyncWrite: Sized {
    type Error;

    /// A bound on the number of further polls that may report `Pending`.
    spec fn steps(&self) -> nat;

    /// The transition relation of one `poll_write`: how the sink state
    /// moves when offered `avail` bytes, and which bytes (`consumed`) it
    /// took.
    spec fn write_rel(
        &self,
        next: &Self,
        avail: nat,
        consumed: Seq<u8>,
        r: Poll<Result<usize, Self::Error>>,
        w0: bool,
        w1: bool,
    ) -> bool;

    /// The transition relation of one `poll_flush`.
    spec fn flush_rel(&self, next: &Self, r: Poll<Result<(), Self::Error>>, w0: bool, w1: bool) -> bool;

    /// The transition relation of one `poll_close`.
    spec fn close_rel(&self, next: &Self, r: Poll<Result<(), Self::Error>>, w0: bool, w1: bool) -> bool;

    /// Attempt to write from `buf[from..]`, returning how many bytes the
    /// sink consumed.
    fn poll_write(&mut self, wake: &mut Volatile<bool>, buf: &Vec<u8>, from: usize) -> (r: Poll<
        Result<usize, Self::Error>,
    >)
        requires
            from <= buf@.len(),
        ensures
            (r matches Poll::Ready(Result::Ok(n)) ==> from + n <= buf@.len()),
            final(self).steps() <= old(self).steps(),
            r is Pending ==> final(self).steps() < old(self).steps(),
            old(wake).value() ==> final(wake).value(),
            old(self).write_rel(
                final(self),
                (buf@.len() - from) as nat,
                write_consumed(buf@, from as int, r),
                r,
                old(wake).value(),
                final(wake).value(),
            ),
    ;

    /// Attempt to drain buffered data to the destination.
    fn poll_flush(&mut self, wake: &mut Volatile<bool>) -> (r: Poll<Result<(), Self::Error>>)
        ensures
            final(self).steps() <= old(self).steps(),
            r is Pending ==> final(self).steps() < old(self).steps(),
            old(wake).value() ==> final(wake).value(),
            old(self).flush_rel(final(self), r, old(wake).value(), final(wake).value()),
    ;

    /// Attempt to terminate the byte stream.
    fn poll_close(&mut self, wake: &mut Volatile<bool>) -> (r: Poll<Result<(), Self::Error>>)
        ensures
            final(self).steps() <= old(self).steps(),
            r is Pending ==> final(self).steps() < old(self).steps(),
            old(wake).value() ==> final(wake).value(),
            old(self).close_rel(final(self), r, old(wake).value(), final(wake).value()),
    ;
}

} // verus!
