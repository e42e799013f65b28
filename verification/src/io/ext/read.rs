//! Read combinators: a single read, and an exact fill.
#![allow(unused_imports)]
use vstd::prelude::*;

use crate::executor::Volatile;
use crate::io::{read_delivered, AsyncRead};
use crate::{Future, Poll};

verus! {

/// A computation that performs a single `poll_read` into the start of its
/// buffer and resolves with that poll's result.
pub struct Read<R> {
    pub reader: R,
    pub buf: Vec<u8>,
    pub done: bool,
}

impl<R: AsyncRead> Read<R> {
    pub fn new(reader: R, buf: Vec<u8>) -> (r: Read<R>)
        ensures
            r.reader == reader,
            r.buf == buf,
            !r.done,
    {
        Read { reader, buf, done: false }
    }
}

impl<R: AsyncRead> Future for Read<R> {
    type Output = Result<usize, R::Error>;

    open spec fn pollable(&self) -> bool {
        !self.done
    }

    open spec fn steps(&self) -> nat {
        self.reader.steps()
    }

    open spec fn ready_now(&self) -> bool {
        false
    }

    open spec fn ready_value(&self) -> Result<usize, R::Error> {
        Result::Ok(0)
    }

    open spec fn poll_rel(
        &self,
        next: &Self,
        r: Poll<Result<usize, R::Error>>,
        w0: bool,
        w1: bool,
    ) -> bool {
        &&& next.buf@.len() == self.buf@.len()
        &&& next.done == !(r is Pending)
        &&& r is Pending ==> next.buf@ == self.buf@
        &&& self.reader.read_rel(
            &next.reader,
            self.buf@.len(),
            read_delivered(next.buf@, 0, r),
            r,
            w0,
            w1,
        )
    }

    fn poll(&mut self, wake: &mut Volatile<bool>) -> (r: Poll<Result<usize, R::Error>>) {
        let r = self.reader.poll_read(wake, &mut self.buf, 0);
        match r {
            Poll::Pending => Poll::Pending,
            Poll::Ready(res) => {
                self.done = true;
                Poll::Ready(res)
            },
        }
    }
}

/// A computation that keeps reading until its buffer is full.
///
/// The cursor `pos` marks how much of the buffer has been filled; it only
/// grows, and on an error the prefix below it holds the bytes already
/// transferred. Each poll performs at most one read of the source: partial
/// progress reports `Pending`, and the busy-polling executor supplies the
/// next poll at once. A completed or failed instance must not be polled
/// again.
pub struct ReadExact<R> {
    pub reader: R,
    pub buf: Vec<u8>,
    pub pos: usize,
    pub done: bool,
}

/// The error of an exact fill: the source ended before the buffer was
/// full, or the source itself failed.
#[derive(Clone, Copy, Debug, PartialEq, Eq)]
pub enum ReadExactError<E> {
    UnexpectedEof,
    Other(E),
}

impl<E> core::convert::From<E> for ReadExactError<E> {
    fn from(err: E) -> (r: ReadExactError<E>) {
        ReadExactError::Other(err)
    }
}

impl<E> vstd::std_specs::convert::FromSpecImpl<E> for ReadExactError<E> {
    open spec fn obeys_from_spec() -> bool {
        true
    }

    open spec fn from_spec(err: E) -> ReadExactError<E> {
        ReadExactError::Other(err)
    }
}

impl<R: AsyncRead> ReadExact<R> {
    pub fn new(reader: R, buf: Vec<u8>) -> (r: ReadExact<R>)
        ensures
            r.reader == reader,
            r.buf == buf,
            r.pos == 0,
            !r.done,
    {
        ReadExact { reader, buf, pos: 0, done: false }
    }
}

impl<R: AsyncRead> Future for ReadExact<R> {
    type Output = Result<(), ReadExactError<R::Error>>;

    open spec fn pollable(&self) -> bool {
        !self.done && self.pos <= self.buf@.len()
    }

    open spec fn steps(&self) -> nat {
        (self.reader.steps() + self.buf@.len() - self.pos) as nat
    }

    open spec fn ready_now(&self) -> bool {
        !self.done && self.pos == self.buf@.len()
    }

    open spec fn ready_value(&self) -> Result<(), ReadExactError<R::Error>> {
        Result::Ok(())
    }

    open spec fn poll_rel(
        &self,
        next: &Self,
        r: Poll<Result<(), ReadExactError<R::Error>>>,
        w0: bool,
        w1: bool,
    ) -> bool {
        let len = self.buf@.len();
        &&& next.buf@.len() == len
        &&& (forall|i: int| 0 <= i < self.pos ==> next.buf@[i] == self.buf@[i])
        &&& if self.pos == len {
            // Nothing left to fill: resolves without touching the source.
            &&& r == Poll::Ready(Result::<(), ReadExactError<R::Error>>::Ok(()))
            &&& next.reader == self.reader
            &&& next.pos == self.pos
            &&& next.buf@ == self.buf@
            &&& next.done
            &&& w1 == w0
        } else {
            match r {
                Poll::Pending => {
                    &&& !next.done
                    &&& self.pos <= next.pos < len
                    &&& (forall|i: int| next.pos <= i < len ==> next.buf@[i] == self.buf@[i])
                    &&& if next.pos == self.pos {
                        // The source was not ready.
                        &&& next.buf@ == self.buf@
                        &&& self.reader.read_rel(
                            &next.reader,
                            (len - self.pos) as nat,
                            Seq::empty(),
                            Poll::Pending,
                            w0,
                            w1,
                        )
                    } else {
                        // Partial progress: the source delivered the bytes
                        // now sitting between the old and new cursor.
                        self.reader.read_rel(
                            &next.reader,
                            (len - self.pos) as nat,
                            next.buf@.subrange(self.pos as int, next.pos as int),
                            Poll::Ready(Result::Ok((next.pos - self.pos) as usize)),
                            w0,
                            w1,
                        )
                    }
                },
                Poll::Ready(Result::Ok(u)) => {
                    // The final read filled the buffer.
                    &&& next.pos == len
                    &&& next.done
                    &&& self.reader.read_rel(
                        &next.reader,
                        (len - self.pos) as nat,
                        next.buf@.subrange(self.pos as int, len as int),
                        Poll::Ready(Result::Ok((len - self.pos) as usize)),
                        w0,
                        w1,
                    )
                },
                Poll::Ready(Result::Err(ReadExactError::UnexpectedEof)) => {
                    // A successful zero-byte read while space remained.
                    &&& next.pos == self.pos
                    &&& next.buf@ == self.buf@
                    &&& next.done
                    &&& self.reader.read_rel(
                        &next.reader,
                        (len - self.pos) as nat,
                        Seq::empty(),
                        Poll::Ready(Result::Ok(0)),
                        w0,
                        w1,
                    )
                },
                Poll::Ready(Result::Err(ReadExactError::Other(e))) => {
                    // The source failed.
                    &&& next.pos == self.pos
                    &&& next.buf@ == self.buf@
                    &&& next.done
                    &&& self.reader.read_rel(
                        &next.reader,
                        (len - self.pos) as nat,
                        Seq::empty(),
                        Poll::Ready(Result::Err(e)),
                        w0,
                        w1,
                    )
                },
            }
        }
    }

    fn poll(&mut self, wake: &mut Volatile<bool>) -> (r: Poll<
        Result<(), ReadExactError<R::Error>>,
    >) {
        if self.pos == self.buf.len() {
            self.done = true;
            return Poll::Ready(Ok(()));
        }
        match self.reader.poll_read(wake, &mut self.buf, self.pos) {
            Poll::Pending => Poll::Pending,
            Poll::Ready(Ok(n)) => {
                if n == 0 {
                    self.done = true;
                    proof {
                        assert(self.buf@.subrange(self.pos as int, self.pos as int)
                            =~= Seq::<u8>::empty());
                        assert(self.buf@ =~= old(self).buf@);
                    }
                    Poll::Ready(Err(ReadExactError::UnexpectedEof))
                } else {
                    self.pos = self.pos + n;
                    if self.pos == self.buf.len() {
                        self.done = true;
                        Poll::Ready(Ok(()))
                    } else {
                        Poll::Pending
                    }
                }
            },
            Poll::Ready(Err(e)) => {
                self.done = true;
                Poll::Ready(Err(ReadExactError::Other(e)))
            },
        }
    }
}

} // verus!
