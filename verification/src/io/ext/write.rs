//! Write combinators: a single write, a full drain, flush and close.
#![allow(unused_imports)]
use vstd::prelude::*;

use crate::executor::Volatile;
use crate::io::{write_consumed, AsyncWrite};
use crate::{Future, Poll};

verus! {

/// A computation that performs a single `poll_write` from the start of its
/// buffer and resolves with that poll's result.
pub struct Write<W> {
    pub writer: W,
    pub buf: Vec<u8>,
    pub done: bool,
}

impl<W: AsyncWrite> Write<W> {
    pub fn new(writer: W, buf: Vec<u8>) -> (r: Write<W>)
        ensures
            r.writer == writer,
            r.buf == buf,
            !r.done,
    {
        Write { writer, buf, done: false }
    }
}

impl<W: AsyncWrite> Future for Write<W> {
    type Output = Result<usize, W::Error>;

    open spec fn pollable(&self) -> bool {
        !self.done
    }

    open spec fn steps(&self) -> nat {
        self.writer.steps()
    }

    open spec fn ready_now(&self) -> bool {
        false
    }

    open spec fn ready_value(&self) -> Result<usize, W::Error> {
        Result::Ok(0)
    }

    open spec fn poll_rel(
        &self,
        next: &Self,
        r: Poll<Result<usize, W::Error>>,
        w0: bool,
        w1: bool,
    ) -> bool {
        &&& next.buf@ == self.buf@
        &&& next.done == !(r is Pending)
        &&& self.writer.write_rel(
            &next.writer,
            self.buf@.len(),
            write_consumed(self.buf@, 0, r),
            r,
            w0,
            w1,
        )
    }

    fn poll(&mut self, wake: &mut Volatile<bool>) -> (r: Poll<Result<usize, W::Error>>) {
        let r = self.writer.poll_write(wake, &self.buf, 0);
        match r {
            Poll::Pending => Poll::Pending,
            Poll::Ready(res) => {
                self.done = true;
                Poll::Ready(res)
            },
        }
    }
}

/// A computation that keeps writing until its whole buffer has been
/// consumed by the sink.
///
/// The cursor `pos` marks how much of the buffer the sink has taken; it
/// only grows. Each poll performs at most one write to the sink: partial
/// progress reports `Pending`, and the busy-polling executor supplies the
/// next poll at once. A zero-byte write while bytes remain is the terminal
/// `WriteZero` error. A completed or failed instance must not be polled
/// again.
pub struct WriteAll<W> {
    pub writer: W,
    pub buf: Vec<u8>,
    pub pos: usize,
    pub done: bool,
}

/// The error of a full drain: the sink stopped making progress, or the
/// sink itself failed.
#[derive(Clone, Copy, Debug, PartialEq, Eq)]
pub enum WriteAllError<E> {
    WriteZero,
    Other(E),
}

impl<E> core::convert::From<E> for WriteAllError<E> {
    fn from(err: E) -> (r: WriteAllError<E>) {
        WriteAllError::Other(err)
    }
}

impl<E> vstd::std_specs::convert::FromSpecImpl<E> for WriteAllError<E> {
    open spec fn obeys_from_spec() -> bool {
        true
    }

    open spec fn from_spec(err: E) -> WriteAllError<E> {
        WriteAllError::Other(err)
    }
}

impl<W: AsyncWrite> WriteAll<W> {
    pub fn new(writer: W, buf: Vec<u8>) -> (r: WriteAll<W>)
        ensures
            r.writer == writer,
            r.buf == buf,
            r.pos == 0,
            !r.done,
    {
        WriteAll { writer, buf, pos: 0, done: false }
    }
}

impl<W: AsyncWrite> Future for WriteAll<W> {
    type Output = Result<(), WriteAllError<W::Error>>;

    open spec fn pollable(&self) -> bool {
        !self.done && self.pos <= self.buf@.len()
    }

    open spec fn steps(&self) -> nat {
        (self.writer.steps() + self.buf@.len() - self.pos) as nat
    }

    open spec fn ready_now(&self) -> bool {
        !self.done && self.pos == self.buf@.len()
    }

    open spec fn ready_value(&self) -> Result<(), WriteAllError<W::Error>> {
        Result::Ok(())
    }

    open spec fn poll_rel(
        &self,
        next: &Self,
        r: Poll<Result<(), WriteAllError<W::Error>>>,
        w0: bool,
        w1: bool,
    ) -> bool {
        let len = self.buf@.len();
        &&& next.buf@ == self.buf@
        &&& if self.pos == len {
            // Nothing left to drain: resolves without touching the sink.
            &&& r == Poll::Ready(Result::<(), WriteAllError<W::Error>>::Ok(()))
            &&& next.writer == self.writer
            &&& next.pos == self.pos
            &&& next.done
            &&& w1 == w0
        } else {
            match r {
                Poll::Pending => {
                    &&& !next.done
                    &&& self.pos <= next.pos < len
                    &&& if next.pos == self.pos {
                        // The sink was not ready.
                        self.writer.write_rel(
                            &next.writer,
                            (len - self.pos) as nat,
                            Seq::empty(),
                            Poll::Pending,
                            w0,
                            w1,
                        )
                    } else {
                        // Partial progress: the sink consumed the bytes
                        // between the old and new cursor.
                        self.writer.write_rel(
                            &next.writer,
                            (len - self.pos) as nat,
                            self.buf@.subrange(self.pos as int, next.pos as int),
                            Poll::Ready(Result::Ok((next.pos - self.pos) as usize)),
                            w0,
                            w1,
                        )
                    }
                },
                Poll::Ready(Result::Ok(u)) => {
                    // The final write consumed the rest of the buffer.
                    &&& next.pos == len
                    &&& next.done
                    &&& self.writer.write_rel(
                        &next.writer,
                        (len - self.pos) as nat,
                        self.buf@.subrange(self.pos as int, len as int),
                        Poll::Ready(Result::Ok((len - self.pos) as usize)),
                        w0,
                        w1,
                    )
                },
                Poll::Ready(Result::Err(WriteAllError::WriteZero)) => {
                    // A zero-byte write while bytes remained.
                    &&& next.pos == self.pos
                    &&& next.done
                    &&& self.writer.write_rel(
                        &next.writer,
                        (len - self.pos) as nat,
                        Seq::empty(),
                        Poll::Ready(Result::Ok(0)),
                        w0,
                        w1,
                    )
                },
                Poll::Ready(Result::Err(WriteAllError::Other(e))) => {
                    // The sink failed.
                    &&& next.pos == self.pos
                    &&& next.done
                    &&& self.writer.write_rel(
                        &next.writer,
                        (len - self.pos) as nat,
                        Seq::empty(),
                        Poll::Ready(Result::Err(e)),
                        w0,
                        w1,
                    )
                },
            }
        }
    }

    fn poll(&mut self, wake: &mut Volatile<bool>) -> (r: Poll<
        Result<(), WriteAllError<W::Error>>,
    >) {
        if self.pos == self.buf.len() {
            self.done = true;
            return Poll::Ready(Ok(()));
        }
        match self.writer.poll_write(wake, &self.buf, self.pos) {
            Poll::Pending => Poll::Pending,
            Poll::Ready(Ok(n)) => {
                if n == 0 {
                    self.done = true;
                    proof {
                        assert(self.buf@.subrange(self.pos as int, self.pos as int)
                            =~= Seq::<u8>::empty());
                    }
                    Poll::Ready(Err(WriteAllError::WriteZero))
                } else {
                    self.pos = self.pos + n;
                    if self.pos == self.buf.len() {
                        self.done = true;
                        Poll::Ready(Ok(()))
                    } else {
                        Poll::Pending
                    }
                }
            },
            Poll::Ready(Err(e)) => {
                self.done = true;
                Poll::Ready(Err(WriteAllError::Other(e)))
            },
        }
    }
}

/// A computation that resolves with the result of a single `poll_flush`.
pub struct Flush<W> {
    pub writer: W,
    pub done: bool,
}

impl<W: AsyncWrite> Flush<W> {
    pub fn new(writer: W) -> (r: Flush<W>)
        ensures
            r.writer == writer,
            !r.done,
    {
        Flush { writer, done: false }
    }
}

impl<W: AsyncWrite> Future for Flush<W> {
    type Output = Result<(), W::Error>;

    open spec fn pollable(&self) -> bool {
        !self.done
    }

    open spec fn steps(&self) -> nat {
        self.writer.steps()
    }

    open spec fn ready_now(&self) -> bool {
        false
    }

    open spec fn ready_value(&self) -> Result<(), W::Error> {
        Result::Ok(())
    }

    open spec fn poll_rel(
        &self,
        next: &Self,
        r: Poll<Result<(), W::Error>>,
        w0: bool,
        w1: bool,
    ) -> bool {
        &&& next.done == !(r is Pending)
        &&& self.writer.flush_rel(&next.writer, r, w0, w1)
    }

    fn poll(&mut self, wake: &mut Volatile<bool>) -> (r: Poll<Result<(), W::Error>>) {
        let r = self.writer.poll_flush(wake);
        match r {
            Poll::Pending => Poll::Pending,
            Poll::Ready(res) => {
                self.done = true;
                Poll::Ready(res)
            },
        }
    }
}

/// A computation that resolves with the result of a single `poll_close`.
pub struct Close<W> {
    pub writer: W,
    pub done: bool,
}

impl<W: AsyncWrite> Close<W> {
    pub fn new(writer: W) -> (r: Close<W>)
        ensures
            r.writer == writer,
            !r.done,
    {
        Close { writer, done: false }
    }
}

impl<W: AsyncWrite> Future for Close<W> {
    type Output = Result<(), W::Error>;

    open spec fn pollable(&self) -> bool {
        !self.done
    }

    open spec fn steps(&self) -> nat {
        self.writer.steps()
    }

    open spec fn ready_now(&self) -> bool {
        false
    }

    open spec fn ready_value(&self) -> Result<(), W::Error> {
        Result::Ok(())
    }

    open spec fn poll_rel(
        &self,
        next: &Self,
        r: Poll<Result<(), W::Error>>,
        w0: bool,
        w1: bool,
    ) -> bool {
        &&& next.done == !(r is Pending)
        &&& self.writer.close_rel(&next.writer, r, w0, w1)
    }

    fn poll(&mut self, wake: &mut Volatile<bool>) -> (r: Poll<Result<(), W::Error>>) {
        let r = self.writer.poll_close(wake);
        match r {
            Poll::Pending => Poll::Pending,
            Poll::Ready(res) => {
                self.done = true;
                Poll::Ready(res)
            },
        }
    }
}

} // verus!
