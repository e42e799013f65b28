//! Utility constructors layered over the read/write capability contract.
#![allow(unused_imports)]
use vstd::prelude::*;

use super::{AsyncRead, AsyncWrite};

mod read;
mod write;

pub use read::Read;
pub use read::ReadExact;
pub use read::ReadExactError;
pub use write::Close;
pub use write::Flush;
pub use write::Write;
pub use write::WriteAll;
pub use write::WriteAllError;

verus! {

/// An extension trait which adds utility methods to `AsyncRead` types.
pub trait AsyncReadExt: AsyncRead {
    /// A computation that reads whatever is available now into `buf`,
    /// resolving to the number of bytes read.
    fn read(self, buf: Vec<u8>) -> (r: Read<Self>)
        ensures
            r.reader == self,
            r.buf == buf,
            !r.done,
    ;

    /// A computation that reads exactly enough bytes to fill `buf`,
    /// resolving to an `UnexpectedEof` error if end of input is hit sooner.
    fn read_exact(self, buf: Vec<u8>) -> (r: ReadExact<Self>)
        ensures
            r.reader == self,
            r.buf == buf,
            r.pos == 0,
            !r.done,
    ;
}

impl<R: AsyncRead> AsyncReadExt for R {
    fn read(self, buf: Vec<u8>) -> (r: Read<R>) {
        Read::new(self, buf)
    }

    fn read_exact(self, buf: Vec<u8>) -> (r: ReadExact<R>) {
        ReadExact::new(self, buf)
    }
}

/// An extension trait which adds utility methods to `AsyncWrite` types.
pub trait AsyncWriteExt: AsyncWrite {
    /// A computation that entirely flushes this writer.
    fn flush(self) -> (r: Flush<Self>)
        ensures
            r.writer == self,
            !r.done,
    ;

    /// A computation that closes this writer.
    fn close(self) -> (r: Close<Self>)
        ensures
            r.writer == self,
            !r.done,
    ;

    /// A computation that writes a prefix of `buf` into this writer,
    /// resolving to the number of bytes written.
    fn write(self, buf: Vec<u8>) -> (r: Write<Self>)
        ensures
            r.writer == self,
            r.buf == buf,
            !r.done,
    ;

    /// A computation that writes the entire contents of `buf` into this
    /// writer, resolving to a `WriteZero` error if the writer stops making
    /// progress.
    fn write_all(self, buf: Vec<u8>) -> (r: WriteAll<Self>)
        ensures
            r.writer == self,
            r.buf == buf,
            r.pos == 0,
            !r.done,
    ;
}

impl<W: AsyncWrite> AsyncWriteExt for W {
    fn flush(self) -> (r: Flush<W>) {
        Flush::new(self)
    }

    fn close(self) -> (r: Close<W>) {
        Close::new(self)
    }

    fn write(self, buf: Vec<u8>) -> (r: Write<W>) {
        Write::new(self, buf)
    }

    fn write_all(self, buf: Vec<u8>) -> (r: WriteAll<W>) {
        WriteAll::new(self, buf)
    }
}

} // verus!
