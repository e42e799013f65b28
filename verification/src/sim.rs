//! Scripted peripherals and computations: deterministic stand-ins for the
//! hardware-facing side of every capability contract, used to state and
//! prove what the runtime does against a known environment.
#![allow(unused_imports)]
use vstd::pervasive::VecAdditionalExecFns;
use vstd::prelude::*;

use crate::executor::Volatile;
use crate::hal;
use crate::io::{read_delivered, write_consumed, AsyncRead, AsyncWrite, ReadExact, ReadExactError, WriteAll, WriteAllError};
use crate::{Future, Poll};

verus! {

/// One scripted behaviour of a byte source.
#[derive(Clone, Copy, Debug, PartialEq, Eq)]
pub enum SourceEvent {
    /// Not ready yet: try again.
    Wait,
    /// One byte is available.
    Byte(u8),
    /// A terminal transport error with this code.
    Fail(u8),
}

/// One scripted behaviour of a byte sink.
#[derive(Clone, Copy, Debug, PartialEq, Eq)]
pub enum SinkEvent {
    /// Not ready yet: try again.
    Wait,
    /// Takes one byte.
    Take,
    /// Ready but consumes nothing: zero progress.
    Refuse,
    /// A terminal transport error with this code.
    Fail(u8),
}

/// A byte source that plays its events in order and reports end of input
/// once they are exhausted.
pub struct ScriptReader {
    pub events: Vec<SourceEvent>,
    pub cursor: usize,
}

impl ScriptReader {
    pub fn new(events: Vec<SourceEvent>) -> (r: ScriptReader)
        ensures
            r.events == events,
            r.cursor == 0,
    {
        ScriptReader { events, cursor: 0 }
    }
}

impl AsyncRead for ScriptReader {
    type Error = u8;

    open spec fn steps(&self) -> nat {
        if self.cursor <= self.events@.len() {
            (self.events@.len() - self.cursor) as nat
        } else {
            0
        }
    }

    open spec fn read_rel(
        &self,
        next: &Self,
        space: nat,
        delivered: Seq<u8>,
        r: Poll<Result<usize, u8>>,
        w0: bool,
        w1: bool,
    ) -> bool {
        &&& w1 == w0
        &&& next.events == self.events
        &&& if space == 0 {
            // No room offered: reports zero without playing an event.
            &&& r == Poll::Ready(Result::<usize, u8>::Ok(0))
            &&& next.cursor == self.cursor
            &&& delivered == Seq::<u8>::empty()
        } else if self.cursor >= self.events@.len() {
            // Script exhausted: end of input.
            &&& r == Poll::Ready(Result::<usize, u8>::Ok(0))
            &&& next.cursor == self.cursor
            &&& delivered == Seq::<u8>::empty()
        } else {
            &&& next.cursor == self.cursor + 1
            &&& match self.events@[self.cursor as int] {
                SourceEvent::Wait => r is Pending && delivered == Seq::<u8>::empty(),
                SourceEvent::Byte(b) => r == Poll::Ready(Result::<usize, u8>::Ok(1)) && delivered
                    == seq![b],
                SourceEvent::Fail(c) => r == Poll::Ready(Result::<usize, u8>::Err(c)) && delivered
                    == Seq::<u8>::empty(),
            }
        }
    }

    fn poll_read(&mut self, wake: &mut Volatile<bool>, buf: &mut Vec<u8>, from: usize) -> (r: Poll<
        Result<usize, u8>,
    >) {
        if from >= buf.len() || self.cursor >= self.events.len() {
            proof {
                assert(buf@.subrange(from as int, from as int) =~= Seq::<u8>::empty());
            }
            return Poll::Ready(Ok(0));
        }
        let ev = self.events[self.cursor];
        self.cursor = self.cursor + 1;
        match ev {
            SourceEvent::Wait => Poll::Pending,
            SourceEvent::Byte(b) => {
                buf.set(from, b);
                proof {
                    assert(buf@.subrange(from as int, from + 1) =~= seq![b]);
                }
                Poll::Ready(Ok(1))
            },
            SourceEvent::Fail(c) => Poll::Ready(Err(c)),
        }
    }
}

/// A byte sink that plays its events in order, records every byte it takes,
/// and accepts everything once its events are exhausted.
pub struct ScriptWriter {
    pub events: Vec<SinkEvent>,
    pub cursor: usize,
    pub written: Vec<u8>,
}

impl ScriptWriter {
    pub fn new(events: Vec<SinkEvent>) -> (r: ScriptWriter)
        ensures
            r.events == events,
            r.cursor == 0,
            r.written@ == Seq::<u8>::empty(),
    {
        ScriptWriter { events, cursor: 0, written: Vec::new() }
    }
}

impl AsyncWrite for ScriptWriter {
    type Error = u8;

    open spec fn steps(&self) -> nat {
        if self.cursor <= self.events@.len() {
            (self.events@.len() - self.cursor) as nat
        } else {
            0
        }
    }

    open spec fn write_rel(
        &self,
        next: &Self,
        avail: nat,
        consumed: Seq<u8>,
        r: Poll<Result<usize, u8>>,
        w0: bool,
        w1: bool,
    ) -> bool {
        &&& w1 == w0
        &&& next.events == self.events
        &&& if avail == 0 {
            // Nothing offered: reports zero without playing an event.
            &&& r == Poll::Ready(Result::<usize, u8>::Ok(0))
            &&& next.cursor == self.cursor
            &&& next.written == self.written
            &&& consumed == Seq::<u8>::empty()
        } else if self.cursor >= self.events@.len() {
            // Script exhausted: the sink settles into taking every byte.
            &&& r == Poll::Ready(Result::<usize, u8>::Ok(1))
            &&& next.cursor == self.cursor
            &&& consumed.len() == 1
            &&& next.written@ == self.written@ + consumed
        } else {
            &&& next.cursor == self.cursor + 1
            &&& match self.events@[self.cursor as int] {
                SinkEvent::Wait => r is Pending && consumed == Seq::<u8>::empty() && next.written
                    == self.written,
                SinkEvent::Take => r == Poll::Ready(Result::<usize, u8>::Ok(1)) && consumed.len()
                    == 1 && next.written@ == self.written@ + consumed,
                SinkEvent::Refuse => r == Poll::Ready(Result::<usize, u8>::Ok(0)) && consumed
                    == Seq::<u8>::empty() && next.written == self.written,
                SinkEvent::Fail(c) => r == Poll::Ready(Result::<usize, u8>::Err(c)) && consumed
                    == Seq::<u8>::empty() && next.written == self.written,
            }
        }
    }

    open spec fn flush_rel(&self, next: &Self, r: Poll<Result<(), u8>>, w0: bool, w1: bool) -> bool {
        // The sink buffers nothing: flushing succeeds without touching it.
        &&& w1 == w0
        &&& r == Poll::Ready(Result::<(), u8>::Ok(()))
        &&& next == self
    }

    open spec fn close_rel(&self, next: &Self, r: Poll<Result<(), u8>>, w0: bool, w1: bool) -> bool {
        &&& w1 == w0
        &&& r == Poll::Ready(Result::<(), u8>::Ok(()))
        &&& next == self
    }

    fn poll_write(&mut self, wake: &mut Volatile<bool>, buf: &Vec<u8>, from: usize) -> (r: Poll<
        Result<usize, u8>,
    >) {
        if from >= buf.len() {
            proof {
                assert(buf@.subrange(from as int, from as int) =~= Seq::<u8>::empty());
            }
            return Poll::Ready(Ok(0));
        }
        if self.cursor >= self.events.len() {
            let byte = buf[from];
            self.written.push(byte);
            proof {
                assert(buf@.subrange(from as int, from + 1) =~= seq![byte]);
                assert(self.written@ =~= old(self).written@ + seq![byte]);
            }
            return Poll::Ready(Ok(1));
        }
        let ev = self.events[self.cursor];
        self.cursor = self.cursor + 1;
        match ev {
            SinkEvent::Wait => Poll::Pending,
            SinkEvent::Take => {
                let byte = buf[from];
                self.written.push(byte);
                proof {
                    assert(buf@.subrange(from as int, from + 1) =~= seq![byte]);
                    assert(self.written@ =~= old(self).written@ + seq![byte]);
                }
                Poll::Ready(Ok(1))
            },
            SinkEvent::Refuse => {
                proof {
                    assert(buf@.subrange(from as int, from as int) =~= Seq::<u8>::empty());
                }
                Poll::Ready(Ok(0))
            },
            SinkEvent::Fail(c) => Poll::Ready(Err(c)),
        }
    }

    fn poll_flush(&mut self, wake: &mut Volatile<bool>) -> (r: Poll<Result<(), u8>>) {
        Poll::Ready(Ok(()))
    }

    fn poll_close(&mut self, wake: &mut Volatile<bool>) -> (r: Poll<Result<(), u8>>) {
        Poll::Ready(Ok(()))
    }
}


/// The bytes among a source script's events, in order.
pub open spec fn script_bytes(events: Seq<SourceEvent>) -> Seq<u8>
    decreases events.len(),
{
    if events.len() == 0 {
        Seq::empty()
    } else {
        match events[0] {
            SourceEvent::Byte(b) => seq![b] + script_bytes(events.skip(1)),
            _ => script_bytes(events.skip(1)),
        }
    }
}

/// Whether a source script holds no terminal error.
pub open spec fn fail_free(events: Seq<SourceEvent>) -> bool {
    forall|i: int| 0 <= i < events.len() ==> !(events[i] is Fail)
}

/// Whether a sink script only waits or takes: a sink that accepts all bytes.
pub open spec fn accepts_all(events: Seq<SinkEvent>) -> bool {
    forall|i: int| 0 <= i < events.len() ==> (events[i] is Wait || events[i] is Take)
}

/// How many bytes a sink script takes.
pub open spec fn take_count(events: Seq<SinkEvent>) -> nat
    decreases events.len(),
{
    if events.len() == 0 {
        0
    } else {
        (if events[0] is Take {
            1nat
        } else {
            0nat
        }) + take_count(events.skip(1))
    }
}

/// What an exact fill of `space` bytes returns against a scripted source,
/// together with the bytes it places, oldest first.
pub open spec fn fill_outcome(events: Seq<SourceEvent>, space: nat) -> (Result<
    (),
    ReadExactError<u8>,
>, Seq<u8>)
    decreases events.len(),
{
    if space == 0 {
        (Result::Ok(()), Seq::empty())
    } else if events.len() == 0 {
        (Result::Err(ReadExactError::UnexpectedEof), Seq::empty())
    } else {
        match events[0] {
            SourceEvent::Wait => fill_outcome(events.skip(1), space),
            SourceEvent::Byte(b) => {
                let rest = fill_outcome(events.skip(1), (space - 1) as nat);
                (rest.0, seq![b] + rest.1)
            },
            SourceEvent::Fail(c) => (Result::Err(ReadExactError::Other(c)), Seq::empty()),
        }
    }
}

/// What a full drain of `data` returns against a scripted sink, together
/// with the bytes the sink observes, oldest first.
pub open spec fn drain_outcome(events: Seq<SinkEvent>, data: Seq<u8>) -> (Result<
    (),
    WriteAllError<u8>,
>, Seq<u8>)
    decreases events.len() + data.len(),
{
    if data.len() == 0 {
        (Result::Ok(()), Seq::empty())
    } else if events.len() == 0 {
        let rest = drain_outcome(events, data.skip(1));
        (rest.0, seq![data[0]] + rest.1)
    } else {
        match events[0] {
            SinkEvent::Wait => drain_outcome(events.skip(1), data),
            SinkEvent::Take => {
                let rest = drain_outcome(events.skip(1), data.skip(1));
                (rest.0, seq![data[0]] + rest.1)
            },
            SinkEvent::Refuse => (Result::Err(WriteAllError::WriteZero), Seq::empty()),
            SinkEvent::Fail(c) => (Result::Err(WriteAllError::Other(c)), Seq::empty()),
        }
    }
}

/// A source that can still deliver at least as many bytes as there is room
/// for, with waits interleaved, lets an exact fill succeed, and the buffer
/// ends up holding exactly the first bytes of the stream.
pub proof fn lemma_fill_ample(events: Seq<SourceEvent>, space: nat)
    requires
        fail_free(events),
        script_bytes(events).len() >= space,
    ensures
        fill_outcome(events, space).0 == Result::<(), ReadExactError<u8>>::Ok(()),
        fill_outcome(events, space).1 == script_bytes(events).take(space as int),
    decreases events.len(),
{
    if space == 0 {
        assert(script_bytes(events).take(space as int) =~= Seq::<u8>::empty());
    } else if events.len() == 0 {
        assert(false);
    } else {
        assert(!(events[0] is Fail));
        assert(fail_free(events.skip(1))) by {
            assert forall|i: int| 0 <= i < events.skip(1).len() implies !(events.skip(1)[i]
                is Fail) by {
                assert(events.skip(1)[i] == events[i + 1]);
            }
        }
        match events[0] {
            SourceEvent::Wait => {
                lemma_fill_ample(events.skip(1), space);
            },
            SourceEvent::Byte(b) => {
                lemma_fill_ample(events.skip(1), (space - 1) as nat);
                assert(script_bytes(events).take(space as int) =~= seq![b] + script_bytes(
                    events.skip(1),
                ).take(space - 1));
            },
            SourceEvent::Fail(c) => {
                assert(false);
            },
        }
    }
}

/// A source that is exhausted before the buffer is full ends the exact fill
/// in `UnexpectedEof`, and the bytes already transferred are exactly the
/// whole stream.
pub proof fn lemma_fill_starved(events: Seq<SourceEvent>, space: nat)
    requires
        fail_free(events),
        script_bytes(events).len() < space,
    ensures
        fill_outcome(events, space).0 == Result::<(), ReadExactError<u8>>::Err(
            ReadExactError::UnexpectedEof,
        ),
        fill_outcome(events, space).1 == script_bytes(events),
    decreases events.len(),
{
    if events.len() == 0 {
    } else {
        assert(!(events[0] is Fail));
        assert(fail_free(events.skip(1))) by {
            assert forall|i: int| 0 <= i < events.skip(1).len() implies !(events.skip(1)[i]
                is Fail) by {
                assert(events.skip(1)[i] == events[i + 1]);
            }
        }
        match events[0] {
            SourceEvent::Wait => {
                lemma_fill_starved(events.skip(1), space);
            },
            SourceEvent::Byte(b) => {
                lemma_fill_starved(events.skip(1), (space - 1) as nat);
            },
            SourceEvent::Fail(c) => {
                assert(false);
            },
        }
    }
}

/// A sink that accepts all bytes lets a full drain succeed, and it observes
/// exactly the drained data, in order.
pub proof fn lemma_drain_accepting(events: Seq<SinkEvent>, data: Seq<u8>)
    requires
        accepts_all(events),
    ensures
        drain_outcome(events, data).0 == Result::<(), WriteAllError<u8>>::Ok(()),
        drain_outcome(events, data).1 == data,
    decreases events.len() + data.len(),
{
    if data.len() == 0 {
        assert(drain_outcome(events, data).1 =~= data);
    } else if events.len() == 0 {
        lemma_drain_accepting(events, data.skip(1));
        assert(seq![data[0]] + data.skip(1) =~= data);
    } else {
        assert(events[0] is Wait || events[0] is Take);
        assert(accepts_all(events.skip(1))) by {
            assert forall|i: int| 0 <= i < events.skip(1).len() implies (events.skip(1)[i] is Wait
                || events.skip(1)[i] is Take) by {
                assert(events.skip(1)[i] == events[i + 1]);
            }
        }
        match events[0] {
            SinkEvent::Wait => {
                lemma_drain_accepting(events.skip(1), data);
            },
            SinkEvent::Take => {
                lemma_drain_accepting(events.skip(1), data.skip(1));
                assert(seq![data[0]] + data.skip(1) =~= data);
            },
            SinkEvent::Refuse => {
                assert(false);
            },
            SinkEvent::Fail(c) => {
                assert(false);
            },
        }
    }
}

/// A sink that reports zero progress once, before the drain is complete,
/// ends the drain in `WriteZero` at that point: it observes exactly the
/// bytes taken before the refusal, and the drain does not retry.
pub proof fn lemma_drain_refused(events: Seq<SinkEvent>, data: Seq<u8>, k: int)
    requires
        0 <= k < events.len(),
        events[k] is Refuse,
        forall|i: int| 0 <= i < k ==> (events[i] is Wait || events[i] is Take),
        take_count(events.take(k)) < data.len(),
    ensures
        drain_outcome(events, data).0 == Result::<(), WriteAllError<u8>>::Err(
            WriteAllError::WriteZero,
        ),
        drain_outcome(events, data).1 == data.take(take_count(events.take(k)) as int),
    decreases k,
{
    if k == 0 {
        assert(take_count(events.take(0)) == 0) by {
            assert(events.take(0) =~= Seq::<SinkEvent>::empty());
        }
        assert(data.take(0) =~= Seq::<u8>::empty());
    } else {
        assert(events[0] is Wait || events[0] is Take);
        assert(events.take(k)[0] == events[0]);
        assert(events.take(k).skip(1) =~= events.skip(1).take(k - 1));
        assert(forall|i: int|
            0 <= i < k - 1 ==> (events.skip(1)[i] is Wait || events.skip(1)[i] is Take)) by {
            assert forall|i: int|
                0 <= i < k - 1 implies (events.skip(1)[i] is Wait || events.skip(1)[i]
                is Take) by {
                assert(events.skip(1)[i] == events[i + 1]);
            }
        }
        assert(events.skip(1)[k - 1] == events[k]);
        match events[0] {
            SinkEvent::Wait => {
                assert(take_count(events.take(k)) == take_count(events.skip(1).take(k - 1)));
                lemma_drain_refused(events.skip(1), data, k - 1);
            },
            SinkEvent::Take => {
                let c = take_count(events.take(k));
                assert(c == 1 + take_count(events.skip(1).take(k - 1)));
                lemma_drain_refused(events.skip(1), data.skip(1), k - 1);
                assert(seq![data[0]] + data.skip(1).take(c - 1) =~= data.take(c as int));
            },
            SinkEvent::Refuse => {
                assert(false);
            },
            SinkEvent::Fail(c) => {
                assert(false);
            },
        }
    }
}


/// Drives an exact fill of `space` bytes against a scripted source to
/// completion, busy-polling as the executor does, and returns the outcome
/// with the buffer: precisely what `fill_outcome` predicts.
#[verifier::rlimit(50)]
pub fn run_read_exact(events: Vec<SourceEvent>, space: usize) -> (r: (Result<
    (),
    ReadExactError<u8>,
>, Vec<u8>))
    ensures
        r.0 == fill_outcome(events@, space as nat).0,
        r.1@.len() == space,
        r.1@.take(fill_outcome(events@, space as nat).1.len() as int) == fill_outcome(
            events@,
            space as nat,
        ).1,
{
    let ghost script = events@;
    let mut buf: Vec<u8> = Vec::new();
    let mut i: usize = 0;
    while i < space
        invariant
            buf@.len() == i,
            i <= space,
        decreases space - i,
    {
        buf.push(0);
        i = i + 1;
    }
    let mut wake: Volatile<bool> = Volatile::new(true);
    let mut task = ReadExact::new(ScriptReader::new(events), buf);
    proof {
        assert(task.buf@.take(0) =~= Seq::<u8>::empty());
        assert(script.skip(0) =~= script);
        assert(Seq::<u8>::empty() + fill_outcome(script, space as nat).1 =~= fill_outcome(
            script,
            space as nat,
        ).1);
    }
    loop
        invariant
            script == events@,
            !task.done,
            task.pos <= task.buf@.len(),
            task.buf@.len() == space,
            task.reader.events@ == script,
            task.reader.cursor <= script.len(),
            fill_outcome(script, space as nat).0 == fill_outcome(
                script.skip(task.reader.cursor as int),
                (space - task.pos) as nat,
            ).0,
            fill_outcome(script, space as nat).1 == task.buf@.take(task.pos as int)
                + fill_outcome(
                script.skip(task.reader.cursor as int),
                (space - task.pos) as nat,
            ).1,
        decreases task.steps(),
    {
        let ghost pre = task;
        let ghost cur = pre.reader.cursor as int;
        let ghost pos0 = pre.pos as int;
        match task.poll(&mut wake) {
            Poll::Ready(res) => {
                proof {
                    let rest = fill_outcome(script.skip(cur), (space - pos0) as nat);
                    assert(fill_outcome(script, space as nat).0 == rest.0);
                    if pos0 == space {
                        // Already full at entry: the poll resolved at once.
                        assert(rest == (Result::<(), ReadExactError<u8>>::Ok(()), Seq::<
                            u8,
                        >::empty()));
                        assert(res == Result::<(), ReadExactError<u8>>::Ok(()));
                        assert(fill_outcome(script, space as nat).1 =~= task.buf@);
                    } else {
                        match res {
                            Result::Ok(u) => {
                                // The final read filled the buffer.
                                assert(cur < script.len());
                                assert(script.skip(cur)[0] == script[cur]);
                                assert(space - pos0 == 1);
                                assert(script[cur] is Byte);
                                assert(script.skip(cur).skip(1) =~= script.skip(cur + 1));
                                assert(rest.1 == task.buf@.subrange(pos0, space as int)
                                    + fill_outcome(script.skip(cur + 1), 0).1);
                                assert(fill_outcome(script.skip(cur + 1), 0).1 =~= Seq::<
                                    u8,
                                >::empty());
                                assert(rest.0 == fill_outcome(script.skip(cur + 1), 0).0);
                                assert(rest.0 == Result::<(), ReadExactError<u8>>::Ok(()));
                                assert(res == Result::<(), ReadExactError<u8>>::Ok(()));
                                assert(pre.buf@.take(pos0) + rest.1 =~= task.buf@);
                                assert(fill_outcome(script, space as nat).1 =~= task.buf@);
                            },
                            Result::Err(ReadExactError::UnexpectedEof) => {
                                // A zero-byte read: the script was exhausted.
                                assert(task.reader.cursor as int == cur);
                                assert(cur == script.len());
                                assert(script.skip(cur) =~= Seq::<SourceEvent>::empty());
                                assert(rest.0 == Result::<(), ReadExactError<u8>>::Err(
                                    ReadExactError::UnexpectedEof,
                                ));
                                assert(rest.1 =~= Seq::<u8>::empty());
                                assert(fill_outcome(script, space as nat).1 =~= task.buf@.take(
                                    pos0,
                                ));
                            },
                            Result::Err(ReadExactError::Other(c)) => {
                                // The source failed.
                                assert(cur < script.len());
                                assert(script.skip(cur)[0] == script[cur]);
                                assert(script[cur] matches SourceEvent::Fail(cc) && cc == c);
                                assert(rest.0 == Result::<(), ReadExactError<u8>>::Err(
                                    ReadExactError::Other(c),
                                ));
                                assert(rest.1 =~= Seq::<u8>::empty());
                                assert(fill_outcome(script, space as nat).1 =~= task.buf@.take(
                                    pos0,
                                ));
                            },
                        }
                    }
                    assert(task.buf@.take(fill_outcome(script, space as nat).1.len() as int)
                        =~= fill_outcome(script, space as nat).1);
                    assert(res == fill_outcome(script, space as nat).0);
                }
                return (res, task.buf);
            },
            Poll::Pending => {
                proof {
                    assert(cur < script.len());
                    assert(script.skip(cur)[0] == script[cur]);
                    assert(script.skip(cur).skip(1) =~= script.skip(cur + 1));
                    if task.pos as int == pos0 {
                        // The source was not ready: one wait consumed.
                        assert(script[cur] is Wait);
                        assert(task.buf@.take(pos0) =~= pre.buf@.take(pos0));
                    } else {
                        // One byte of progress.
                        assert(task.pos as int == pos0 + 1);
                        assert(script[cur] is Byte);
                        let rest = fill_outcome(script.skip(cur + 1), (space - pos0 - 1) as nat);
                        let piece = task.buf@.subrange(pos0, pos0 + 1);
                        assert(fill_outcome(script.skip(cur), (space - pos0) as nat).1 == piece
                            + rest.1);
                        assert(task.buf@.take(pos0) =~= pre.buf@.take(pos0));
                        assert(task.buf@.take(pos0 + 1) =~= task.buf@.take(pos0) + piece);
                        assert(pre.buf@.take(pos0) + (piece + rest.1) =~= task.buf@.take(
                            pos0 + 1,
                        ) + rest.1);
                    }
                }
            },
        }
    }
}

/// Drives a full drain of `data` against a scripted sink to completion,
/// busy-polling as the executor does, and returns the outcome with the
/// bytes the sink observed: precisely what `drain_outcome` predicts.
#[verifier::rlimit(50)]
pub fn run_write_all(events: Vec<SinkEvent>, data: Vec<u8>) -> (r: (Result<
    (),
    WriteAllError<u8>,
>, Vec<u8>))
    ensures
        r.0 == drain_outcome(events@, data@).0,
        r.1@ == drain_outcome(events@, data@).1,
{
    let ghost script = events@;
    let ghost bytes = data@;
    let mut wake: Volatile<bool> = Volatile::new(true);
    let mut task = WriteAll::new(ScriptWriter::new(events), data);
    proof {
        assert(script.skip(0) =~= script);
        assert(bytes.skip(0) =~= bytes);
        assert(Seq::<u8>::empty() + drain_outcome(script, bytes).1 =~= drain_outcome(
            script,
            bytes,
        ).1);
    }
    loop
        invariant
            script == events@,
            bytes == data@,
            !task.done,
            task.pos <= task.buf@.len(),
            task.buf@ == bytes,
            task.writer.events@ == script,
            task.writer.cursor <= script.len(),
            drain_outcome(script, bytes).0 == drain_outcome(
                script.skip(task.writer.cursor as int),
                bytes.skip(task.pos as int),
            ).0,
            drain_outcome(script, bytes).1 == task.writer.written@ + drain_outcome(
                script.skip(task.writer.cursor as int),
                bytes.skip(task.pos as int),
            ).1,
        decreases task.steps(),
    {
        let ghost pre = task;
        let ghost cur = pre.writer.cursor as int;
        let ghost pos0 = pre.pos as int;
        match task.poll(&mut wake) {
            Poll::Ready(res) => {
                proof {
                    let rest = drain_outcome(script.skip(cur), bytes.skip(pos0));
                    if pos0 == bytes.len() {
                        // Already drained at entry: the poll resolved at once.
                        assert(bytes.skip(pos0) =~= Seq::<u8>::empty());
                        assert(rest.0 == Result::<(), WriteAllError<u8>>::Ok(()));
                        assert(pre.writer.written@ + rest.1 =~= task.writer.written@);
                    } else {
                        assert(bytes.skip(pos0).len() > 0);
                        assert(bytes.skip(pos0)[0] == bytes[pos0]);
                        match res {
                            Result::Ok(u) => {
                                // The final write drained the buffer.
                                assert(pos0 + 1 == bytes.len());
                                assert(pre.buf@.subrange(pos0, bytes.len() as int) =~= seq![
                                    bytes[pos0],
                                ]);
                                assert(bytes.skip(pos0).skip(1) =~= bytes.skip(pos0 + 1));
                                assert(bytes.skip(pos0 + 1) =~= Seq::<u8>::empty());
                                if cur < script.len() {
                                    assert(script.skip(cur)[0] == script[cur]);
                                    assert(script[cur] is Take);
                                    assert(script.skip(cur).skip(1) =~= script.skip(cur + 1));
                                    let rest2 = drain_outcome(
                                        script.skip(cur + 1),
                                        bytes.skip(pos0 + 1),
                                    );
                                    assert(rest2.0 == Result::<(), WriteAllError<u8>>::Ok(()));
                                    assert(rest2.1 =~= Seq::<u8>::empty());
                                    assert(rest.0 == rest2.0);
                                    assert(rest.1 == seq![bytes.skip(pos0)[0]] + rest2.1);
                                    assert(rest.1 =~= seq![bytes[pos0]]);
                                } else {
                                    assert(script.skip(cur) =~= Seq::<SinkEvent>::empty());
                                    let rest2 = drain_outcome(
                                        script.skip(cur),
                                        bytes.skip(pos0).skip(1),
                                    );
                                    assert(rest2.0 == Result::<(), WriteAllError<u8>>::Ok(()));
                                    assert(rest2.1 =~= Seq::<u8>::empty());
                                    assert(rest.0 == rest2.0);
                                    assert(rest.1 == seq![bytes.skip(pos0)[0]] + rest2.1);
                                    assert(rest.1 =~= seq![bytes[pos0]]);
                                }
                                assert(rest.0 == Result::<(), WriteAllError<u8>>::Ok(()));
                                assert(rest.1 =~= seq![bytes[pos0]]);
                                assert(task.writer.written@ =~= pre.writer.written@ + seq![
                                    bytes[pos0],
                                ]);
                                assert(pre.writer.written@ + rest.1 =~= task.writer.written@);
                            },
                            Result::Err(WriteAllError::WriteZero) => {
                                // A zero-progress write.
                                assert(cur < script.len());
                                assert(script.skip(cur)[0] == script[cur]);
                                assert(script[cur] is Refuse);
                                assert(rest.0 == Result::<(), WriteAllError<u8>>::Err(
                                    WriteAllError::WriteZero,
                                ));
                                assert(rest.1 =~= Seq::<u8>::empty());
                                assert(pre.writer.written@ + rest.1 =~= task.writer.written@);
                            },
                            Result::Err(WriteAllError::Other(c)) => {
                                // The sink failed.
                                assert(cur < script.len());
                                assert(script.skip(cur)[0] == script[cur]);
                                assert(script[cur] matches SinkEvent::Fail(cc) && cc == c);
                                assert(rest.0 == Result::<(), WriteAllError<u8>>::Err(
                                    WriteAllError::Other(c),
                                ));
                                assert(rest.1 =~= Seq::<u8>::empty());
                                assert(pre.writer.written@ + rest.1 =~= task.writer.written@);
                            },
                        }
                    }
                    assert(res == drain_outcome(script, bytes).0);
                    assert(task.writer.written@ == drain_outcome(script, bytes).1);
                }
                return (res, task.writer.written);
            },
            Poll::Pending => {
                proof {
                    assert(bytes.skip(pos0).len() > 0);
                    assert(bytes.skip(pos0)[0] == bytes[pos0]);
                    if task.pos as int == pos0 {
                        // The sink was not ready: one wait consumed.
                        assert(cur < script.len());
                        assert(script.skip(cur)[0] == script[cur]);
                        assert(script[cur] is Wait);
                        assert(script.skip(cur).skip(1) =~= script.skip(cur + 1));
                    } else {
                        // One byte of progress.
                        assert(task.pos as int == pos0 + 1);
                        assert(pre.buf@.subrange(pos0, pos0 + 1) =~= seq![bytes[pos0]]);
                        assert(bytes.skip(pos0).skip(1) =~= bytes.skip(pos0 + 1));
                        if cur < script.len() {
                            assert(script.skip(cur)[0] == script[cur]);
                            assert(script[cur] is Take);
                            assert(script.skip(cur).skip(1) =~= script.skip(cur + 1));
                        } else {
                            assert(script.skip(cur) =~= Seq::<SinkEvent>::empty());
                            assert(task.writer.cursor as int == cur);
                        }
                        let rest = drain_outcome(
                            script.skip(task.writer.cursor as int),
                            bytes.skip(pos0 + 1),
                        );
                        assert(task.writer.written@ =~= pre.writer.written@ + seq![bytes[pos0]]);
                        assert(pre.writer.written@ + (seq![bytes[pos0]] + rest.1)
                            =~= task.writer.written@ + rest.1);
                    }
                }
            },
        }
    }
}


/// One scripted behaviour of a byte-accepting port.
#[derive(Clone, Copy, Debug, PartialEq, Eq)]
pub enum PortEvent {
    /// Not ready yet: try again.
    Wait,
    /// Accepts the offered byte.
    Accept,
    /// A terminal driver error with this code.
    Fail(u8),
}

/// A scripted blocking-with-retry serial receiver. Once its events are
/// exhausted it settles into handing out zero bytes.
pub struct ScriptSerialRx {
    pub events: Vec<SourceEvent>,
    pub cursor: usize,
}

impl ScriptSerialRx {
    pub fn new(events: Vec<SourceEvent>) -> (r: ScriptSerialRx)
        ensures
            r.events == events,
            r.cursor == 0,
    {
        ScriptSerialRx { events, cursor: 0 }
    }
}

impl hal::SerialRead for ScriptSerialRx {
    type Error = u8;

    open spec fn steps(&self) -> nat {
        if self.cursor <= self.events@.len() {
            (self.events@.len() - self.cursor) as nat
        } else {
            0
        }
    }

    open spec fn read_rel(&self, next: &Self, r: Result<u8, hal::NbError<u8>>) -> bool {
        &&& next.events == self.events
        &&& if self.cursor >= self.events@.len() {
            &&& r == Result::<u8, hal::NbError<u8>>::Ok(0)
            &&& next.cursor == self.cursor
        } else {
            &&& next.cursor == self.cursor + 1
            &&& match self.events@[self.cursor as int] {
                SourceEvent::Wait => r == Result::<u8, hal::NbError<u8>>::Err(
                    hal::NbError::WouldBlock,
                ),
                SourceEvent::Byte(b) => r == Result::<u8, hal::NbError<u8>>::Ok(b),
                SourceEvent::Fail(c) => r == Result::<u8, hal::NbError<u8>>::Err(
                    hal::NbError::Other(c),
                ),
            }
        }
    }

    fn read(&mut self) -> (r: Result<u8, hal::NbError<u8>>) {
        if self.cursor >= self.events.len() {
            return Ok(0);
        }
        let ev = self.events[self.cursor];
        self.cursor = self.cursor + 1;
        match ev {
            SourceEvent::Wait => Err(hal::NbError::WouldBlock),
            SourceEvent::Byte(b) => Ok(b),
            SourceEvent::Fail(c) => Err(hal::NbError::Other(c)),
        }
    }
}

/// A scripted blocking-with-retry serial transmitter that records every
/// byte it accepts. Once its events are exhausted it accepts everything.
pub struct ScriptSerialTx {
    pub events: Vec<PortEvent>,
    pub cursor: usize,
    pub written: Vec<u8>,
}

impl ScriptSerialTx {
    pub fn new(events: Vec<PortEvent>) -> (r: ScriptSerialTx)
        ensures
            r.events == events,
            r.cursor == 0,
            r.written@ == Seq::<u8>::empty(),
    {
        ScriptSerialTx { events, cursor: 0, written: Vec::new() }
    }
}

impl hal::SerialWrite for ScriptSerialTx {
    type Error = u8;

    open spec fn steps(&self) -> nat {
        if self.cursor <= self.events@.len() {
            (self.events@.len() - self.cursor) as nat
        } else {
            0
        }
    }

    open spec fn write_rel(&self, next: &Self, byte: u8, r: Result<(), hal::NbError<u8>>) -> bool {
        &&& next.events == self.events
        &&& if self.cursor >= self.events@.len() {
            &&& r == Result::<(), hal::NbError<u8>>::Ok(())
            &&& next.cursor == self.cursor
            &&& next.written@ == self.written@ + seq![byte]
        } else {
            &&& next.cursor == self.cursor + 1
            &&& match self.events@[self.cursor as int] {
                PortEvent::Wait => r == Result::<(), hal::NbError<u8>>::Err(
                    hal::NbError::WouldBlock,
                ) && next.written == self.written,
                PortEvent::Accept => r == Result::<(), hal::NbError<u8>>::Ok(()) && next.written@
                    == self.written@ + seq![byte],
                PortEvent::Fail(c) => r == Result::<(), hal::NbError<u8>>::Err(
                    hal::NbError::Other(c),
                ) && next.written == self.written,
            }
        }
    }

    open spec fn flush_rel(&self, next: &Self, r: Result<(), hal::NbError<u8>>) -> bool {
        // The scripted transmitter buffers nothing: a flush succeeds at
        // once.
        &&& r == Result::<(), hal::NbError<u8>>::Ok(())
        &&& next == self
    }

    fn write(&mut self, byte: u8) -> (r: Result<(), hal::NbError<u8>>) {
        if self.cursor >= self.events.len() {
            self.written.push(byte);
            proof {
                assert(self.written@ =~= old(self).written@ + seq![byte]);
            }
            return Ok(());
        }
        let ev = self.events[self.cursor];
        self.cursor = self.cursor + 1;
        match ev {
            PortEvent::Wait => Err(hal::NbError::WouldBlock),
            PortEvent::Accept => {
                self.written.push(byte);
                proof {
                    assert(self.written@ =~= old(self).written@ + seq![byte]);
                }
                Ok(())
            },
            PortEvent::Fail(c) => Err(hal::NbError::Other(c)),
        }
    }

    fn flush(&mut self) -> (r: Result<(), hal::NbError<u8>>) {
        Ok(())
    }
}

/// A scripted full-duplex port: a receive script, a send script, and a
/// record of the bytes it accepted.
pub struct ScriptSpi {
    pub reads: Vec<SourceEvent>,
    pub read_cursor: usize,
    pub sends: Vec<PortEvent>,
    pub send_cursor: usize,
    pub sent: Vec<u8>,
}

impl ScriptSpi {
    pub fn new(reads: Vec<SourceEvent>, sends: Vec<PortEvent>) -> (r: ScriptSpi)
        ensures
            r.reads == reads,
            r.read_cursor == 0,
            r.sends == sends,
            r.send_cursor == 0,
            r.sent@ == Seq::<u8>::empty(),
    {
        ScriptSpi { reads, read_cursor: 0, sends, send_cursor: 0, sent: Vec::new() }
    }
}

impl hal::SpiFullDuplex for ScriptSpi {
    type Error = u8;

    open spec fn steps(&self) -> nat {
        (if self.read_cursor <= self.reads@.len() {
            (self.reads@.len() - self.read_cursor) as nat
        } else {
            0
        }) + (if self.send_cursor <= self.sends@.len() {
            (self.sends@.len() - self.send_cursor) as nat
        } else {
            0
        })
    }

    open spec fn read_rel(&self, next: &Self, r: Result<u8, hal::NbError<u8>>) -> bool {
        &&& next.reads == self.reads
        &&& next.sends == self.sends
        &&& next.send_cursor == self.send_cursor
        &&& next.sent == self.sent
        &&& if self.read_cursor >= self.reads@.len() {
            &&& r == Result::<u8, hal::NbError<u8>>::Ok(0)
            &&& next.read_cursor == self.read_cursor
        } else {
            &&& next.read_cursor == self.read_cursor + 1
            &&& match self.reads@[self.read_cursor as int] {
                SourceEvent::Wait => r == Result::<u8, hal::NbError<u8>>::Err(
                    hal::NbError::WouldBlock,
                ),
                SourceEvent::Byte(b) => r == Result::<u8, hal::NbError<u8>>::Ok(b),
                SourceEvent::Fail(c) => r == Result::<u8, hal::NbError<u8>>::Err(
                    hal::NbError::Other(c),
                ),
            }
        }
    }

    open spec fn send_rel(&self, next: &Self, byte: u8, r: Result<(), hal::NbError<u8>>) -> bool {
        &&& next.reads == self.reads
        &&& next.read_cursor == self.read_cursor
        &&& next.sends == self.sends
        &&& if self.send_cursor >= self.sends@.len() {
            &&& r == Result::<(), hal::NbError<u8>>::Ok(())
            &&& next.send_cursor == self.send_cursor
            &&& next.sent@ == self.sent@ + seq![byte]
        } else {
            &&& next.send_cursor == self.send_cursor + 1
            &&& match self.sends@[self.send_cursor as int] {
                PortEvent::Wait => r == Result::<(), hal::NbError<u8>>::Err(
                    hal::NbError::WouldBlock,
                ) && next.sent == self.sent,
                PortEvent::Accept => r == Result::<(), hal::NbError<u8>>::Ok(()) && next.sent@
                    == self.sent@ + seq![byte],
                PortEvent::Fail(c) => r == Result::<(), hal::NbError<u8>>::Err(
                    hal::NbError::Other(c),
                ) && next.sent == self.sent,
            }
        }
    }

    fn read(&mut self) -> (r: Result<u8, hal::NbError<u8>>) {
        if self.read_cursor >= self.reads.len() {
            return Ok(0);
        }
        let ev = self.reads[self.read_cursor];
        self.read_cursor = self.read_cursor + 1;
        match ev {
            SourceEvent::Wait => Err(hal::NbError::WouldBlock),
            SourceEvent::Byte(b) => Ok(b),
            SourceEvent::Fail(c) => Err(hal::NbError::Other(c)),
        }
    }

    fn send(&mut self, byte: u8) -> (r: Result<(), hal::NbError<u8>>) {
        if self.send_cursor >= self.sends.len() {
            self.sent.push(byte);
            proof {
                assert(self.sent@ =~= old(self).sent@ + seq![byte]);
            }
            return Ok(());
        }
        let ev = self.sends[self.send_cursor];
        self.send_cursor = self.send_cursor + 1;
        match ev {
            PortEvent::Wait => Err(hal::NbError::WouldBlock),
            PortEvent::Accept => {
                self.sent.push(byte);
                proof {
                    assert(self.sent@ =~= old(self).sent@ + seq![byte]);
                }
                Ok(())
            },
            PortEvent::Fail(c) => Err(hal::NbError::Other(c)),
        }
    }
}

/// A scripted tick counter: hands out its script in order, then settles on
/// a final value.
pub struct ScriptTicks {
    pub script: Vec<u16>,
    pub cursor: usize,
    pub last: u16,
}

impl ScriptTicks {
    pub fn new(script: Vec<u16>, last: u16) -> (r: ScriptTicks)
        ensures
            r.script == script,
            r.cursor == 0,
            r.last == last,
    {
        ScriptTicks { script, cursor: 0, last }
    }
}

impl crate::timer::TimeReader for ScriptTicks {
    open spec fn trajectory(&self) -> Seq<u16> {
        if self.cursor <= self.script@.len() {
            self.script@.skip(self.cursor as int)
        } else {
            Seq::empty()
        }
    }

    open spec fn settled(&self) -> u16 {
        self.last
    }

    fn ticks(&mut self) -> (t: u16) {
        if self.cursor >= self.script.len() {
            proof {
                if self.cursor <= self.script@.len() {
                    assert(self.script@.skip(self.cursor as int) =~= Seq::<u16>::empty());
                }
            }
            return self.last;
        }
        let t = self.script[self.cursor];
        self.cursor = self.cursor + 1;
        proof {
            assert(old(self).script@.skip(old(self).cursor as int).skip(1) =~= self.script@.skip(
                self.cursor as int,
            ));
            assert(old(self).script@.skip(old(self).cursor as int)[0] == t);
        }
        t
    }
}

/// A computation that reports `Pending` a fixed number of times before
/// resolving, counting how often it was polled.
pub struct Countdown {
    pub remaining: usize,
    pub value: u8,
    pub polls: usize,
}

impl Countdown {
    pub fn new(remaining: usize, value: u8) -> (r: Countdown)
        ensures
            r.remaining == remaining,
            r.value == value,
            r.polls == 0,
    {
        Countdown { remaining, value, polls: 0 }
    }
}

impl Future for Countdown {
    type Output = u8;

    open spec fn pollable(&self) -> bool {
        self.polls + self.remaining < usize::MAX
    }

    open spec fn steps(&self) -> nat {
        self.remaining as nat
    }

    open spec fn ready_now(&self) -> bool {
        self.remaining == 0
    }

    open spec fn ready_value(&self) -> u8 {
        self.value
    }

    open spec fn poll_rel(&self, next: &Self, r: Poll<u8>, w0: bool, w1: bool) -> bool {
        &&& w1 == w0
        &&& next.value == self.value
        &&& next.polls == self.polls + 1
        &&& if self.remaining == 0 {
            r == Poll::Ready(self.value) && next.remaining == 0
        } else {
            r is Pending && next.remaining == self.remaining - 1
        }
    }

    fn poll(&mut self, wake: &mut Volatile<bool>) -> (r: Poll<u8>) {
        self.polls = self.polls + 1;
        if self.remaining == 0 {
            Poll::Ready(self.value)
        } else {
            self.remaining = self.remaining - 1;
            Poll::Pending
        }
    }
}


/// A fill that succeeds places exactly as many bytes as there was room
/// for.
pub proof fn lemma_fill_ok_len(events: Seq<SourceEvent>, space: nat)
    requires
        fill_outcome(events, space).0 matches Result::Ok(_),
    ensures
        fill_outcome(events, space).1.len() == space,
    decreases events.len(),
{
    if space == 0 {
    } else if events.len() == 0 {
    } else {
        match events[0] {
            SourceEvent::Wait => {
                lemma_fill_ok_len(events.skip(1), space);
            },
            SourceEvent::Byte(b) => {
                lemma_fill_ok_len(events.skip(1), (space - 1) as nat);
            },
            SourceEvent::Fail(c) => {
            },
        }
    }
}

/// The echo pattern: read exactly `space` bytes from a scripted source,
/// then drain them into a scripted sink. Returns the bytes the sink
/// observed, or nothing if either half failed; both halves behave exactly
/// as their outcome models predict.
pub fn echo_exact(source: Vec<SourceEvent>, space: usize, sink: Vec<SinkEvent>) -> (r: Option<
    Vec<u8>,
>)
    ensures
        ({
            let fill = fill_outcome(source@, space as nat);
            match fill.0 {
                Result::Ok(_) => {
                    let drain = drain_outcome(sink@, fill.1);
                    match drain.0 {
                        Result::Ok(_) => r matches Some(v) && v@ == drain.1,
                        Result::Err(_) => r is None,
                    }
                },
                Result::Err(_) => r is None,
            }
        }),
{
    let (res, buf) = run_read_exact(source, space);
    match res {
        Ok(()) => {
            proof {
                lemma_fill_ok_len(source@, space as nat);
                assert(buf@.take(space as int) =~= buf@);
            }
            let (drained, written) = run_write_all(sink, buf);
            match drained {
                Ok(()) => Some(written),
                Err(_) => None,
            }
        },
        Err(_) => None,
    }
}

} // verus!
