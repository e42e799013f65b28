use async_avr::io::{AsyncReadExt, AsyncWriteExt, Read, ReadExactError, WriteAllError};
use async_avr::sim::{
    run_read_exact, run_write_all, ScriptReader, ScriptWriter, SinkEvent, SourceEvent,
};
use async_avr::{block_on, Future, Poll, Volatile};

#[test]
fn read_passes_one_poll_through() {
    let reader = ScriptReader::new(vec![SourceEvent::Wait, SourceEvent::Byte(42)]);
    let mut task = reader.read(vec![0, 0]);
    let mut wake = Volatile::new(true);
    assert_eq!(task.poll(&mut wake), Poll::Pending);
    assert_eq!(task.poll(&mut wake), Poll::Ready(Ok(1)));
    assert_eq!(task.buf, vec![42, 0]);
}

#[test]
fn read_with_an_empty_buffer_is_ready_at_once() {
    let reader = ScriptReader::new(vec![SourceEvent::Byte(1)]);
    let mut task = Read::new(reader, Vec::new());
    let mut wake = Volatile::new(true);
    assert_eq!(task.poll(&mut wake), Poll::Ready(Ok(0)));
    assert_eq!(task.reader.cursor, 0);
}

#[test]
fn read_reports_end_of_input_as_zero() {
    let reader = ScriptReader::new(Vec::new());
    let mut task = Read::new(reader, vec![0]);
    let mut wake = Volatile::new(true);
    assert_eq!(task.poll(&mut wake), Poll::Ready(Ok(0)));
}

#[test]
fn read_exact_fills_the_buffer_across_pendings() {
    // A source that returns one byte per successful poll with interleaved
    // pendings fills the buffer with the first bytes of the stream.
    let events = vec![
        SourceEvent::Byte(1),
        SourceEvent::Wait,
        SourceEvent::Byte(2),
        SourceEvent::Wait,
        SourceEvent::Wait,
        SourceEvent::Byte(3),
        SourceEvent::Byte(4),
    ];
    let (res, buf) = run_read_exact(events, 3);
    assert_eq!(res, Ok(()));
    assert_eq!(buf, vec![1, 2, 3]);
}

#[test]
fn read_exact_ends_in_unexpected_eof_when_the_source_runs_dry() {
    // The source is exhausted early: the error is UnexpectedEof and the
    // bytes already transferred are the whole stream.
    let events = vec![SourceEvent::Wait, SourceEvent::Byte(5), SourceEvent::Byte(6)];
    let (res, buf) = run_read_exact(events, 4);
    assert_eq!(res, Err(ReadExactError::UnexpectedEof));
    assert_eq!(&buf[..2], &[5, 6]);
}

#[test]
fn read_exact_propagates_a_source_error() {
    let events = vec![SourceEvent::Byte(9), SourceEvent::Fail(3)];
    let (res, buf) = run_read_exact(events, 3);
    assert_eq!(res, Err(ReadExactError::Other(3)));
    assert_eq!(buf[0], 9);
}

#[test]
fn read_exact_with_an_empty_buffer_succeeds_without_reading() {
    let (res, buf) = run_read_exact(vec![SourceEvent::Byte(1)], 0);
    assert_eq!(res, Ok(()));
    assert!(buf.is_empty());
}

#[test]
fn read_exact_under_block_on() {
    let reader = ScriptReader::new(vec![
        SourceEvent::Wait,
        SourceEvent::Byte(10),
        SourceEvent::Byte(11),
    ]);
    let mut task = reader.read_exact(vec![0, 0]);
    assert_eq!(block_on(&mut task), Ok(()));
    assert_eq!(task.buf, vec![10, 11]);
}

#[test]
fn read_exact_error_wraps_the_transport_error() {
    let e: ReadExactError<u8> = ReadExactError::from(7);
    assert_eq!(e, ReadExactError::Other(7));
}

#[test]
fn write_passes_one_poll_through() {
    let writer = ScriptWriter::new(vec![SinkEvent::Wait, SinkEvent::Take]);
    let mut task = writer.write(vec![5, 6]);
    let mut wake = Volatile::new(true);
    assert_eq!(task.poll(&mut wake), Poll::Pending);
    assert_eq!(task.poll(&mut wake), Poll::Ready(Ok(1)));
    assert_eq!(task.writer.written, vec![5]);
}

#[test]
fn write_all_observes_every_byte_in_order() {
    // A sink that accepts all bytes sees exactly the drained data, in
    // order, and the drain succeeds.
    let events = vec![
        SinkEvent::Wait,
        SinkEvent::Take,
        SinkEvent::Wait,
        SinkEvent::Take,
        SinkEvent::Take,
    ];
    let (res, written) = run_write_all(events, vec![10, 11, 12]);
    assert_eq!(res, Ok(()));
    assert_eq!(written, vec![10, 11, 12]);
}

#[test]
fn write_all_against_an_always_ready_sink() {
    let (res, written) = run_write_all(Vec::new(), vec![1, 2, 3, 4]);
    assert_eq!(res, Ok(()));
    assert_eq!(written, vec![1, 2, 3, 4]);
}

#[test]
fn write_all_stops_with_write_zero_on_zero_progress() {
    // The sink reports zero progress exactly once: the drain ends in
    // WriteZero at that point instead of retrying indefinitely.
    let events = vec![SinkEvent::Take, SinkEvent::Refuse, SinkEvent::Take];
    let (res, written) = run_write_all(events, vec![1, 2, 3]);
    assert_eq!(res, Err(WriteAllError::WriteZero));
    assert_eq!(written, vec![1]);
}

#[test]
fn write_all_propagates_a_sink_error() {
    let (res, written) = run_write_all(vec![SinkEvent::Fail(7)], vec![1]);
    assert_eq!(res, Err(WriteAllError::Other(7)));
    assert!(written.is_empty());
}

#[test]
fn write_all_with_an_empty_buffer_succeeds_without_writing() {
    let (res, written) = run_write_all(vec![SinkEvent::Refuse], Vec::new());
    assert_eq!(res, Ok(()));
    assert!(written.is_empty());
}

#[test]
fn write_all_under_block_on() {
    let writer = ScriptWriter::new(vec![SinkEvent::Wait, SinkEvent::Take, SinkEvent::Take]);
    let mut task = writer.write_all(vec![8, 9]);
    assert_eq!(block_on(&mut task), Ok(()));
    assert_eq!(task.writer.written, vec![8, 9]);
}

#[test]
fn write_all_error_wraps_the_transport_error() {
    let e: WriteAllError<u8> = WriteAllError::from(4);
    assert_eq!(e, WriteAllError::Other(4));
}

#[test]
fn flush_and_close_pass_straight_through() {
    let writer = ScriptWriter::new(Vec::new());
    let mut task = writer.flush();
    let mut wake = Volatile::new(true);
    assert_eq!(task.poll(&mut wake), Poll::Ready(Ok(())));
    let writer = ScriptWriter::new(Vec::new());
    let mut task = writer.close();
    assert_eq!(task.poll(&mut wake), Poll::Ready(Ok(())));
}

#[test]
fn echo_moves_bytes_from_source_to_sink() {
    let source = vec![
        SourceEvent::Wait,
        SourceEvent::Byte(1),
        SourceEvent::Byte(2),
        SourceEvent::Wait,
        SourceEvent::Byte(3),
    ];
    let sink = vec![SinkEvent::Take, SinkEvent::Wait, SinkEvent::Take, SinkEvent::Take];
    let echoed = async_avr::sim::echo_exact(source, 3, sink);
    assert_eq!(echoed, Some(vec![1, 2, 3]));
}

#[test]
fn echo_reports_nothing_when_the_source_runs_dry() {
    let source = vec![SourceEvent::Byte(1)];
    let echoed = async_avr::sim::echo_exact(source, 2, Vec::new());
    assert_eq!(echoed, None);
}

#[test]
fn echo_reports_nothing_when_the_sink_refuses() {
    let source = vec![SourceEvent::Byte(1), SourceEvent::Byte(2)];
    let sink = vec![SinkEvent::Refuse];
    let echoed = async_avr::sim::echo_exact(source, 2, sink);
    assert_eq!(echoed, None);
}
