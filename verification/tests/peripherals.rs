use async_avr::hal::NbError;
use async_avr::io::{AsyncRead, AsyncReadExt, AsyncWrite, AsyncWriteExt};
use async_avr::sim::{PortEvent, ScriptSerialRx, ScriptSerialTx, ScriptSpi, SourceEvent};
use async_avr::{block_on, AsyncSerial, AsyncSpi, Poll, Volatile};

#[test]
fn serial_adapter_maps_would_block_to_pending_and_delivers_bytes() {
    let rx = ScriptSerialRx::new(vec![SourceEvent::Wait, SourceEvent::Byte(7)]);
    let mut port = AsyncSerial::new(rx);
    let mut wake = Volatile::new(true);
    let mut buf = vec![0u8; 2];
    assert_eq!(port.poll_read(&mut wake, &mut buf, 0), Poll::Pending);
    assert_eq!(port.poll_read(&mut wake, &mut buf, 0), Poll::Ready(Ok(1)));
    assert_eq!(buf, vec![7, 0]);
}

#[test]
fn serial_adapter_short_circuits_an_empty_destination() {
    let rx = ScriptSerialRx::new(vec![SourceEvent::Byte(7)]);
    let mut port = AsyncSerial::new(rx);
    let mut wake = Volatile::new(true);
    let mut buf: Vec<u8> = Vec::new();
    assert_eq!(port.poll_read(&mut wake, &mut buf, 0), Poll::Ready(Ok(0)));
    // The driver was never touched.
    assert_eq!(port.0.cursor, 0);
}

#[test]
fn serial_adapter_surfaces_a_terminal_read_error() {
    let rx = ScriptSerialRx::new(vec![SourceEvent::Fail(9)]);
    let mut port = AsyncSerial::new(rx);
    let mut wake = Volatile::new(true);
    let mut buf = vec![0u8; 1];
    assert_eq!(port.poll_read(&mut wake, &mut buf, 0), Poll::Ready(Err(9)));
}

#[test]
fn serial_adapter_writes_one_byte_per_poll() {
    let tx = ScriptSerialTx::new(vec![PortEvent::Wait, PortEvent::Accept]);
    let mut port = AsyncSerial::new(tx);
    let mut wake = Volatile::new(true);
    let buf = vec![5u8, 6];
    assert_eq!(port.poll_write(&mut wake, &buf, 0), Poll::Pending);
    assert_eq!(port.poll_write(&mut wake, &buf, 0), Poll::Ready(Ok(1)));
    assert_eq!(port.0.written, vec![5]);
}

#[test]
fn serial_adapter_surfaces_a_terminal_write_error() {
    let tx = ScriptSerialTx::new(vec![PortEvent::Fail(4)]);
    let mut port = AsyncSerial::new(tx);
    let mut wake = Volatile::new(true);
    let buf = vec![1u8];
    assert_eq!(port.poll_write(&mut wake, &buf, 0), Poll::Ready(Err(4)));
}

#[test]
fn serial_adapter_flush_and_close_succeed() {
    let tx = ScriptSerialTx::new(Vec::new());
    let mut port = AsyncSerial::new(tx);
    let mut wake = Volatile::new(true);
    assert_eq!(port.poll_flush(&mut wake), Poll::Ready(Ok(())));
    assert_eq!(port.poll_close(&mut wake), Poll::Ready(Ok(())));
}

#[test]
fn serial_adapter_comes_from_a_driver_handle() {
    let rx = ScriptSerialRx::new(vec![SourceEvent::Byte(1)]);
    let port: AsyncSerial<ScriptSerialRx> = AsyncSerial::from(rx);
    assert_eq!(port.0.cursor, 0);
}

#[test]
fn exact_fill_runs_over_the_serial_adapter() {
    let rx = ScriptSerialRx::new(vec![
        SourceEvent::Wait,
        SourceEvent::Byte(1),
        SourceEvent::Wait,
        SourceEvent::Byte(2),
    ]);
    let mut task = AsyncSerial::new(rx).read_exact(vec![0, 0]);
    assert_eq!(block_on(&mut task), Ok(()));
    assert_eq!(task.buf, vec![1, 2]);
}

#[test]
fn full_drain_runs_over_the_serial_adapter() {
    let tx = ScriptSerialTx::new(vec![PortEvent::Accept, PortEvent::Wait, PortEvent::Accept]);
    let mut task = AsyncSerial::new(tx).write_all(vec![3, 4]);
    assert_eq!(block_on(&mut task), Ok(()));
    assert_eq!(task.writer.0.written, vec![3, 4]);
}

#[test]
fn spi_adapter_reads_and_sends_one_byte_per_poll() {
    let spi = ScriptSpi::new(
        vec![SourceEvent::Wait, SourceEvent::Byte(11)],
        vec![PortEvent::Wait, PortEvent::Accept],
    );
    let mut port = AsyncSpi::new(spi);
    let mut wake = Volatile::new(true);
    let mut buf = vec![0u8; 1];
    assert_eq!(port.poll_read(&mut wake, &mut buf, 0), Poll::Pending);
    assert_eq!(port.poll_read(&mut wake, &mut buf, 0), Poll::Ready(Ok(1)));
    assert_eq!(buf, vec![11]);
    let out = vec![12u8];
    assert_eq!(port.poll_write(&mut wake, &out, 0), Poll::Pending);
    assert_eq!(port.poll_write(&mut wake, &out, 0), Poll::Ready(Ok(1)));
    assert_eq!(port.0.sent, vec![12]);
}

#[test]
fn spi_adapter_flush_and_close_are_immediate() {
    let spi = ScriptSpi::new(Vec::new(), Vec::new());
    let mut port = AsyncSpi::new(spi);
    let mut wake = Volatile::new(true);
    assert_eq!(port.poll_flush(&mut wake), Poll::Ready(Ok(())));
    assert_eq!(port.poll_close(&mut wake), Poll::Ready(Ok(())));
}

#[test]
fn spi_adapter_surfaces_terminal_errors() {
    let spi = ScriptSpi::new(vec![SourceEvent::Fail(2)], vec![PortEvent::Fail(3)]);
    let mut port = AsyncSpi::new(spi);
    let mut wake = Volatile::new(true);
    let mut buf = vec![0u8; 1];
    assert_eq!(port.poll_read(&mut wake, &mut buf, 0), Poll::Ready(Err(2)));
    let out = vec![1u8];
    assert_eq!(port.poll_write(&mut wake, &out, 0), Poll::Ready(Err(3)));
}

#[test]
fn would_block_carries_no_payload_but_other_does() {
    let e: NbError<u8> = NbError::Other(5);
    assert_eq!(e, NbError::Other(5));
    assert_ne!(e, NbError::WouldBlock);
}
