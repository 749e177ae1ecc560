use nucleus::encoding::{u16_to_le, u32_to_le, u64_to_le};
use nucleus::log::{format_record, Level, Log, LogError, LogSink};
use nucleus::x86_64::cpu::gdt::{CODE_SEGMENT, DATA_SEGMENT};
use nucleus::x86_64::cpu::init;
use nucleus::x86_64::io::{Port, PortWrite};
use nucleus::x86_64::serial::{Serial, SerialLogger, SERIAL_PORT_IO};
use std::sync::Mutex;

struct Collector {
    bytes: Mutex<Vec<u8>>,
}

impl LogSink for Collector {
    fn write(&self, buffer: &[u8]) {
        self.bytes.lock().unwrap().extend_from_slice(buffer);
    }
}

fn collector() -> &'static Collector {
    Box::leak(Box::new(Collector { bytes: Mutex::new(Vec::new()) }))
}

#[test]
fn little_endian_bytes() {
    assert_eq!(u16_to_le(0x1234), [0x34, 0x12]);
    assert_eq!(u32_to_le(0x1234_5678), [0x78, 0x56, 0x34, 0x12]);
    assert_eq!(
        u64_to_le(0x0123_4567_89AB_CDEF),
        [0xEF, 0xCD, 0xAB, 0x89, 0x67, 0x45, 0x23, 0x01]
    );
    assert_eq!(u16_to_le(u16::MAX), [0xFF; 2]);
    assert_eq!(u32_to_le(0), [0; 4]);
    assert_eq!(u64_to_le(u64::MAX), [0xFF; 8]);
}

#[test]
fn port_keeps_its_number() {
    let port: Port<u8> = Port::new(0x3F8);
    assert_eq!(port.address(), 0x3F8);
}

#[test]
fn serial_sends_byte_by_byte() {
    let serial = Serial::new();
    assert_eq!(
        serial.write(b"ok\n"),
        vec![
            PortWrite { port: 0x3F8, value: b'o' },
            PortWrite { port: 0x3F8, value: b'k' },
            PortWrite { port: 0x3F8, value: b'\n' },
        ]
    );
    assert_eq!(serial.write(b""), vec![]);
}

#[test]
fn serial_logger_sends_through_the_first_serial_line() {
    let logger = SerialLogger::new();
    let writes = logger.write(&[1, 2, 3]);
    assert_eq!(writes.len(), 3);
    for (i, write) in writes.iter().enumerate() {
        assert_eq!(write.port, SERIAL_PORT_IO);
        assert_eq!(write.value, i as u8 + 1);
    }
}

#[test]
fn record_of_each_level() {
    assert_eq!(format_record(Level::DEBUG, b"hello"), b"\x1b[36m[DEBUG]\x1b[39m hello");
    assert_eq!(format_record(Level::INFO, b"hello"), b"\x1b[32m[INFO]\x1b[39m hello");
    assert_eq!(format_record(Level::WARNING, b"hello"), b"\x1b[33m[WARNING]\x1b[39m hello");
    assert_eq!(format_record(Level::ERROR, b"hello"), b"\x1b[31m[ERROR]\x1b[39m hello");
    assert_eq!(format_record(Level::INFO, b""), b"\x1b[32m[INFO]\x1b[39m ");
}

#[test]
fn level_tags() {
    assert_eq!(Level::DEBUG.prefix(), "DEBUG");
    assert_eq!(Level::ERROR.prefix(), "ERROR");
    assert_eq!(Level::WARNING.color_code(), "\x1b[33m");
}

#[test]
fn log_without_sink_fails() {
    let log = Log::new();
    assert!(!log.has_sink());
    assert_eq!(log.write(b"lost"), Err(LogError::NoSink));
    assert_eq!(log.write_str("lost"), Err(LogError::NoSink));
}

#[test]
fn log_hands_bytes_to_its_sink() {
    let sink = collector();
    let mut log = Log::new();
    log.set_sink(sink);
    assert!(log.has_sink());
    assert_eq!(log.write_str("one "), Ok(()));
    assert_eq!(log.write(b"two"), Ok(()));
    assert_eq!(*sink.bytes.lock().unwrap(), b"one two");
}

#[test]
fn a_later_sink_replaces_the_earlier() {
    let first = collector();
    let second = collector();
    let mut log = Log::new();
    log.set_sink(first);
    log.set_sink(second);
    assert_eq!(log.write(b"x"), Ok(()));
    assert!(first.bytes.lock().unwrap().is_empty());
    assert_eq!(*second.bytes.lock().unwrap(), b"x");
}

#[test]
fn init_builds_both_tables() {
    let mut stubs = [0u64; 32];
    for (v, stub) in stubs.iter_mut().enumerate() {
        *stub = 0x10_0000 + 0x20 * v as u64;
    }
    let tables = init(&stubs);
    assert_eq!(tables.code_segment, CODE_SEGMENT);
    assert_eq!(tables.data_segment, DATA_SEGMENT);
    assert_eq!(tables.gdt.index(1).access, 0x9A);
    assert_eq!(tables.gdt.index(2).access, 0x92);
    assert_eq!(tables.idt.index(14).handler(), 0x10_0000 + 0x20 * 14);
    assert_eq!(tables.idt.index(14).selector, tables.code_segment);
    assert_eq!(tables.idt.index(9).selector, 0);
}
