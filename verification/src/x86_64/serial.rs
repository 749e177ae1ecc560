//! The first serial line, as far as sending goes.

use super::io::{Port, PortWrite};
use vstd::prelude::*;

verus! {

/// Number of the data port of the first serial line.
pub const SERIAL_PORT_IO: u16 = 0x3F8;

/// The serial line.
pub struct Serial {
    port: Port<u8>,
}

/// The serial line as the place where the log goes.
pub struct SerialLogger {
    serial: Serial,
}

/// What sending `buffer` through `port` takes: one write for each byte, in
/// the buffer's order.
pub open spec fn transmission(port: u16, buffer: Seq<u8>) -> Seq<PortWrite> {
    Seq::new(buffer.len(), |i: int| PortWrite { port, value: buffer[i] })
}

impl Serial {
    /// Number of the port that the line sends through.
    pub closed spec fn data_port(&self) -> u16 {
        self.port.spec_address()
    }

    /// The first serial line.
    pub fn new() -> (serial: Serial)
        ensures
            serial.data_port() == SERIAL_PORT_IO,
    {
        Serial { port: Port::new(SERIAL_PORT_IO) }
    }

    /// Lists the port writes that send `buffer`. The caller performs them.
    pub fn write(&self, buffer: &[u8]) -> (writes: Vec<PortWrite>)
        ensures
            writes@ == transmission(self.data_port(), buffer@),
    {
        let port = self.port.address();
        let mut writes: Vec<PortWrite> = Vec::new();
        let mut i: usize = 0;
        while i < buffer.len()
            invariant
                i <= buffer@.len(),
                port == self.data_port(),
                writes@ == transmission(port, buffer@.subrange(0, i as int)),
            decreases buffer@.len() - i,
        {
            writes.push(PortWrite { port, value: buffer[i] });
            i += 1;
            assert(writes@ =~= transmission(port, buffer@.subrange(0, i as int)));
        }
        assert(buffer@.subrange(0, i as int) =~= buffer@);
        writes
    }
}

impl SerialLogger {
    /// Number of the port that the log goes out through.
    pub closed spec fn data_port(&self) -> u16 {
        self.serial.data_port()
    }

    /// A logger on the first serial line.
    pub fn new() -> (logger: SerialLogger)
        ensures
            logger.data_port() == SERIAL_PORT_IO,
    {
        SerialLogger { serial: Serial::new() }
    }

    /// Lists the port writes that put `buffer` on the line. The caller
    /// performs them.
    pub fn write(&self, buffer: &[u8]) -> (writes: Vec<PortWrite>)
        ensures
            writes@ == transmission(self.data_port(), buffer@),
    {
        self.serial.write(buffer)
    }
}

} // verus!
