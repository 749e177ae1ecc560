//! The operand of the instructions that load a descriptor table.

use crate::encoding::{u16_le, u16_to_le, u64_le, u64_to_le};
use vstd::prelude::*;

verus! {

/// Number of bytes the processor reads from a table descriptor.
pub const DESCRIPTOR_BYTES: usize = 10;

/// Where a descriptor table lies and how long it is. The processor wants the
/// offset of the table's last byte rather than its length.
#[derive(Clone, Copy, Debug, PartialEq, Eq, Structural)]
pub struct Descriptor {
    pub size: u16,
    pub offset: u64,
}

impl Descriptor {
    /// The descriptor of a table whose last byte has offset `size` and which
    /// starts at the linear address `offset`.
    pub fn new(size: u16, offset: u64) -> (d: Descriptor)
        ensures
            d == (Descriptor { size, offset }),
    {
        Descriptor { size, offset }
    }

    /// The descriptor as it lies in memory: the size in two bytes, then the
    /// offset in eight, both least significant byte first and with no gap.
    pub open spec fn bytes(&self) -> Seq<u8> {
        u16_le(self.size) + u64_le(self.offset)
    }

    /// Encodes the descriptor for the table-load instruction.
    pub fn to_bytes(&self) -> (b: [u8; DESCRIPTOR_BYTES])
        ensures
            b@ == self.bytes(),
    {
        let s = u16_to_le(self.size);
        let o = u64_to_le(self.offset);
        let b: [u8; DESCRIPTOR_BYTES] = [s[0], s[1], o[0], o[1], o[2], o[3], o[4], o[5], o[6], o[7]];
        assert(b@ =~= self.bytes());
        b
    }
}

} // verus!
