//! The interrupt table: where the processor goes for each of its 256 interrupt
//! and exception vectors.
//!
//! Only the architectural exceptions are given a gate here. Vectors 9 and 15
//! are reserved by the architecture, and vectors 32 to 255 belong to whoever
//! drives the interrupt controller; their entries keep the default, which
//! names no code segment, so that a stray delivery faults instead of running
//! arbitrary code.

use super::descriptor::Descriptor;
use super::gdt;
use crate::encoding::{u16_le, u16_to_le, u32_le, u32_to_le};
use vstd::prelude::*;

verus! {

/// Number of entries in the table.
pub const IDT_SIZE: usize = 256;

/// Number of vectors that the architecture keeps for exceptions.
pub const EXCEPTIONS: usize = 32;

/// Number of bytes one entry takes in memory.
pub const ENTRY_BYTES: usize = 16;

/// Number of bytes the whole table takes in memory.
pub const TABLE_BYTES: usize = 4096;

/// The two kinds of gate. An interrupt gate masks interrupts on entry, a trap
/// gate does not.
#[derive(Clone, Copy, Debug, PartialEq, Eq, Structural)]
pub enum GateType {
    InterruptGate,
    TrapGate,
}

/// One entry of the table.
#[derive(Clone, Copy, Debug, PartialEq, Eq, Structural)]
pub struct Entry {
    pub offset_low: u16,
    pub selector: u16,
    pub attributes: u16,
    pub offset_mid: u16,
    pub offset_high: u32,
    pub reserved: u32,
}

/// The fields that an attribute word packs.
pub ghost struct Attributes {
    pub present: bool,
    pub dpl: int,
    pub gate: int,
    pub ist: int,
    pub unused: int,
}

/// The four-bit type code of a gate.
pub open spec fn gate_code(gate_type: GateType) -> u16 {
    match gate_type {
        GateType::InterruptGate => 0xE,
        GateType::TrapGate => 0xF,
    }
}

/// The attribute word of a gate: present (bit 15), privilege level (bits 14
/// and 13), type code (bits 11 to 8), interrupt stack table index (bits 2 to
/// 0).
pub open spec fn attributes(dpl: u8, gate_type: GateType, ist: u8) -> u16 {
    0x8000u16 | ((dpl as u16) << 13) | (gate_code(gate_type) << 8) | (ist as u16)
}

/// Reads the fields back out of an attribute word; `unused` gathers bit 12
/// and bits 7 to 3, which the processor wants zero.
pub open spec fn attribute_fields(word: u16) -> Attributes {
    Attributes {
        present: word / 0x8000 == 1,
        dpl: word as int / 0x2000 % 4,
        gate: word as int / 0x100 % 16,
        ist: word as int % 8,
        unused: (word as int / 0x1000 % 2) * 32 + word as int / 8 % 32,
    }
}

/// Every field of a packed attribute word reads back as it was given, for
/// each privilege level and stack index that the fields can hold; the word is
/// the sum of the fields' place values.
pub proof fn lemma_attribute_fields(dpl: u8, gate_type: GateType, ist: u8)
    requires
        dpl <= 3,
        ist <= 7,
    ensures
        attributes(dpl, gate_type, ist) == 0x8000 + 0x2000 * dpl + 0x100 * gate_code(gate_type)
            + ist,
        attribute_fields(attributes(dpl, gate_type, ist)) == (Attributes {
            present: true,
            dpl: dpl as int,
            gate: gate_code(gate_type) as int,
            ist: ist as int,
            unused: 0,
        }),
{
    let d = dpl as u16;
    let g = gate_code(gate_type);
    let i = ist as u16;
    assert(d <= 3 && 0xE <= g <= 0xF && i <= 7 ==> (0x8000u16 | (d << 13) | (g << 8) | i) == 0x8000
        + 0x2000 * d + 0x100 * g + i) by (bit_vector);
}

/// Packs the attribute word of a gate. A privilege level above 3 or a stack
/// index above 7 does not fit its field. It is not refused: the result is
/// still what `attributes` says, but describes no gate.
pub fn generate_attributes(dpl: u8, gate_type: GateType, ist: u8) -> (word: u16)
    ensures
        word == attributes(dpl, gate_type, ist),
        dpl <= 3 && ist <= 7 ==> attribute_fields(word) == (Attributes {
            present: true,
            dpl: dpl as int,
            gate: gate_code(gate_type) as int,
            ist: ist as int,
            unused: 0,
        }),
{
    proof {
        if dpl <= 3 && ist <= 7 {
            lemma_attribute_fields(dpl, gate_type, ist);
        }
    }
    let gate_type: u16 = match gate_type {
        GateType::InterruptGate => 0xE,
        GateType::TrapGate => 0xF,
    };
    let d: u16 = dpl as u16;
    let i: u16 = ist as u16;
    assert(1u16 << 15 == 0x8000u16 && i << 0 == i) by (bit_vector);
    (1u16 << 15) | (d << 13) | (gate_type << 8) | (i << 0)
}

/// The three pieces into which an entry cuts a handler's address: bits 63 to
/// 32, bits 31 to 16 and bits 15 to 0.
pub open spec fn split(handler: u64) -> (u32, u16, u16) {
    (
        (handler / 0x1_0000_0000) as u32,
        (handler / 0x1_0000 % 0x1_0000) as u16,
        (handler % 0x1_0000) as u16,
    )
}

/// The address that the three pieces make up.
pub open spec fn join(high: u32, mid: u16, low: u16) -> u64 {
    (high * 0x1_0000_0000 + mid * 0x1_0000 + low) as u64
}

/// Cutting an address and putting the pieces together gives the address back,
/// bit for bit.
pub proof fn lemma_join_split(handler: u64)
    ensures
        join(split(handler).0, split(handler).1, split(handler).2) == handler,
{
}

/// Putting three pieces together and cutting the result gives the pieces
/// back.
pub proof fn lemma_split_join(high: u32, mid: u16, low: u16)
    ensures
        split(join(high, mid, low)) == (high, mid, low),
{
}

/// Cuts a handler's address into the pieces an entry stores: high, middle
/// and low.
pub fn split_handler_address(handler: u64) -> (pieces: (u32, u16, u16))
    ensures
        pieces == split(handler),
{
    assert(handler >> 32 & 0xFFFFFFFF == handler / 0x1_0000_0000 && handler >> 16 & 0xFFFF
        == handler / 0x1_0000 % 0x1_0000 && handler & 0xFFFF == handler % 0x1_0000)
        by (bit_vector);
    let high = (handler >> 32 & 0xFFFFFFFF) as u32;
    let mid = (handler >> 16 & 0xFFFF) as u16;
    let low = (handler & 0xFFFF) as u16;
    (high, mid, low)
}

/// Puts the pieces of a handler's address together again.
pub fn join_handler_address(high: u32, mid: u16, low: u16) -> (handler: u64)
    ensures
        handler == join(high, mid, low),
{
    let h: u64 = high as u64;
    let m: u64 = mid as u64;
    let l: u64 = low as u64;
    assert(h <= 0xFFFF_FFFF && m <= 0xFFFF && l <= 0xFFFF ==> (h << 32 | m << 16 | l) == h
        * 0x1_0000_0000 + m * 0x1_0000 + l) by (bit_vector);
    h << 32 | m << 16 | l
}

impl Entry {
    /// The default entry: a present interrupt gate of ring 0 that leads
    /// nowhere, since selector 0 names no segment.
    pub open spec fn spec_new() -> Entry {
        Entry {
            offset_low: 0,
            selector: 0,
            attributes: attributes(0, GateType::InterruptGate, 0),
            offset_mid: 0,
            offset_high: 0,
            reserved: 0,
        }
    }

    /// The address this entry sends the processor to.
    pub open spec fn spec_handler(&self) -> u64 {
        join(self.offset_high, self.offset_mid, self.offset_low)
    }

    /// This entry, redirected to `handler` in the kernel's code segment.
    pub open spec fn with_handler(&self, handler: u64) -> Entry {
        Entry {
            offset_low: split(handler).2,
            selector: gdt::CODE_SEGMENT,
            attributes: self.attributes,
            offset_mid: split(handler).1,
            offset_high: split(handler).0,
            reserved: self.reserved,
        }
    }

    /// The entry as it lies in memory, each field least significant byte
    /// first: offset bits 15 to 0, selector, attributes, offset bits 31 to
    /// 16, offset bits 63 to 32, reserved.
    pub open spec fn bytes(&self) -> Seq<u8> {
        u16_le(self.offset_low) + u16_le(self.selector) + u16_le(self.attributes) + u16_le(
            self.offset_mid,
        ) + u32_le(self.offset_high) + u32_le(self.reserved)
    }

    #[verifier::when_used_as_spec(spec_new)]
    pub fn new() -> (entry: Entry)
        ensures
            entry == Entry::spec_new(),
    {
        Entry {
            offset_low: 0,
            selector: 0,
            attributes: generate_attributes(0, GateType::InterruptGate, 0),
            offset_mid: 0,
            offset_high: 0,
            reserved: 0,
        }
    }

    /// Points the entry at `handler`, to run in the kernel's code segment.
    pub fn set_handler(&mut self, handler: u64)
        ensures
            *final(self) == old(self).with_handler(handler),
            final(self).spec_handler() == handler,
    {
        let (high, mid, low) = split_handler_address(handler);
        self.offset_low = low;
        self.offset_mid = mid;
        self.offset_high = high;
        self.selector = gdt::CODE_SEGMENT;
        proof {
            lemma_join_split(handler);
        }
    }

    /// The address this entry sends the processor to.
    #[verifier::when_used_as_spec(spec_handler)]
    pub fn handler(&self) -> (handler: u64)
        ensures
            handler == self.spec_handler(),
    {
        join_handler_address(self.offset_high, self.offset_mid, self.offset_low)
    }

    /// Encodes the entry in the sixteen bytes the processor reads.
    pub fn to_bytes(&self) -> (b: [u8; 16])
        ensures
            b@ == self.bytes(),
    {
        let l = u16_to_le(self.offset_low);
        let s = u16_to_le(self.selector);
        let a = u16_to_le(self.attributes);
        let m = u16_to_le(self.offset_mid);
        let h = u32_to_le(self.offset_high);
        let r = u32_to_le(self.reserved);
        let b: [u8; 16] = [
            l[0],
            l[1],
            s[0],
            s[1],
            a[0],
            a[1],
            m[0],
            m[1],
            h[0],
            h[1],
            h[2],
            h[3],
            r[0],
            r[1],
            r[2],
            r[3],
        ];
        assert(b@ =~= self.bytes());
        b
    }
}

/// The interrupt table.
pub struct Table {
    pub entries: [Entry; IDT_SIZE],
}

impl Table {
    /// The entries by vector.
    pub open spec fn view(&self) -> Seq<Entry> {
        self.entries@
    }

    /// The table as it lies in memory: the entries one after another.
    pub open spec fn bytes(&self) -> Seq<u8> {
        Seq::new(TABLE_BYTES as nat, |k: int| self@[k / 16].bytes()[k % 16])
    }

    /// A table of default entries.
    pub fn new() -> (table: Table)
        ensures
            table@ == Seq::new(IDT_SIZE as nat, |i: int| Entry::spec_new()),
    {
        let table = Table { entries: [Entry::new();IDT_SIZE] };
        assert(table@ =~= Seq::new(IDT_SIZE as nat, |i: int| Entry::spec_new()));
        table
    }

    /// The entry of vector `index`.
    pub fn index(&self, index: usize) -> (entry: &Entry)
        requires
            index < IDT_SIZE,
        ensures
            *entry == self@[index as int],
    {
        &self.entries[index]
    }

    /// The entry of vector `index`, to be changed in place.
    pub fn index_mut(&mut self, index: usize) -> (entry: &mut Entry)
        requires
            index < IDT_SIZE,
        ensures
            *entry == old(self)@[index as int],
            final(self)@ == old(self)@.update(index as int, *final(entry)),
    {
        &mut self.entries[index]
    }

    /// Encodes the table in the bytes the processor reads.
    pub fn to_bytes(&self) -> (b: [u8; 4096])
        ensures
            b@ == self.bytes(),
    {
        let mut b: [u8; 4096] = [0;4096];
        let mut i: usize = 0;
        while i < IDT_SIZE
            invariant
                i <= IDT_SIZE,
                forall|k: int| 0 <= k < 16 * i ==> b@[k] == self@[k / 16].bytes()[k % 16],
            decreases IDT_SIZE - i,
        {
            let e = self.entries[i].to_bytes();
            let mut j: usize = 0;
            while j < ENTRY_BYTES
                invariant
                    i < IDT_SIZE,
                    j <= ENTRY_BYTES,
                    e@ == self@[i as int].bytes(),
                    forall|k: int| 0 <= k < 16 * i + j ==> b@[k] == self@[k / 16].bytes()[k % 16],
                decreases ENTRY_BYTES - j,
            {
                b[16 * i + j] = e[j];
                j += 1;
            }
            i += 1;
        }
        assert(b@ =~= self.bytes());
        b
    }

    /// The descriptor that loads this table once its bytes lie at `base`.
    pub fn descriptor(&self, base: u64) -> (d: Descriptor)
        ensures
            d.size == TABLE_BYTES - 1,
            d.offset == base,
    {
        Descriptor::new((ENTRY_BYTES * IDT_SIZE - 1) as u16, base)
    }
}

/// Whether a vector is given a gate: the architectural exceptions but for the
/// two reserved vectors 9 and 15.
pub open spec fn populated(vector: int) -> bool {
    0 <= vector < EXCEPTIONS && vector != 9 && vector != 15
}

/// The entries of the interrupt table whose exception stubs lie at `stubs`, by
/// vector.
pub open spec fn exception_entries(stubs: Seq<u64>) -> Seq<Entry> {
    Seq::new(
        IDT_SIZE as nat,
        |v: int|
            if populated(v) {
                Entry::spec_new().with_handler(stubs[v])
            } else {
                Entry::spec_new()
            },
    )
}

/// Every entry of the table, installed or not, is a present interrupt gate
/// of ring 0 that uses no stack of its own; in numbers, 0x8E00. What tells an
/// installed gate from the default is the selector.
pub proof fn lemma_exception_gates(stubs: Seq<u64>, vector: int)
    requires
        0 <= vector < IDT_SIZE,
    ensures
        exception_entries(stubs)[vector].attributes == 0x8E00,
        attribute_fields(exception_entries(stubs)[vector].attributes) == (Attributes {
            present: true,
            dpl: 0,
            gate: 0xE,
            ist: 0,
            unused: 0,
        }),
        exception_entries(stubs)[vector].reserved == 0,
        populated(vector) ==> exception_entries(stubs)[vector].selector == gdt::CODE_SEGMENT
            && exception_entries(stubs)[vector].spec_handler() == stubs[vector],
        !populated(vector) ==> exception_entries(stubs)[vector].selector == 0,
{
    lemma_attribute_fields(0, GateType::InterruptGate, 0);
    if populated(vector) {
        lemma_join_split(stubs[vector]);
    }
}

/// Builds the interrupt table: a ring 0 interrupt gate into the kernel's code
/// segment for each exception that has one, leading to that exception's
/// stub. The caller places the table's bytes in memory and loads them.
pub fn init(stubs: &[u64; 32]) -> (table: Table)
    ensures
        table@ == exception_entries(stubs@),
{
    let mut table = Table::new();
    let mut vector: usize = 0;
    while vector < EXCEPTIONS
        invariant
            vector <= EXCEPTIONS,
            table@.len() == IDT_SIZE,
            forall|v: int|
                0 <= v < IDT_SIZE ==> #[trigger] table@[v] == if populated(v) && v < vector {
                    Entry::spec_new().with_handler(stubs@[v])
                } else {
                    Entry::spec_new()
                },
        decreases EXCEPTIONS - vector,
    {
        if vector != 9 && vector != 15 {
            table.index_mut(vector).set_handler(stubs[vector]);
        }
        vector += 1;
    }
    assert(table@ =~= exception_entries(stubs@));
    table
}

} // verus!
