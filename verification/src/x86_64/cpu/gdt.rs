//! The segment table: the flat segmentation model that long mode requires.
//!
//! The table has five entries: the null entry, then code and data segments
//! for the kernel and for user programs. Base and limit are ignored in long
//! mode and are always encoded as zero, so an entry is fully described by its
//! access byte and its flag byte.

use super::descriptor::Descriptor;
use vstd::prelude::*;

verus! {

/// Number of entries in the table.
pub const GDT_SIZE: usize = 5;

/// Number of bytes one entry takes in memory.
pub const ENTRY_BYTES: usize = 8;

/// Number of bytes the whole table takes in memory.
pub const TABLE_BYTES: usize = 40;

/// Selector of the kernel code segment: entry 1.
pub const CODE_SEGMENT: u16 = 0x8;

/// Selector of the kernel data segment: entry 2.
pub const DATA_SEGMENT: u16 = 0x10;

/// Flags of every segment in use: limit counted in 4 KiB units (bit 7) and
/// 64-bit code (bit 5, with bit 6 clear). The low four bits belong to the
/// limit and stay zero.
pub const FLAG_BYTE: u8 = 0xA0;

/// What a segment holds, with the two properties that depend on it.
#[derive(Clone, Copy, Debug, PartialEq, Eq, Structural)]
pub enum EntryType {
    Null,
    Code { conforming: bool, readable: bool },
    Data { grow_down: bool, writable: bool },
}

/// One entry of the table.
#[derive(Clone, Copy, Debug, PartialEq, Eq, Structural)]
pub struct Entry {
    pub access: u8,
    pub flags: u8,
}

/// The fields that an access byte packs.
pub ghost struct Access {
    pub present: bool,
    pub dpl: int,
    pub segment: bool,
    pub executable: bool,
    pub dc: bool,
    pub rw: bool,
    pub accessed: bool,
}

/// A flag as the bit it occupies.
pub open spec fn bit(b: bool) -> u8 {
    if b {
        1
    } else {
        0
    }
}

/// The access byte of a segment: present (bit 7), privilege level (bits 6
/// and 5), not a system descriptor (bit 4), executable (bit 3), direction or
/// conforming (bit 2), readable or writable (bit 1). Bit 0, which the
/// processor sets on first use, starts out clear.
pub open spec fn access_byte(dpl: u8, executable: bool, dc: bool, rw: bool) -> u8 {
    0x80u8 | (dpl << 5) | 0x10u8 | (bit(executable) << 3) | (bit(dc) << 2) | (bit(rw) << 1)
}

/// Reads the fields back out of an access byte.
pub open spec fn access_fields(access: u8) -> Access {
    Access {
        present: access / 0x80 == 1,
        dpl: access as int / 0x20 % 4,
        segment: access / 0x10 % 2 == 1,
        executable: access / 8 % 2 == 1,
        dc: access / 4 % 2 == 1,
        rw: access / 2 % 2 == 1,
        accessed: access % 2 == 1,
    }
}

/// Every field of a packed access byte reads back as it was given, for each
/// privilege level that the two bits can hold; the byte is the sum of the
/// fields' place values.
pub proof fn lemma_access_byte_fields(dpl: u8, executable: bool, dc: bool, rw: bool)
    requires
        dpl <= 3,
    ensures
        access_byte(dpl, executable, dc, rw) == 0x90 + 0x20 * dpl + 8 * bit(executable) + 4 * bit(
            dc,
        ) + 2 * bit(rw),
        access_fields(access_byte(dpl, executable, dc, rw)) == (Access {
            present: true,
            dpl: dpl as int,
            segment: true,
            executable,
            dc,
            rw,
            accessed: false,
        }),
{
    let e = bit(executable);
    let d = bit(dc);
    let w = bit(rw);
    assert(dpl <= 3 && e <= 1 && d <= 1 && w <= 1 ==> (0x80u8 | (dpl << 5) | 0x10u8 | (e << 3) | (d
        << 2) | (w << 1)) == 0x90 + 0x20 * dpl + 8 * e + 4 * d + 2 * w) by (bit_vector);
}

/// The bits of an access byte and of a flag byte are the digits that
/// `access_fields` and `flags_long_mode` read.
proof fn lemma_bits(a: u8)
    by (bit_vector)
    ensures
        (a & 0x80 != 0) == (a / 0x80 == 1),
        (a >> 5) & 3 == a / 0x20 % 4,
        (a & 0x60 == 0x20) == (a / 0x20 % 4 == 1),
        (a & 0x10 != 0) == (a / 0x10 % 2 == 1),
        (a & 8 != 0) == (a / 8 % 2 == 1),
        (a & 2 != 0) == (a / 2 % 2 == 1),
{
}

/// Whether a flag byte marks a segment as holding 64-bit code: bit 5 is set
/// and bit 6, which asks for 32-bit operands, is clear.
pub open spec fn flags_long_mode(flags: u8) -> bool {
    flags / 0x20 % 4 == 1
}

/// Whether a flag byte counts the limit in units of 4 KiB (bit 7).
pub open spec fn flags_granular(flags: u8) -> bool {
    flags / 0x80 == 1
}

/// Packs the access byte of a segment. A privilege level above 3 does not fit
/// its two bits. It is not refused: the result is still what `access_byte`
/// says, but describes no segment.
pub fn generate_access_byte(dpl: u8, executable: bool, dc: bool, rw: bool) -> (access: u8)
    ensures
        access == access_byte(dpl, executable, dc, rw),
        dpl <= 3 ==> access_fields(access) == (Access {
            present: true,
            dpl: dpl as int,
            segment: true,
            executable,
            dc,
            rw,
            accessed: false,
        }),
{
    proof {
        if dpl <= 3 {
            lemma_access_byte_fields(dpl, executable, dc, rw);
        }
    }
    let e: u8 = executable as u8;
    let d: u8 = dc as u8;
    let w: u8 = rw as u8;
    assert(1u8 << 7 == 0x80u8 && 1u8 << 4 == 0x10u8) by (bit_vector);
    (1 << 7) | (dpl << 5) | (1 << 4) | (e << 3) | (d << 2) | (w << 1)
}

impl Entry {
    /// The entry for a segment of the given privilege level and kind. The
    /// null entry is all zero whatever the level.
    pub open spec fn spec_new(dpl: u8, entry_type: EntryType) -> Entry {
        match entry_type {
            EntryType::Null => Entry { access: 0, flags: 0 },
            EntryType::Code { conforming, readable } => Entry {
                access: access_byte(dpl, true, conforming, readable),
                flags: FLAG_BYTE,
            },
            EntryType::Data { grow_down, writable } => Entry {
                access: access_byte(dpl, false, grow_down, writable),
                flags: FLAG_BYTE,
            },
        }
    }

    /// The entry as it lies in memory: limit and base are zero, so only
    /// bytes 5 and 6 carry anything.
    pub open spec fn bytes(&self) -> Seq<u8> {
        seq![0u8, 0u8, 0u8, 0u8, 0u8, self.access, self.flags, 0u8]
    }

    #[verifier::when_used_as_spec(spec_new)]
    pub fn new(dpl: u8, entry_type: EntryType) -> (entry: Entry)
        ensures
            entry == Entry::spec_new(dpl, entry_type),
    {
        match entry_type {
            EntryType::Null => Entry { access: 0, flags: 0 },
            EntryType::Code { conforming, readable } => Entry {
                access: generate_access_byte(dpl, true, conforming, readable),
                flags: FLAG_BYTE,
            },
            EntryType::Data { grow_down, writable } => Entry {
                access: generate_access_byte(dpl, false, grow_down, writable),
                flags: FLAG_BYTE,
            },
        }
    }

    /// The fields of the entry's access byte.
    pub open spec fn fields(&self) -> Access {
        access_fields(self.access)
    }

    /// Whether the segment is marked present.
    pub fn is_present(&self) -> (present: bool)
        ensures
            present == self.fields().present,
    {
        proof {
            lemma_bits(self.access);
        }
        self.access & 0x80 != 0
    }

    /// The privilege level that the segment asks for.
    pub fn dpl(&self) -> (dpl: u8)
        ensures
            dpl == self.fields().dpl,
    {
        proof {
            lemma_bits(self.access);
        }
        (self.access >> 5) & 3
    }

    /// Whether the entry describes a code or data segment, not a system
    /// object.
    pub fn is_segment(&self) -> (segment: bool)
        ensures
            segment == self.fields().segment,
    {
        proof {
            lemma_bits(self.access);
        }
        self.access & 0x10 != 0
    }

    /// Whether the segment holds code.
    pub fn is_executable(&self) -> (executable: bool)
        ensures
            executable == self.fields().executable,
    {
        proof {
            lemma_bits(self.access);
        }
        self.access & 8 != 0
    }

    /// Whether code may be read, or data written.
    pub fn is_readable_or_writable(&self) -> (rw: bool)
        ensures
            rw == self.fields().rw,
    {
        proof {
            lemma_bits(self.access);
        }
        self.access & 2 != 0
    }

    /// Whether the segment holds 64-bit code.
    pub fn is_long_mode(&self) -> (long_mode: bool)
        ensures
            long_mode == flags_long_mode(self.flags),
    {
        proof {
            lemma_bits(self.flags);
        }
        self.flags & 0x60 == 0x20
    }

    /// Encodes the entry in the eight bytes the processor reads.
    pub fn to_bytes(&self) -> (b: [u8; 8])
        ensures
            b@ == self.bytes(),
    {
        let b: [u8; 8] = [0, 0, 0, 0, 0, self.access, self.flags, 0];
        assert(b@ =~= self.bytes());
        b
    }
}

/// The segment table.
#[derive(Clone, Copy)]
pub struct Table {
    pub entries: [Entry; GDT_SIZE],
}

impl Table {
    /// The entries in table order.
    pub open spec fn view(&self) -> Seq<Entry> {
        self.entries@
    }

    /// The table as it lies in memory: the entries one after another.
    pub open spec fn bytes(&self) -> Seq<u8> {
        Seq::new(TABLE_BYTES as nat, |k: int| self@[k / 8].bytes()[k % 8])
    }

    /// A table of null entries.
    pub fn new() -> (table: Table)
        ensures
            table@ == Seq::new(GDT_SIZE as nat, |i: int| Entry::spec_new(0, EntryType::Null)),
    {
        let table = Table { entries: [Entry::new(0, EntryType::Null);GDT_SIZE] };
        assert(table@ =~= Seq::new(GDT_SIZE as nat, |i: int| Entry::spec_new(0, EntryType::Null)));
        table
    }

    /// The entry at `index`.
    pub fn index(&self, index: usize) -> (entry: &Entry)
        requires
            index < GDT_SIZE,
        ensures
            *entry == self@[index as int],
    {
        &self.entries[index]
    }

    /// The entry at `index`, to be changed in place.
    pub fn index_mut(&mut self, index: usize) -> (entry: &mut Entry)
        requires
            index < GDT_SIZE,
        ensures
            *entry == old(self)@[index as int],
            final(self)@ == old(self)@.update(index as int, *final(entry)),
    {
        &mut self.entries[index]
    }

    /// Encodes the table in the bytes the processor reads.
    pub fn to_bytes(&self) -> (b: [u8; 40])
        ensures
            b@ == self.bytes(),
    {
        let mut b: [u8; 40] = [0;40];
        let mut i: usize = 0;
        while i < GDT_SIZE
            invariant
                i <= GDT_SIZE,
                forall|k: int| 0 <= k < 8 * i ==> b@[k] == self@[k / 8].bytes()[k % 8],
            decreases GDT_SIZE - i,
        {
            let e = self.entries[i].to_bytes();
            let mut j: usize = 0;
            while j < ENTRY_BYTES
                invariant
                    i < GDT_SIZE,
                    j <= ENTRY_BYTES,
                    e@ == self@[i as int].bytes(),
                    forall|k: int| 0 <= k < 8 * i + j ==> b@[k] == self@[k / 8].bytes()[k % 8],
                decreases ENTRY_BYTES - j,
            {
                b[8 * i + j] = e[j];
                j += 1;
            }
            i += 1;
        }
        assert(b@ =~= self.bytes());
        b
    }

    /// The descriptor that loads this table once its bytes lie at `base`.
    pub fn descriptor(&self, base: u64) -> (d: Descriptor)
        ensures
            d.size == TABLE_BYTES - 1,
            d.offset == base,
    {
        Descriptor::new((ENTRY_BYTES * GDT_SIZE - 1) as u16, base)
    }
}

/// The five entries of the flat model, in table order: null, kernel code,
/// kernel data, user code, user data. Code is readable and not conforming,
/// data is writable and grows up.
pub open spec fn flat_entries() -> Seq<Entry> {
    seq![
        Entry::spec_new(0, EntryType::Null),
        Entry::spec_new(0, EntryType::Code { conforming: false, readable: true }),
        Entry::spec_new(0, EntryType::Data { grow_down: false, writable: true }),
        Entry::spec_new(3, EntryType::Code { conforming: false, readable: true }),
        Entry::spec_new(3, EntryType::Data { grow_down: false, writable: true }),
    ]
}

/// Builds the segment table of the flat model. The caller places its bytes in
/// memory and loads them with `DATA_SEGMENT` and `CODE_SEGMENT`.
pub fn init() -> (table: Table)
    ensures
        table@ == flat_entries(),
        table@ == seq![
            Entry { access: 0, flags: 0 },
            Entry { access: 0x9A, flags: 0xA0 },
            Entry { access: 0x92, flags: 0xA0 },
            Entry { access: 0xFA, flags: 0xA0 },
            Entry { access: 0xF2, flags: 0xA0 },
        ],
{
    proof {
        lemma_flat_entries();
    }
    let mut table = Table::new();
    *table.index_mut(1) = Entry::new(0, EntryType::Code { conforming: false, readable: true });
    *table.index_mut(2) = Entry::new(0, EntryType::Data { grow_down: false, writable: true });
    *table.index_mut(3) = Entry::new(3, EntryType::Code { conforming: false, readable: true });
    *table.index_mut(4) = Entry::new(3, EntryType::Data { grow_down: false, writable: true });
    assert(table@ =~= flat_entries());
    table
}

/// The flat model in numbers: the access bytes are 0x9A and 0x92 for the
/// kernel and 0xFA and 0xF2 for user programs, and the null entry is zero.
pub proof fn lemma_flat_entries()
    ensures
        flat_entries() == seq![
            Entry { access: 0, flags: 0 },
            Entry { access: 0x9A, flags: 0xA0 },
            Entry { access: 0x92, flags: 0xA0 },
            Entry { access: 0xFA, flags: 0xA0 },
            Entry { access: 0xF2, flags: 0xA0 },
        ],
{
    lemma_access_byte_fields(0, true, false, true);
    lemma_access_byte_fields(0, false, false, true);
    lemma_access_byte_fields(3, true, false, true);
    lemma_access_byte_fields(3, false, false, true);
    assert(flat_entries() =~= seq![
        Entry { access: 0, flags: 0 },
        Entry { access: 0x9A, flags: 0xA0 },
        Entry { access: 0x92, flags: 0xA0 },
        Entry { access: 0xFA, flags: 0xA0 },
        Entry { access: 0xF2, flags: 0xA0 },
    ]);
}

/// The flag byte says what it is meant to say: the limit counts in units of
/// 4 KiB, the segment holds 64-bit code, and the limit's own bits are zero.
pub proof fn lemma_flag_byte()
    ensures
        flags_granular(FLAG_BYTE),
        flags_long_mode(FLAG_BYTE),
        FLAG_BYTE % 0x10 == 0,
{
}

} // verus!
