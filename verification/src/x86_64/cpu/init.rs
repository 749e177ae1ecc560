//! Bringing the processor up.

use super::gdt;
use super::idt;
use vstd::prelude::*;

verus! {

/// What the boot code hands to the processor, in this order: the segment
/// table with the two selectors to switch to, then the interrupt table. The gates
/// name the kernel's code selector, so they mean nothing before the segment
/// table is in place.
pub struct Tables {
    pub gdt: gdt::Table,
    pub data_segment: u16,
    pub code_segment: u16,
    pub idt: idt::Table,
}

/// Builds both descriptor tables. `stubs` holds the addresses of the 32
/// exception stubs, by vector.
pub fn init(stubs: &[u64; 32]) -> (tables: Tables)
    ensures
        tables.gdt@ == gdt::flat_entries(),
        tables.data_segment == gdt::DATA_SEGMENT,
        tables.code_segment == gdt::CODE_SEGMENT,
        tables.idt@ == idt::exception_entries(stubs@),
        forall|v: int|
            idt::populated(v) ==> (#[trigger] tables.idt@[v]).selector == tables.code_segment
                && tables.idt@[v].spec_handler() == stubs@[v],
{
    let gdt = gdt::init();
    let idt = idt::init(stubs);
    proof {
        assert forall|v: int| idt::populated(v) implies (#[trigger] idt@[v]).selector
            == gdt::CODE_SEGMENT && idt@[v].spec_handler() == stubs@[v] by {
            idt::lemma_join_split(stubs@[v]);
        }
    }
    Tables { gdt, data_segment: gdt::DATA_SEGMENT, code_segment: gdt::CODE_SEGMENT, idt }
}

} // verus!
