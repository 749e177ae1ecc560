//! The early allocator: it hands out pages of physical memory straight from
//! the boot loader's memory map, before anything better exists.
//!
//! A page is taken from the front of the first region that may be used and
//! still holds one. Nothing is ever given back, and the map keeps its shape:
//! no region is moved, merged or retyped.

use super::PAGE_SIZE;
use vstd::prelude::*;

verus! {

/// What a region of physical memory holds.
#[derive(Clone, Copy, Debug, PartialEq, Eq, Structural)]
pub enum MemoryRegionType {
    Usable,
    Reserved,
    AcpiReclaimable,
    AcpiNvs,
    BadMemory,
    BootloaderReclaimable,
    KernelAndModules,
    Framebuffer,
}

/// One region of the memory map.
#[derive(Clone, Copy, Debug, PartialEq, Eq, Structural)]
pub struct MemoryRegion {
    pub base: u64,
    pub len: u64,
    pub typ: MemoryRegionType,
}

/// Hands out pages from a memory map that someone else owns.
///
/// The map is borrowed for as long as the allocator lives. The field is
/// public so that contracts can speak of the map as its owner finds it once
/// the allocator is gone.
pub struct Allocator<'a> {
    pub mmap: &'a mut [MemoryRegion],
}

impl MemoryRegion {
    /// Whether pages may be taken from the region at all: it is free memory,
    /// or memory that only the boot loader used.
    pub open spec fn eligible(&self) -> bool {
        self.typ == MemoryRegionType::Usable || self.typ == MemoryRegionType::BootloaderReclaimable
    }

    /// Whether a page can be taken from the region now.
    pub open spec fn has_page(&self) -> bool {
        self.eligible() && self.len >= PAGE_SIZE
    }

    /// Whether the region's end, the address after its last byte, fits in 64
    /// bits.
    pub open spec fn wf(&self) -> bool {
        self.base + self.len <= u64::MAX
    }

    /// Whether the region starts and ends on page boundaries.
    pub open spec fn aligned(&self) -> bool {
        self.base % (PAGE_SIZE as u64) == 0 && self.len % (PAGE_SIZE as u64) == 0
    }

    /// The region less its first page.
    pub open spec fn carved(&self) -> MemoryRegion {
        MemoryRegion {
            base: (self.base + PAGE_SIZE) as u64,
            len: (self.len - PAGE_SIZE) as u64,
            typ: self.typ,
        }
    }
}

/// Whether region `i` is the one that the next page comes from: the first
/// that has a page.
pub open spec fn serves(regions: Seq<MemoryRegion>, i: int) -> bool {
    &&& 0 <= i < regions.len()
    &&& regions[i].has_page()
    &&& forall|j: int| 0 <= j < i ==> !(#[trigger] regions[j]).has_page()
}

/// Whether no region has a page left.
pub open spec fn exhausted(regions: Seq<MemoryRegion>) -> bool {
    forall|i: int| 0 <= i < regions.len() ==> !(#[trigger] regions[i]).has_page()
}

/// Whether the end of every region that has a page fits in 64 bits. Of the
/// other regions nothing is asked.
pub open spec fn all_wf(regions: Seq<MemoryRegion>) -> bool {
    forall|i: int| 0 <= i < regions.len() && (#[trigger] regions[i]).has_page() ==> regions[i].wf()
}

/// Whether every region from which pages may be taken starts and ends on
/// page boundaries. The boot loader promises as much.
pub open spec fn all_aligned(regions: Seq<MemoryRegion>) -> bool {
    forall|i: int| 0 <= i < regions.len() && (#[trigger] regions[i]).eligible() ==> regions[i].aligned()
}

/// Whether pages may be taken from some region that holds `address`.
pub open spec fn available(regions: Seq<MemoryRegion>, address: int) -> bool {
    exists|i: int|
        0 <= i < regions.len() && (#[trigger] regions[i]).eligible() && regions[i].base <= address
            < regions[i].base + regions[i].len
}

/// Whether no two regions from which pages may be taken share an address.
/// The boot loader promises as much.
pub open spec fn all_disjoint(regions: Seq<MemoryRegion>) -> bool {
    forall|i: int, j: int|
        0 <= i < j < regions.len() && (#[trigger] regions[i]).eligible() && (
        #[trigger] regions[j]).eligible() ==> regions[i].base + regions[i].len <= regions[j].base
            || regions[j].base + regions[j].len <= regions[i].base
}

/// A page that has been handed out is gone from the map: nothing becomes
/// available that was not, the page was all available before, and where the
/// regions are disjoint none of it is available afterwards. So no page is
/// handed out twice.
pub proof fn lemma_page_leaves_the_map(regions: Seq<MemoryRegion>, i: int)
    requires
        serves(regions, i),
        regions[i].wf(),
    ensures
        forall|a: int|
            available(regions.update(i, regions[i].carved()), a) ==> available(regions, a),
        forall|a: int| regions[i].base <= a < regions[i].base + PAGE_SIZE ==> available(regions, a),
        all_disjoint(regions) ==> all_disjoint(regions.update(i, regions[i].carved())) && forall|
            a: int,
        |
            regions[i].base <= a < regions[i].base + PAGE_SIZE ==> !available(
                regions.update(i, regions[i].carved()),
                a,
            ),
{
    let after = regions.update(i, regions[i].carved());
    assert forall|a: int| available(after, a) implies available(regions, a) by {
        let k = choose|k: int|
            0 <= k < after.len() && (#[trigger] after[k]).eligible() && after[k].base <= a
                < after[k].base + after[k].len;
        assert(regions[k].eligible() && regions[k].base <= a < regions[k].base + regions[k].len);
    }
    assert forall|a: int| regions[i].base <= a < regions[i].base + PAGE_SIZE implies available(
        regions,
        a,
    ) by {
        assert(regions[i].eligible() && regions[i].base <= a < regions[i].base + regions[i].len);
    }
    if all_disjoint(regions) {
        assert forall|j: int, k: int|
            0 <= j < k < after.len() && (#[trigger] after[j]).eligible() && (
            #[trigger] after[k]).eligible() implies after[j].base + after[j].len <= after[k].base
            || after[k].base + after[k].len <= after[j].base by {
            assert(regions[j].eligible() && regions[k].eligible());
        }
        assert forall|a: int| regions[i].base <= a < regions[i].base + PAGE_SIZE implies !available(
            after,
            a,
        ) by {
            if available(after, a) {
                let k = choose|k: int|
                    0 <= k < after.len() && (#[trigger] after[k]).eligible() && after[k].base <= a
                        < after[k].base + after[k].len;
                if k != i {
                    assert(regions[k].eligible() && regions[i].eligible());
                    if k < i {
                        assert(regions[k].base + regions[k].len <= regions[i].base || regions[i].base
                            + regions[i].len <= regions[k].base);
                    } else {
                        assert(regions[i].base + regions[i].len <= regions[k].base || regions[k].base
                            + regions[k].len <= regions[i].base);
                    }
                }
            }
        }
    }
}

/// At most one region serves: which one is next is never in doubt.
pub proof fn lemma_serves_unique(regions: Seq<MemoryRegion>, i: int, j: int)
    requires
        serves(regions, i),
        serves(regions, j),
    ensures
        i == j,
{
}

impl<'a> Allocator<'a> {
    /// The regions as they are now.
    pub open spec fn view(&self) -> Seq<MemoryRegion> {
        self.mmap@
    }

    /// An allocator on the given map.
    pub fn new(mmap: &'a mut [MemoryRegion]) -> (allocator: Allocator<'a>)
        ensures
            allocator@ == old(mmap)@,
            final(allocator.mmap)@ == final(mmap)@,
    {
        Allocator { mmap }
    }

    /// Takes one page from the front of the first region that has one and
    /// returns its address, or returns `None` where no region has one.
    pub fn allocate(&mut self) -> (page: Option<u64>)
        requires
            all_wf(old(self)@),
        ensures
            final(final(self).mmap)@ == final(old(self).mmap)@,
            page is None <==> exhausted(old(self)@),
            page is None ==> final(self)@ == old(self)@,
            page matches Some(base) ==> exists|i: int|
                serves(old(self)@, i) && base == old(self)@[i].base && final(self)@ == old(
                    self,
                )@.update(i, old(self)@[i].carved()),
            final(self)@.len() == old(self)@.len(),
            forall|i: int|
                0 <= i < old(self)@.len() ==> (#[trigger] final(self)@[i]).typ == old(self)@[i].typ
                    && final(self)@[i].base + final(self)@[i].len == old(self)@[i].base + old(
                    self,
                )@[i].len,
            all_wf(final(self)@),
            all_aligned(old(self)@) ==> all_aligned(final(self)@) && (page matches Some(base)
                ==> base % (PAGE_SIZE as u64) == 0),
    {
        let count = self.mmap.len();
        let mut i: usize = 0;
        while i < count
            invariant
                i <= count,
                count == self@.len(),
                self@ == old(self)@,
                final(self.mmap)@ == final(old(self).mmap)@,
                all_wf(self@),
                forall|j: int| 0 <= j < i ==> !(#[trigger] self@[j]).has_page(),
            decreases count - i,
        {
            let region = self.mmap[i];
            if (region.typ == MemoryRegionType::Usable || region.typ
                == MemoryRegionType::BootloaderReclaimable) && region.len >= PAGE_SIZE as u64 {
                assert(region.wf());
                self.mmap[i] = MemoryRegion {
                    base: region.base + PAGE_SIZE as u64,
                    len: region.len - PAGE_SIZE as u64,
                    typ: region.typ,
                };
                proof {
                    assert(serves(old(self)@, i as int));
                    assert(self@ =~= old(self)@.update(i as int, old(self)@[i as int].carved()));
                    if region.aligned() {
                        lemma_carved_aligned(region);
                    }
                }
                return Some(region.base);
            }
            i += 1;
        }
        None
    }
}

/// Taking a page from an aligned region leaves an aligned region.
proof fn lemma_carved_aligned(region: MemoryRegion)
    requires
        region.aligned(),
        region.len >= PAGE_SIZE,
        region.wf(),
    ensures
        region.carved().aligned(),
{
    let base = region.base as int;
    let len = region.len as int;
    assert(base % 4096 == 0 && len % 4096 == 0);
    assert((base + 4096) % 4096 == 0 && (len - 4096) % 4096 == 0);
    assert(region.carved().base == base + 4096);
    assert(region.carved().len == len - 4096);
}

} // verus!
