//! The layout of guest physical memory and the ranges that hold RAM.

use vstd::prelude::*;

verus! {

/// The entries of the memory layout.
#[derive(Clone, Copy, Debug, PartialEq, Eq, Structural)]
pub enum LayoutEntryType {
    MemBelow4g,
    PcieMmio,
    PcieEcam,
    Mmio,
    IoApic,
    LocalApic,
    MemAbove4g,
}

/// Where RAM below 4 GiB ends and the gap for devices begins.
pub const GAP_START: u64 = 0xC000_0000;

/// Where the gap ends and RAM above 4 GiB begins.
pub const GAP_END: u64 = 0x1_0000_0000;

/// Base and size of an entry of the memory layout.
pub open spec fn layout_entry(entry: LayoutEntryType) -> (u64, u64) {
    match entry {
        LayoutEntryType::MemBelow4g => (0u64, 0xC000_0000u64),
        LayoutEntryType::PcieEcam => (0xB000_0000u64, 0x1000_0000u64),
        LayoutEntryType::PcieMmio => (0xC000_0000u64, 0x3000_0000u64),
        LayoutEntryType::Mmio => (0xF010_0000u64, 0x200u64),
        LayoutEntryType::IoApic => (0xFEC0_0000u64, 0x10_0000u64),
        LayoutEntryType::LocalApic => (0xFEE0_0000u64, 0x10_0000u64),
        LayoutEntryType::MemAbove4g => (0x1_0000_0000u64, 0x80_0000_0000u64),
    }
}

/// Base and size of an entry of the memory layout.
pub fn mem_layout(entry: LayoutEntryType) -> (r: (u64, u64))
    ensures
        r == layout_entry(entry),
        r.0 + r.1 <= u64::MAX,
{
    match entry {
        LayoutEntryType::MemBelow4g => (0, 0xC000_0000),
        LayoutEntryType::PcieEcam => (0xB000_0000, 0x1000_0000),
        LayoutEntryType::PcieMmio => (0xC000_0000, 0x3000_0000),
        LayoutEntryType::Mmio => (0xF010_0000, 0x200),
        LayoutEntryType::IoApic => (0xFEC0_0000, 0x10_0000),
        LayoutEntryType::LocalApic => (0xFEE0_0000, 0x10_0000),
        LayoutEntryType::MemAbove4g => (0x1_0000_0000, 0x80_0000_0000),
    }
}

/// The ranges of guest memory that hold `mem_size` bytes of RAM, each by
/// start and size: RAM fills the space below the gap first and goes on
/// above 4 GiB.
pub open spec fn ram_ranges(mem_size: u64) -> Seq<(u64, u64)> {
    if mem_size <= GAP_START {
        seq![(0u64, mem_size)]
    } else {
        seq![(0u64, GAP_START), (GAP_END, (mem_size - GAP_START) as u64)]
    }
}

/// Whether the range of `size` bytes from `start` and the layout entry
/// `entry` have a byte in common.
pub open spec fn overlaps(start: u64, size: u64, entry: LayoutEntryType) -> bool {
    let (base, len) = layout_entry(entry);
    start < base + len && base < start + size
}

/// The RAM ranges hold `mem_size` bytes between them, and none reaches into
/// the windows of PCI memory, of the memory-mapped devices or of the two
/// interrupt controllers.
pub proof fn lemma_ram_ranges(mem_size: u64)
    ensures
        mem_size <= GAP_START ==> ram_ranges(mem_size) == seq![(0u64, mem_size)],
        mem_size > GAP_START ==> ram_ranges(mem_size) == seq![
            (0u64, 0xC000_0000u64),
            (0x1_0000_0000u64, (mem_size - 0xC000_0000) as u64),
        ],
        ram_ranges(mem_size).fold_left(0int, |sum: int, r: (u64, u64)| sum + r.1) == mem_size,
        forall|i: int|
            #![trigger ram_ranges(mem_size)[i]]
            0 <= i < ram_ranges(mem_size).len() ==> {
                let (start, size) = ram_ranges(mem_size)[i];
                &&& !overlaps(start, size, LayoutEntryType::PcieMmio)
                &&& !overlaps(start, size, LayoutEntryType::Mmio)
                &&& !overlaps(start, size, LayoutEntryType::IoApic)
                &&& !overlaps(start, size, LayoutEntryType::LocalApic)
            },
{
    let add = |sum: int, r: (u64, u64)| sum + r.1;
    let ranges = ram_ranges(mem_size);
    reveal_with_fuel(Seq::fold_left, 3);
    if mem_size <= GAP_START {
        assert(ranges.drop_last() =~= Seq::<(u64, u64)>::empty());
    } else {
        assert(ranges.drop_last() =~= seq![(0u64, GAP_START)]);
        assert(ranges.drop_last().drop_last() =~= Seq::<(u64, u64)>::empty());
    }
}

/// The ranges of guest memory that hold `mem_size` bytes of RAM, each by
/// start and size.
pub fn arch_ram_ranges(mem_size: u64) -> (ranges: Vec<(u64, u64)>)
    ensures
        ranges@ == ram_ranges(mem_size),
{
    let mut ranges: Vec<(u64, u64)> = Vec::new();
    let below = mem_layout(LayoutEntryType::MemBelow4g);
    let gap_start: u64 = below.0 + below.1;
    ranges.push(
        (
            0,
            if gap_start < mem_size {
                gap_start
            } else {
                mem_size
            },
        ),
    );
    if mem_size > gap_start {
        let gap_end: u64 = mem_layout(LayoutEntryType::MemAbove4g).0;
        ranges.push((gap_end, mem_size - gap_start));
    }
    assert(ranges@ =~= ram_ranges(mem_size));
    ranges
}

} // verus!
