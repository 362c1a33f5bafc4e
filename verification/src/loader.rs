//! What the boot loader computes before it enters the hypervisor: the size of
//! memory, where the image is placed, and the record handed over at entry.

use crate::addr::{PhysAddr, PHYS_ADDR_LIMIT};
use crate::common::{BootArgs, VMM_AREA_HEAD_VADDR, VMM_AREA_SIZE};
use goblin::elf::Elf;
use vstd::prelude::*;

pub mod paging;

verus! {

/// Size of a page of the firmware's allocator.
pub const PAGE_SIZE: u64 = 0x1000;

/// The hypervisor's area and the page tables built for it lie below this
/// physical address.
pub const MAX_ADDRESS: u64 = 0x4000_0000;

/// Virtual address at which the hypervisor is entered.
pub const VMM_ENTRY_VADDR: u64 = 0x1_0000_1000;

/// One range of the firmware's memory map.
#[derive(Clone, Copy, Debug, PartialEq, Eq, Structural)]
pub struct MemoryRange {
    /// Physical address at which the range starts.
    pub phys_start: u64,
    /// Number of pages of 4 KiB in the range.
    pub page_count: u64,
}

/// First address after a range.
pub open spec fn range_end(range: MemoryRange) -> int {
    range.phys_start + 0x1000 * range.page_count
}

/// The highest end of any range of a memory map, and 0 for an empty map.
pub open spec fn highest_end(map: Seq<MemoryRange>) -> int
    decreases map.len(),
{
    if map.len() == 0 {
        0
    } else {
        let rest = highest_end(map.drop_last());
        let end = range_end(map.last());
        if rest < end {
            end
        } else {
            rest
        }
    }
}

/// No range of a map ends above the highest end, and the highest end of a
/// map that is not empty is the end of one of its ranges.
pub proof fn lemma_highest_end(map: Seq<MemoryRange>)
    ensures
        forall|k: int| 0 <= k < map.len() ==> range_end(#[trigger] map[k]) <= highest_end(map),
        map.len() > 0 ==> exists|k: int|
            0 <= k < map.len() && range_end(#[trigger] map[k]) == highest_end(map),
        highest_end(map) >= 0,
    decreases map.len(),
{
    if map.len() > 0 {
        let rest = map.drop_last();
        lemma_highest_end(rest);
        assert forall|k: int| 0 <= k < map.len() implies range_end(#[trigger] map[k])
            <= highest_end(map) by {
            if k < rest.len() {
                assert(map[k] == rest[k]);
            }
        }
        if highest_end(rest) < range_end(map.last()) {
            assert(range_end(map[map.len() - 1]) == highest_end(map));
        } else if rest.len() > 0 {
            let k = choose|k: int|
                0 <= k < rest.len() && range_end(#[trigger] rest[k]) == highest_end(rest);
            assert(map[k] == rest[k]);
        } else {
            assert(range_end(map[0]) == highest_end(map));
        }
    }
}

/// The size of physical memory: the highest address at which a range of the
/// memory map ends.  There is none where that address does not fit in 64
/// bits.
pub fn get_memory_size(map: &[MemoryRange]) -> (size: Option<u64>)
    ensures
        size.is_some() <==> highest_end(map@) <= u64::MAX,
        size matches Some(s) ==> s == highest_end(map@),
{
    let mut memory_size: u128 = 0;
    let mut i: usize = 0;
    while i < map.len()
        invariant
            i <= map@.len(),
            memory_size == highest_end(map@.take(i as int)),
            memory_size <= 0x1001 * 0x1_0000_0000_0000_0000,
        decreases map@.len() - i,
    {
        let range = &map[i];
        let phys_end: u128 = range.phys_start as u128 + 0x1000 * (range.page_count as u128);
        assert(map@.take(i + 1).drop_last() =~= map@.take(i as int));
        if memory_size < phys_end {
            memory_size = phys_end;
        }
        i = i + 1;
    }
    assert(map@.take(i as int) =~= map@);
    if memory_size <= u64::MAX as u128 {
        Some(memory_size as u64)
    } else {
        None
    }
}

/// Number of pages that the hypervisor's area takes.
pub fn vmm_page_count() -> (count: u64)
    ensures
        count * PAGE_SIZE == VMM_AREA_SIZE,
{
    VMM_AREA_SIZE / PAGE_SIZE
}

/// What has to be added to a virtual address of the hypervisor's area to get
/// the physical address behind it, where the area was placed at the physical
/// address `alloc_paddr`.
pub open spec fn spec_vmm_phys_offset(alloc_paddr: u64) -> int {
    alloc_paddr - VMM_AREA_HEAD_VADDR
}

/// The offset of the hypervisor's area placed at `alloc_paddr`, where it
/// fits in 64 bits with sign.
pub fn vmm_phys_offset(alloc_paddr: u64) -> (offset: Option<i64>)
    ensures
        offset.is_some() <==> spec_vmm_phys_offset(alloc_paddr) <= i64::MAX,
        offset matches Some(o) ==> o == spec_vmm_phys_offset(alloc_paddr),
{
    let difference: i128 = alloc_paddr as i128 - VMM_AREA_HEAD_VADDR as i128;
    if difference <= i64::MAX as i128 {
        Some(difference as i64)
    } else {
        None
    }
}

/// With the offset of an area placed at `alloc_paddr`, the address `x` bytes
/// into the area translates to the address `x` bytes after `alloc_paddr`.
pub proof fn lemma_offset_translates_area(alloc_paddr: u64, x: u64)
    requires
        spec_vmm_phys_offset(alloc_paddr) <= i64::MAX,
        x < VMM_AREA_SIZE,
    ensures
        crate::addr::spec_phys_of(
            (VMM_AREA_HEAD_VADDR + x) as u64,
            spec_vmm_phys_offset(alloc_paddr) as i64,
        ) == alloc_paddr + x,
{
}

/// The record to hand to the hypervisor: the root and the flags of the
/// firmware's page tables, the offset of the area placed at `alloc_paddr`,
/// the size of memory, and the firmware's output routine with its handle.
/// There is none where the root is no physical address or the offset does
/// not fit.
pub fn boot_args(
    uefi_cr3: u64,
    uefi_cr3_flags: u64,
    alloc_paddr: u64,
    memory_size: u64,
    uefi_write_char: u64,
    uefi_output: u64,
) -> (args: Option<BootArgs>)
    ensures
        args.is_some() <==> uefi_cr3 < PHYS_ADDR_LIMIT && spec_vmm_phys_offset(alloc_paddr)
            <= i64::MAX,
        args matches Some(a) ==> {
            &&& a.uefi_cr3@ == uefi_cr3
            &&& a.uefi_cr3_flags == uefi_cr3_flags
            &&& a.vmm_phys_offset == spec_vmm_phys_offset(alloc_paddr)
            &&& a.memory_size == memory_size
            &&& a.uefi_write_char == uefi_write_char
            &&& a.uefi_output == uefi_output
        },
{
    let root = match PhysAddr::try_new(uefi_cr3) {
        Some(root) => root,
        None => { return None; },
    };
    let offset = match vmm_phys_offset(alloc_paddr) {
        Some(offset) => offset,
        None => { return None; },
    };
    Some(
        BootArgs {
            uefi_cr3: root,
            uefi_cr3_flags,
            vmm_phys_offset: offset,
            memory_size,
            uefi_write_char,
            uefi_output,
        },
    )
}

/// The file offset of the first segment of the ELF image `image`, as
/// `goblin` parses it: `p_offset` of the first program header.  There is
/// none where the image does not parse or has no program header.
pub uninterp spec fn elf_first_segment_offset(image: Seq<u8>) -> Option<u64>;

/// Calls `goblin::elf::Elf::parse` on `image` and returns `p_offset` of the
/// first of the program headers.
///
/// Believed of the parser: what it returns depends on the bytes alone.
#[verifier::external_body]
fn first_segment_offset(image: &[u8]) -> (offset: Option<u64>)
    ensures
        offset == elf_first_segment_offset(image@),
{
    match Elf::parse(image) {
        Ok(elf) => elf.program_headers.first().map(|header| header.p_offset),
        Err(_) => None,
    }
}

/// The offset in the image `image` at which the hypervisor's code starts.
pub fn vmm_entry_offset(image: &[u8]) -> (offset: Option<u64>)
    ensures
        offset == elf_first_segment_offset(image@),
{
    first_segment_offset(image)
}

/// The physical address at which the hypervisor's code starts, for an image
/// loaded at `alloc_paddr` whose code starts at offset `vmm_entry_offset`.
/// There is none where the sum is no physical address.
pub fn entry_point(alloc_paddr: u64, vmm_entry_offset: u64) -> (entry: Option<PhysAddr>)
    ensures
        entry.is_some() <==> alloc_paddr + vmm_entry_offset < PHYS_ADDR_LIMIT,
        entry matches Some(e) ==> e@ == alloc_paddr + vmm_entry_offset,
{
    let sum: u128 = alloc_paddr as u128 + vmm_entry_offset as u128;
    if sum < PHYS_ADDR_LIMIT as u128 {
        PhysAddr::try_new(sum as u64)
    } else {
        None
    }
}

} // verus!
