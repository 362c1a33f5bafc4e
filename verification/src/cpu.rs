//! Processor state as plain values, the decoding of segment descriptors, and
//! the walk through the guest's page tables.

use crate::addr::{PhysAddr, PHYS_ADDR_LIMIT};
use crate::memory::{read_u64, word_at, Memory};
use vstd::prelude::*;

verus! {

/// Why the processor could not be brought into VMX operation.
#[derive(Clone, Copy, Debug, PartialEq, Eq, Structural)]
pub enum CpuError {
    /// `CPUID` does not report VMX.
    NotSupported,
    /// A VMX instruction failed.
    VmxRelated,
}

/// The four registers that `CPUID` fills.
#[derive(Clone, Copy, Debug, PartialEq, Eq, Structural)]
pub struct CpuidResult {
    pub eax: u32,
    pub ebx: u32,
    pub ecx: u32,
    pub edx: u32,
}

/// What `SGDT` and `SIDT` store: the last valid byte offset of a descriptor
/// table, and the address of the table.
#[derive(Clone, Copy, Debug, PartialEq, Eq, Structural)]
pub struct DescriptorTablePointer {
    pub limit: u16,
    pub base: u64,
}

/// The selector registers, the descriptor-table registers and the stack
/// pointer of the firmware, captured right before the hypervisor was entered.
/// They become the guest's initial state.
#[derive(Clone, Copy, Debug, PartialEq, Eq, Structural)]
pub struct FirmwareContext {
    pub cs: u16,
    pub ds: u16,
    pub es: u16,
    pub fs: u16,
    pub gs: u16,
    pub ss: u16,
    pub ldtr: u16,
    pub tr: u16,
    pub gdtr: DescriptorTablePointer,
    pub idtr: DescriptorTablePointer,
    pub rsp: u64,
}

/// The registers of the running processor that the VMCS is filled from.
#[derive(Clone, Copy, Debug, PartialEq, Eq, Structural)]
pub struct CpuState {
    pub cr0: u64,
    pub cr3: u64,
    pub cr4: u64,
    pub dr7: u64,
    pub rflags: u64,
    pub cs: u16,
    pub ds: u16,
    pub es: u16,
    pub fs: u16,
    pub gs: u16,
    pub ss: u16,
    pub tr: u16,
    pub gdtr: DescriptorTablePointer,
    pub idtr: DescriptorTablePointer,
    pub fs_base: u64,
    pub gs_base: u64,
    /// `IA32_SYSENTER_CS`.
    pub sysenter_cs: u64,
    /// `IA32_SYSENTER_ESP`.
    pub sysenter_esp: u64,
    /// `IA32_SYSENTER_EIP`.
    pub sysenter_eip: u64,
    /// `IA32_EFER`.
    pub efer: u64,
    /// `IA32_PAT`.
    pub pat: u64,
}

/// The base address that a 16-byte system-segment descriptor holds, given its
/// low and its high eight bytes: bits 16 to 39 and 56 to 63 of the low half
/// are bits 0 to 31 of the base, and the low 32 bits of the high half are its
/// bits 32 to 63.
pub open spec fn descriptor_base(low: u64, high: u64) -> u64 {
    ((high & 0xffff_ffff) << 32) | ((low & (0xffu64 << 56)) >> 32) | ((low & (0xffu64 << 32))
        >> 16) | ((low & (0xffffu64 << 16)) >> 16)
}

/// The four parts of a descriptor's base, each where the descriptor layout
/// puts it.
pub proof fn lemma_descriptor_base_parts(low: u64, high: u64)
    ensures
        descriptor_base(low, high) & 0xffff == (low >> 16) & 0xffff,
        (descriptor_base(low, high) >> 16) & 0xff == (low >> 32) & 0xff,
        (descriptor_base(low, high) >> 24) & 0xff == (low >> 56) & 0xff,
        descriptor_base(low, high) >> 32 == high & 0xffff_ffff,
{
    assert({
        let b = ((high & 0xffff_ffff) << 32) | ((low & (0xffu64 << 56)) >> 32) | ((low & (0xffu64
            << 32)) >> 16) | ((low & (0xffffu64 << 16)) >> 16);
        &&& b & 0xffff == (low >> 16) & 0xffff
        &&& (b >> 16) & 0xff == (low >> 32) & 0xff
        &&& (b >> 24) & 0xff == (low >> 56) & 0xff
        &&& b >> 32 == high & 0xffff_ffff
    }) by (bit_vector);
}

/// The index into the descriptor table that a selector holds: the selector
/// without its low three bits.
pub open spec fn selector_index(selector: u16) -> u16 {
    selector >> 3
}

/// Address of entry `index` of the descriptor table at `base`.
pub open spec fn descriptor_addr(base: u64, index: int) -> u64 {
    crate::memory::addr_after(base, index * 8)
}

/// Decoding of segment descriptors.
#[derive(Clone, Copy, Debug, PartialEq, Eq, PartialOrd, Ord)]
pub struct SegmentDescriptor;

impl SegmentDescriptor {
    /// The base that `SegmentDescriptor::base` returns: that of the 16-byte
    /// descriptor which the selector picks from the table.  There is none
    /// where the entry after the selected one has an index that is not below
    /// the table's limit.
    pub open spec fn spec_base<M: Memory>(
        selector: u16,
        gdtr: DescriptorTablePointer,
        mem: &M,
    ) -> Option<u64> {
        let i = selector_index(selector) as int;
        if i + 1 < gdtr.limit {
            Some(
                descriptor_base(
                    word_at(mem, descriptor_addr(gdtr.base, i)),
                    word_at(mem, descriptor_addr(gdtr.base, i + 1)),
                ),
            )
        } else {
            None
        }
    }

    /// Reads the descriptor that `selector` picks from the table `gdtr` and
    /// returns the 64-bit base address in it.
    pub fn base<M: Memory>(selector: u16, gdtr: &DescriptorTablePointer, mem: &M) -> (base: Option<
        u64,
    >)
        ensures
            base == Self::spec_base(selector, *gdtr, mem),
    {
        let i: u16 = selector >> 3;
        if i as u32 + 1 >= gdtr.limit as u32 {
            return None;
        }
        let low_addr: u64 = gdtr.base.wrapping_add(i as u64 * 8);
        let high_addr: u64 = gdtr.base.wrapping_add((i as u64 + 1) * 8);
        let low = read_u64(mem, low_addr);
        let high = read_u64(mem, high_addr);
        Some(
            ((high & 0xffff_ffff) << 32) | ((low & (0xffu64 << 56)) >> 32) | ((low & (0xffu64
                << 32)) >> 16) | ((low & (0xffffu64 << 16)) >> 16),
        )
    }
}

/// Bit 0 of a page-table entry: the entry is present.
pub const PAGE_PRESENT: u64 = 0x1;

/// Bit 7 of a page-table entry: the entry maps a large page.
pub const PAGE_HUGE: u64 = 0x80;

/// Bits 12 to 51 of a page-table entry: the address it holds.
pub const PAGE_ADDR_MASK: u64 = 0x000f_ffff_ffff_f000;

/// Whether a page-table entry is present.
pub open spec fn entry_present(entry: u64) -> bool {
    entry & PAGE_PRESENT == PAGE_PRESENT
}

/// Whether a page-table entry maps a large page.
pub open spec fn entry_huge(entry: u64) -> bool {
    entry & PAGE_HUGE == PAGE_HUGE
}

/// The address that a page-table entry holds.
pub open spec fn entry_addr(entry: u64) -> u64 {
    entry & PAGE_ADDR_MASK
}

/// The index that `virt` gives for the table of `level`: nine bits, from bit
/// 39 for level 4 down to bit 12 for level 1.
pub open spec fn table_index(virt: u64, level: int) -> u64 {
    if level == 4 {
        (virt >> 39) & 0x1ff
    } else if level == 3 {
        (virt >> 30) & 0x1ff
    } else if level == 2 {
        (virt >> 21) & 0x1ff
    } else {
        (virt >> 12) & 0x1ff
    }
}

/// The entry that `virt` selects in the table of `level` at address `table`.
pub open spec fn table_entry<M: Memory>(mem: &M, table: u64, virt: u64, level: int) -> u64 {
    word_at(mem, (table + table_index(virt, level) * 8) as u64)
}

/// What the guest's page tables say of a virtual address.
pub enum GuestMapping {
    /// The entry of level 4, 3 or 2 on the way is not present.
    NotPresent,
    /// The walk ended at an entry that holds `frame`; `offset` is the part of
    /// the virtual address below the page size: 30 bits for an entry of level
    /// 3, 21 for one of level 2, 12 for one of level 1.
    Page { frame: u64, offset: u64 },
}

/// Walks the four levels of page tables rooted at `guest_cr3` for
/// `guest_virt`.  An entry of level 3 or 2 with the large-page bit ends the
/// walk early.  The entry of level 1 is taken as it is.
pub open spec fn guest_mapping<M: Memory>(mem: &M, guest_virt: u64, guest_cr3: u64) -> GuestMapping {
    let pml4e = table_entry(mem, guest_cr3 & !0xfffu64, guest_virt, 4);
    let pdpte = table_entry(mem, entry_addr(pml4e), guest_virt, 3);
    let pde = table_entry(mem, entry_addr(pdpte), guest_virt, 2);
    let pte = table_entry(mem, entry_addr(pde), guest_virt, 1);
    if !entry_present(pml4e) {
        GuestMapping::NotPresent
    } else if !entry_present(pdpte) {
        GuestMapping::NotPresent
    } else if entry_huge(pdpte) {
        GuestMapping::Page { frame: entry_addr(pdpte), offset: guest_virt & 0x3fff_ffff }
    } else if !entry_present(pde) {
        GuestMapping::NotPresent
    } else if entry_huge(pde) {
        GuestMapping::Page { frame: entry_addr(pde), offset: guest_virt & 0x1f_ffff }
    } else {
        GuestMapping::Page { frame: entry_addr(pte), offset: guest_virt & 0xfff }
    }
}

/// The guest-physical address that the page walk gives for `guest_virt`:
/// that of the page plus the offset for a mapped address, 0 where an entry
/// of level 4, 3 or 2 is not present, and none where the sum does not fit in
/// 52 bits.
pub open spec fn guest_phys<M: Memory>(mem: &M, guest_virt: u64, guest_cr3: u64) -> Option<u64> {
    match guest_mapping(mem, guest_virt, guest_cr3) {
        GuestMapping::NotPresent => Some(0),
        GuestMapping::Page { frame, offset } => if frame + offset < PHYS_ADDR_LIMIT {
            Some((frame + offset) as u64)
        } else {
            None
        },
    }
}

/// Bounds of the masks that the page walk uses.
proof fn lemma_walk_bounds(x: u64)
    ensures
        (x >> 39) & 0x1ff <= 0x1ff,
        (x >> 30) & 0x1ff <= 0x1ff,
        (x >> 21) & 0x1ff <= 0x1ff,
        (x >> 12) & 0x1ff <= 0x1ff,
        x & PAGE_ADDR_MASK <= PAGE_ADDR_MASK,
        x & !0xfffu64 <= 0xffff_ffff_ffff_f000,
        x & 0x3fff_ffff <= 0x3fff_ffff,
        x & 0x1f_ffff <= 0x1f_ffff,
        x & 0xfff <= 0xfff,
{
    assert({
        &&& (x >> 39) & 0x1ff <= 0x1ff
        &&& (x >> 30) & 0x1ff <= 0x1ff
        &&& (x >> 21) & 0x1ff <= 0x1ff
        &&& (x >> 12) & 0x1ff <= 0x1ff
        &&& x & 0x000f_ffff_ffff_f000 <= 0x000f_ffff_ffff_f000
        &&& x & !0xfffu64 <= 0xffff_ffff_ffff_f000
        &&& x & 0x3fff_ffff <= 0x3fff_ffff
        &&& x & 0x1f_ffff <= 0x1f_ffff
        &&& x & 0xfff <= 0xfff
    }) by (bit_vector);
}

/// The physical address `frame + offset`, if it fits in 52 bits.
fn page_address(frame: u64, offset: u64) -> (phys: Option<PhysAddr>)
    requires
        frame <= PAGE_ADDR_MASK,
        offset <= 0x3fff_ffff,
    ensures
        phys.is_some() <==> frame + offset < PHYS_ADDR_LIMIT,
        phys matches Some(p) ==> p@ == frame + offset,
{
    PhysAddr::try_new(frame + offset)
}

/// Translates the guest-virtual address `guest_virt` to a guest-physical
/// address through the guest's page tables, rooted at `guest_cr3` and read
/// from `mem`.
///
/// A mapped address gives the address held by the entry that ends the walk,
/// plus the offset within the page; an address whose walk meets an entry of
/// level 4, 3 or 2 that is not present gives 0.  Nothing is returned where
/// the sum does not fit in 52 bits.
pub fn guest_virt_to_guest_phys<M: Memory>(guest_virt: u64, guest_cr3: u64, mem: &M) -> (phys:
    Option<PhysAddr>)
    ensures
        phys.is_some() == guest_phys(mem, guest_virt, guest_cr3).is_some(),
        phys matches Some(p) ==> guest_phys(mem, guest_virt, guest_cr3) == Some(p@),
{
    proof {
        lemma_walk_bounds(guest_virt);
        lemma_walk_bounds(guest_cr3);
    }
    let pml4_index: u64 = (guest_virt >> 39) & 0x1ff;
    let pdp_index: u64 = (guest_virt >> 30) & 0x1ff;
    let pd_index: u64 = (guest_virt >> 21) & 0x1ff;
    let pt_index: u64 = (guest_virt >> 12) & 0x1ff;

    let guest_pml4: u64 = guest_cr3 & !0xfffu64;
    let guest_pml4_entry = read_u64(mem, guest_pml4 + pml4_index * 8);
    if guest_pml4_entry & PAGE_PRESENT != PAGE_PRESENT {
        return Some(PhysAddr::new(0));
    }
    proof {
        lemma_walk_bounds(guest_pml4_entry);
    }
    let guest_pdp: u64 = guest_pml4_entry & PAGE_ADDR_MASK;
    let guest_pdp_entry = read_u64(mem, guest_pdp + pdp_index * 8);
    if guest_pdp_entry & PAGE_PRESENT != PAGE_PRESENT {
        return Some(PhysAddr::new(0));
    }
    proof {
        lemma_walk_bounds(guest_pdp_entry);
    }
    if guest_pdp_entry & PAGE_HUGE == PAGE_HUGE {
        let pdp_offset: u64 = guest_virt & 0x3fff_ffff;
        return page_address(guest_pdp_entry & PAGE_ADDR_MASK, pdp_offset);
    }
    let guest_pd: u64 = guest_pdp_entry & PAGE_ADDR_MASK;
    let guest_pd_entry = read_u64(mem, guest_pd + pd_index * 8);
    if guest_pd_entry & PAGE_PRESENT != PAGE_PRESENT {
        return Some(PhysAddr::new(0));
    }
    proof {
        lemma_walk_bounds(guest_pd_entry);
    }
    if guest_pd_entry & PAGE_HUGE == PAGE_HUGE {
        let pd_offset: u64 = guest_virt & 0x1f_ffff;
        return page_address(guest_pd_entry & PAGE_ADDR_MASK, pd_offset);
    }
    let guest_pt: u64 = guest_pd_entry & PAGE_ADDR_MASK;
    let guest_pt_entry = read_u64(mem, guest_pt + pt_index * 8);
    proof {
        lemma_walk_bounds(guest_pt_entry);
    }
    let pt_offset: u64 = guest_virt & 0xfff;
    page_address(guest_pt_entry & PAGE_ADDR_MASK, pt_offset)
}

} // verus!
