//! The page tables under which the hypervisor is entered: a copy of the
//! firmware's tables, with the hypervisor's area mapped at its virtual
//! address.  Here are the decisions, entry by entry; the caller walks the
//! firmware's tables, takes pages from the firmware and writes the entries.

use crate::addr::{PhysAddr, PHYS_ADDR_LIMIT};
use crate::common::VMM_AREA_SIZE;
use crate::cpu::{PAGE_ADDR_MASK, PAGE_HUGE, PAGE_PRESENT};
use vstd::prelude::*;

verus! {

/// Bit 1 of a page-table entry: the page can be written.
pub const PAGE_WRITABLE: u64 = 0x2;

/// Bit 8 of a page-table entry: the translation is global.
pub const PAGE_GLOBAL: u64 = 0x100;

/// Size of a large page of level 2.
pub const LARGE_PAGE_SIZE: u64 = 0x20_0000;

/// Number of entries of level 2 that map the hypervisor's area.
pub const VMM_AREA_ENTRIES: usize = 256;

/// Index, at level 3, of the gigabyte that holds the hypervisor's area.
pub const VMM_AREA_PDPT_INDEX: usize = 4;

/// Flags of an entry that maps a page of the hypervisor's area: present,
/// writable, large, global.
pub const VMM_AREA_FLAGS: u64 = 0x183;

/// Flags of an entry that maps a page of the same gigabyte outside the
/// hypervisor's area to itself: present, writable, large.
pub const IDENTITY_FLAGS: u64 = 0x83;

/// What is done with one entry of the firmware's tables when they are
/// copied.
#[derive(Clone, Copy, Debug, PartialEq, Eq, Structural)]
pub enum CloneAction {
    /// The entry is unused: the copy keeps its entry as it is.
    Skip,
    /// The entry maps a page: it is copied as it is.
    Copy,
    /// The entry points to a table: that table is copied into a new page,
    /// and the copy's entry points there.
    Descend,
}

/// What is done with `entry` of a table of `level` (4 at the top, 1 at the
/// bottom): an entry that is zero is skipped; an entry of level 1, and a
/// large-page entry of level 2 or 3, is copied; any other is descended into.
pub open spec fn spec_clone_action(level: usize, entry: u64) -> CloneAction {
    if entry == 0 {
        CloneAction::Skip
    } else if ((level == 2 || level == 3) && entry & PAGE_HUGE == PAGE_HUGE) || level == 1 {
        CloneAction::Copy
    } else {
        CloneAction::Descend
    }
}

/// Decides what is done with `entry` of a table of `level`.
pub fn clone_action(level: usize, entry: u64) -> (action: CloneAction)
    ensures
        action == spec_clone_action(level, entry),
{
    if entry == 0 {
        CloneAction::Skip
    } else if ((level == 2 || level == 3) && entry & PAGE_HUGE == PAGE_HUGE) || level == 1 {
        CloneAction::Copy
    } else {
        CloneAction::Descend
    }
}

/// The address of the table that `entry` points to.
pub fn table_of(entry: u64) -> (table: PhysAddr)
    ensures
        table@ == entry & PAGE_ADDR_MASK,
        table@ % 4096 == 0,
{
    proof {
        lemma_entry_parts(entry, 0);
    }
    PhysAddr::new(entry & PAGE_ADDR_MASK)
}

/// The entry with the flags of `entry` that points to `table`.
pub open spec fn spec_linked_entry(table: u64, entry: u64) -> u64 {
    table | (entry & !PAGE_ADDR_MASK)
}

/// How an entry splits into address and flags, and how they join.
proof fn lemma_entry_parts(entry: u64, table: u64)
    ensures
        entry & PAGE_ADDR_MASK < PHYS_ADDR_LIMIT,
        (entry & PAGE_ADDR_MASK) % 4096 == 0,
        table < PHYS_ADDR_LIMIT && table % 4096 == 0 ==> {
            &&& (table | (entry & !PAGE_ADDR_MASK)) & PAGE_ADDR_MASK == table
            &&& (table | (entry & !PAGE_ADDR_MASK)) & !PAGE_ADDR_MASK == entry & !PAGE_ADDR_MASK
        },
{
    assert({
        &&& entry & 0x000f_ffff_ffff_f000 < 0x10_0000_0000_0000
        &&& (entry & 0x000f_ffff_ffff_f000) % 4096 == 0
        &&& (table < 0x10_0000_0000_0000 && table % 4096 == 0 ==> {
            &&& (table | (entry & !0x000f_ffff_ffff_f000u64)) & 0x000f_ffff_ffff_f000 == table
            &&& (table | (entry & !0x000f_ffff_ffff_f000u64)) & !0x000f_ffff_ffff_f000u64 == entry
                & !0x000f_ffff_ffff_f000u64
        })
    }) by (bit_vector);
}

/// The entry of the copy that stands for `entry` of the firmware's table,
/// once the table that `entry` points to was copied to the page at `table`:
/// it points to `table` and has the flags of `entry`.  `table` has to be
/// page-aligned.
pub fn linked_entry(table: PhysAddr, entry: u64) -> (linked: Option<u64>)
    ensures
        linked.is_some() <==> table@ % 4096 == 0,
        linked matches Some(e) ==> {
            &&& e == spec_linked_entry(table@, entry)
            &&& e & PAGE_ADDR_MASK == table@
            &&& e & !PAGE_ADDR_MASK == entry & !PAGE_ADDR_MASK
        },
{
    if !table.is_page_aligned() {
        return None;
    }
    let addr = table.as_u64();
    proof {
        lemma_entry_parts(entry, addr);
    }
    Some(addr | (entry & !PAGE_ADDR_MASK))
}

/// The physical address at which the hypervisor's area is mapped: the
/// address of the hypervisor's entry, rounded down to a large page.
pub open spec fn spec_area_base(vmm_entry_phys: u64) -> u64 {
    vmm_entry_phys & !0x1f_ffffu64
}

/// Whether the gigabyte of the hypervisor's area was one large page in the
/// firmware's tables: its entry of level 3 is present and large.
pub open spec fn spec_gigabyte_is_large(pdpte: u64) -> bool {
    pdpte & (PAGE_HUGE | PAGE_PRESENT) == PAGE_HUGE | PAGE_PRESENT
}

/// Entry `index` of the table of level 2 for the gigabyte of the
/// hypervisor's area.  The first 256 entries map the area, in large pages
/// from the area's base upwards.  The others are those of the firmware's
/// table, `uefi_pde` being its entry `index`; where the firmware mapped the
/// gigabyte as one large page, they map the same addresses to themselves.
pub open spec fn spec_area_pd_entry(
    index: usize,
    vmm_entry_phys: u64,
    uefi_pde: u64,
    uefi_pdpte: u64,
) -> u64 {
    if index < VMM_AREA_ENTRIES {
        ((spec_area_base(vmm_entry_phys) + LARGE_PAGE_SIZE * index) as u64) | VMM_AREA_FLAGS
    } else if spec_gigabyte_is_large(uefi_pdpte) {
        ((0x1_0000_0000 + LARGE_PAGE_SIZE * index) as u64) | IDENTITY_FLAGS
    } else {
        uefi_pde
    }
}

/// Facts about the entries of the hypervisor's area.
proof fn lemma_area_entry(base: u64, index: u64, entry: u64)
    ensures
        entry & !0x1f_ffffu64 <= entry,
        (entry & !0x1f_ffffu64) % 0x20_0000 == 0,
        base % 0x20_0000 == 0 && base < PHYS_ADDR_LIMIT && index < 512 && base + 0x20_0000 * index
            < PHYS_ADDR_LIMIT ==> {
            let e = ((base + 0x20_0000 * index) as u64) | VMM_AREA_FLAGS;
            &&& e & PAGE_ADDR_MASK == base + 0x20_0000 * index
            &&& e & PAGE_PRESENT == PAGE_PRESENT
            &&& e & PAGE_HUGE == PAGE_HUGE
            &&& e & PAGE_WRITABLE == PAGE_WRITABLE
            &&& e & PAGE_GLOBAL == PAGE_GLOBAL
        },
        index < 512 ==> {
            let e = ((0x1_0000_0000 + 0x20_0000 * index) as u64) | IDENTITY_FLAGS;
            &&& e & PAGE_ADDR_MASK == 0x1_0000_0000 + 0x20_0000 * index
            &&& e & PAGE_PRESENT == PAGE_PRESENT
            &&& e & PAGE_HUGE == PAGE_HUGE
            &&& e & PAGE_WRITABLE == PAGE_WRITABLE
        },
{
    assert({
        &&& entry & !0x1f_ffffu64 <= entry
        &&& (entry & !0x1f_ffffu64) % 0x20_0000 == 0
    }) by (bit_vector);
    assert(base % 0x20_0000 == 0 && base < 0x10_0000_0000_0000 && index < 512 && base + 0x20_0000
        * index < 0x10_0000_0000_0000 ==> {
        let e = ((base + 0x20_0000 * index) as u64) | 0x183;
        &&& e & 0x000f_ffff_ffff_f000 == base + 0x20_0000 * index
        &&& e & 0x1 == 0x1
        &&& e & 0x80 == 0x80
        &&& e & 0x2 == 0x2
        &&& e & 0x100 == 0x100
    }) by (bit_vector);
    assert(index < 512 ==> {
        let e = ((0x1_0000_0000 + 0x20_0000 * index) as u64) | 0x83;
        &&& e & 0x000f_ffff_ffff_f000 == 0x1_0000_0000 + 0x20_0000 * index
        &&& e & 0x1 == 0x1
        &&& e & 0x80 == 0x80
        &&& e & 0x2 == 0x2
    }) by (bit_vector);
}

/// Entry `index` of the table of level 2 for the gigabyte of the
/// hypervisor's area: see `spec_area_pd_entry`.  `index` is below 512.
/// There is no entry for a page of the area that would lie beyond the
/// physical addresses.
pub fn area_pd_entry(index: usize, vmm_entry_phys: PhysAddr, uefi_pde: u64, uefi_pdpte: u64) -> (entry:
    Option<u64>)
    requires
        index < 512,
    ensures
        entry.is_some() <==> (index < VMM_AREA_ENTRIES ==> spec_area_base(vmm_entry_phys@)
            + LARGE_PAGE_SIZE * index < PHYS_ADDR_LIMIT),
        entry matches Some(e) ==> e == spec_area_pd_entry(
            index,
            vmm_entry_phys@,
            uefi_pde,
            uefi_pdpte,
        ),
        entry matches Some(e) ==> index < VMM_AREA_ENTRIES ==> {
            &&& e & PAGE_ADDR_MASK == spec_area_base(vmm_entry_phys@) + LARGE_PAGE_SIZE * index
            &&& e & PAGE_PRESENT == PAGE_PRESENT
            &&& e & PAGE_HUGE == PAGE_HUGE
        },
{
    let entry_phys = vmm_entry_phys.as_u64();
    let base: u64 = entry_phys & !0x1f_ffffu64;
    proof {
        lemma_area_entry(base, index as u64, entry_phys);
    }
    if index < VMM_AREA_ENTRIES {
        let addr: u64 = base + LARGE_PAGE_SIZE * (index as u64);
        if addr < PHYS_ADDR_LIMIT {
            Some(addr | VMM_AREA_FLAGS)
        } else {
            None
        }
    } else if uefi_pdpte & (PAGE_HUGE | PAGE_PRESENT) == PAGE_HUGE | PAGE_PRESENT {
        let addr: u64 = 0x1_0000_0000 + LARGE_PAGE_SIZE * (index as u64);
        Some(addr | IDENTITY_FLAGS)
    } else {
        Some(uefi_pde)
    }
}

/// The entry of level 3 for the gigabyte of the hypervisor's area: it points
/// to the table of level 2 at `pd_table` and has the flags of the entry
/// `pdpte` that stood there, without the large-page flag where that entry was
/// a present large page.
pub open spec fn spec_area_pdpt_entry(pd_table: u64, pdpte: u64) -> u64 {
    let flags = pdpte & !PAGE_ADDR_MASK;
    if spec_gigabyte_is_large(pdpte) {
        pd_table | (flags & !PAGE_HUGE)
    } else {
        pd_table | flags
    }
}

/// The entry of level 3 for the gigabyte of the hypervisor's area: see
/// `spec_area_pdpt_entry`.  `pd_table` has to be page-aligned.
pub fn area_pdpt_entry(pd_table: PhysAddr, pdpte: u64) -> (entry: Option<u64>)
    ensures
        entry.is_some() <==> pd_table@ % 4096 == 0,
        entry matches Some(e) ==> {
            &&& e == spec_area_pdpt_entry(pd_table@, pdpte)
            &&& e & PAGE_ADDR_MASK == pd_table@
            &&& pdpte & PAGE_PRESENT == PAGE_PRESENT ==> e & PAGE_PRESENT == PAGE_PRESENT && e
                & PAGE_HUGE == 0
        },
{
    if !pd_table.is_page_aligned() {
        return None;
    }
    let addr = pd_table.as_u64();
    let flags: u64 = pdpte & !PAGE_ADDR_MASK;
    proof {
        assert(addr < 0x10_0000_0000_0000 && addr % 4096 == 0 ==> {
            let f = pdpte & !0x000f_ffff_ffff_f000u64;
            &&& (addr | (f & !0x80u64)) & 0x000f_ffff_ffff_f000 == addr
            &&& (addr | f) & 0x000f_ffff_ffff_f000 == addr
            &&& (pdpte & 0x1 == 0x1 ==> (addr | (f & !0x80u64)) & 0x1 == 0x1 && (addr | f) & 0x1
                == 0x1)
            &&& (addr | (f & !0x80u64)) & 0x80 == 0
            &&& (pdpte & (0x80u64 | 0x1u64) != 0x80u64 | 0x1u64 && pdpte & 0x1 == 0x1 ==> (addr | f)
                & 0x80 == 0)
        }) by (bit_vector);
    }
    if pdpte & (PAGE_HUGE | PAGE_PRESENT) == PAGE_HUGE | PAGE_PRESENT {
        Some(addr | (flags & !PAGE_HUGE))
    } else {
        Some(addr | flags)
    }
}

/// The hypervisor's area is mapped in one piece, where it lies within the
/// physical addresses: the address `x` bytes into the area lies in the large
/// page of entry `x / 2 MiB`, which maps it to the address `x` bytes after
/// the area's base.
pub proof fn lemma_area_is_mapped(vmm_entry_phys: u64, uefi_pde: u64, uefi_pdpte: u64, x: u64)
    requires
        spec_area_base(vmm_entry_phys) + VMM_AREA_SIZE <= PHYS_ADDR_LIMIT,
        x < VMM_AREA_SIZE,
    ensures
        ({
            let index = (x / LARGE_PAGE_SIZE) as usize;
            let entry = spec_area_pd_entry(index, vmm_entry_phys, uefi_pde, uefi_pdpte);
            &&& index < VMM_AREA_ENTRIES
            &&& entry & PAGE_PRESENT == PAGE_PRESENT
            &&& entry & PAGE_HUGE == PAGE_HUGE
            &&& (entry & PAGE_ADDR_MASK) + x % LARGE_PAGE_SIZE == spec_area_base(vmm_entry_phys)
                + x
        }),
{
    let index = (x / LARGE_PAGE_SIZE) as u64;
    let base = spec_area_base(vmm_entry_phys);
    lemma_area_entry(base, index, vmm_entry_phys);
    assert(base + 0x20_0000 * index < PHYS_ADDR_LIMIT);
}

} // verus!
