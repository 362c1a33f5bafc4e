//! Extended page tables: entries, tables, the EPT pointer, and the builder of
//! the identity map that the guest runs on.

use crate::addr::{phys_of, PhysAddr, VirtAddr, PHYS_ADDR_LIMIT};
use crate::common::BootArgs;
use crate::cpu::table_entry;
use crate::memory::{addr_after, bytes_at, word_at, Memory};
use vstd::bytes::{
    lemma_auto_spec_u64_to_from_le_bytes, spec_u64_to_le_bytes, u64_to_le_bytes,
};
use vstd::prelude::*;

verus! {

/// Bits 12 to 51 of an entry and of the EPT pointer: the address part.
pub const EPT_ADDR_MASK: u64 = 0x000f_ffff_ffff_f000;

/// EPT pointer, bits 2:0 = 0: the paging structures are read uncached.
pub const EPTP_MEMORY_TYPE_UNCACHEABLE: u64 = 0;

/// EPT pointer, bits 2:0 = 6: the paging structures are read write-back.
pub const EPTP_MEMORY_TYPE_WRITEBACK: u64 = 6;

/// EPT pointer, bits 5:3 = 3: the page walk has four levels.
pub const EPTP_PAGE_WALK_LENGTH_4: u64 = 0x18;

/// EPT pointer, bit 6: accessed and dirty flags are enabled.
pub const EPTP_ACCESSED_AND_DIRTY: u64 = 0x40;

/// EPT pointer, bit 7: supervisor shadow-stack control.
pub const EPTP_SUPERVISOR_SHADOW_STACK: u64 = 0x80;

/// Every flag of the EPT pointer.
pub const EPTP_FLAGS_ALL: u64 = 0xde;

pub const EPT_READ_ACCESS: u64 = 0x1;

pub const EPT_WRITE_ACCESS: u64 = 0x2;

pub const EPT_EXECUTE_ACCESS: u64 = 0x4;

/// Entry, bits 5:3 = 0: uncacheable.
pub const EPT_MEMORY_TYPE_UC: u64 = 0x00;

/// Entry, bits 5:3 = 1: write-combining.
pub const EPT_MEMORY_TYPE_WC: u64 = 0x08;

/// Entry, bits 5:3 = 4: write-through.
pub const EPT_MEMORY_TYPE_WT: u64 = 0x20;

/// Entry, bits 5:3 = 5: write-protected.
pub const EPT_MEMORY_TYPE_WP: u64 = 0x28;

/// Entry, bits 5:3 = 6: write-back.
pub const EPT_MEMORY_TYPE_WB: u64 = 0x30;

pub const EPT_IGNORE_PAT_MEMORY_TYPE: u64 = 0x40;

pub const EPT_HUGE_PAGE: u64 = 0x80;

pub const EPT_ACCESSED: u64 = 0x100;

pub const EPT_DIRTY: u64 = 0x200;

pub const EPT_EXECUTE_ACCESS_USER_MODE: u64 = 0x400;

pub const EPT_VERIFY_GUEST_PAGING: u64 = 0x0200_0000_0000_0000;

pub const EPT_PAGING_WRITE_ACCESS: u64 = 0x0400_0000_0000_0000;

pub const EPT_SUPERVISOR_SHADOW_STACK: u64 = 0x1000_0000_0000_0000;

pub const EPT_SUPPRESS_VE: u64 = 0x8000_0000_0000_0000;

/// Every flag of an entry: bits 0 to 10, 57, 58, 60 and 63.
pub const EPT_FLAGS_ALL: u64 = 0x9600_0000_0000_07ff;

/// What the bit operations on entries and pointers come to.
proof fn lemma_ept_bits(raw: u64, addr: u64, flags: u64)
    ensures
        (raw & EPT_FLAGS_ALL) & !EPT_FLAGS_ALL == 0,
        (raw & EPTP_FLAGS_ALL) & !EPTP_FLAGS_ALL == 0,
        raw & EPT_ADDR_MASK < PHYS_ADDR_LIMIT,
        (raw & EPT_ADDR_MASK) % 4096 == 0,
        flags & !EPT_FLAGS_ALL == 0 ==> {
            &&& ((raw & EPT_ADDR_MASK) | flags) & EPT_ADDR_MASK == raw & EPT_ADDR_MASK
            &&& ((raw & EPT_ADDR_MASK) | flags) & EPT_FLAGS_ALL == flags
        },
        flags & !EPTP_FLAGS_ALL == 0 ==> {
            &&& ((raw & EPT_ADDR_MASK) | flags) & EPT_ADDR_MASK == raw & EPT_ADDR_MASK
            &&& ((raw & EPT_ADDR_MASK) | flags) & EPTP_FLAGS_ALL == flags
        },
        addr < PHYS_ADDR_LIMIT && addr % 4096 == 0 ==> {
            &&& addr & EPT_ADDR_MASK == addr
            &&& (addr | (raw & EPT_FLAGS_ALL)) & EPT_ADDR_MASK == addr
            &&& (addr | (raw & EPT_FLAGS_ALL)) & EPT_FLAGS_ALL == raw & EPT_FLAGS_ALL
            &&& (addr | (raw & EPTP_FLAGS_ALL)) & EPT_ADDR_MASK == addr
            &&& (addr | (raw & EPTP_FLAGS_ALL)) & EPTP_FLAGS_ALL == raw & EPTP_FLAGS_ALL
        },
{
    assert({
        &&& (raw & 0x9600_0000_0000_07ff) & !0x9600_0000_0000_07ffu64 == 0
        &&& (raw & 0xde) & !0xdeu64 == 0
        &&& raw & 0x000f_ffff_ffff_f000 < 0x10_0000_0000_0000
        &&& (raw & 0x000f_ffff_ffff_f000) % 4096 == 0
        &&& (flags & !0x9600_0000_0000_07ffu64 == 0 ==> {
            &&& ((raw & 0x000f_ffff_ffff_f000) | flags) & 0x000f_ffff_ffff_f000 == raw
                & 0x000f_ffff_ffff_f000
            &&& ((raw & 0x000f_ffff_ffff_f000) | flags) & 0x9600_0000_0000_07ff == flags
        })
        &&& (flags & !0xdeu64 == 0 ==> {
            &&& ((raw & 0x000f_ffff_ffff_f000) | flags) & 0x000f_ffff_ffff_f000 == raw
                & 0x000f_ffff_ffff_f000
            &&& ((raw & 0x000f_ffff_ffff_f000) | flags) & 0xde == flags
        })
        &&& (addr < 0x10_0000_0000_0000 && addr % 4096 == 0 ==> {
            &&& addr & 0x000f_ffff_ffff_f000 == addr
            &&& (addr | (raw & 0x9600_0000_0000_07ff)) & 0x000f_ffff_ffff_f000 == addr
            &&& (addr | (raw & 0x9600_0000_0000_07ff)) & 0x9600_0000_0000_07ff == raw
                & 0x9600_0000_0000_07ff
            &&& (addr | (raw & 0xde)) & 0x000f_ffff_ffff_f000 == addr
            &&& (addr | (raw & 0xde)) & 0xde == raw & 0xde
        })
    }) by (bit_vector);
}

/// The union of two sets of flags is a set of flags.
proof fn lemma_flag_union(a: u64, b: u64, all: u64)
    requires
        a & !all == 0,
        b & !all == 0,
    ensures
        (a | b) & !all == 0,
{
    assert((a | b) & !all == 0) by (bit_vector)
        requires
            a & !all == 0,
            b & !all == 0,
    ;
}

/// A set of flags of the EPT pointer.
#[derive(Clone, Copy, Debug)]
pub struct EptPointerFlags {
    bits: u64,
}

impl EptPointerFlags {
    #[verifier::type_invariant]
    spec fn inv(self) -> bool {
        self.bits & !EPTP_FLAGS_ALL == 0
    }

    /// The flags as bits.
    pub closed spec fn view(&self) -> u64 {
        self.bits
    }

    /// The flags among `bits`; other bits are dropped.
    pub fn from_bits_truncate(bits: u64) -> (flags: EptPointerFlags)
        ensures
            flags@ == bits & EPTP_FLAGS_ALL,
    {
        proof {
            lemma_ept_bits(bits, 0, 0);
        }
        EptPointerFlags { bits: bits & EPTP_FLAGS_ALL }
    }

    /// The flags as bits.  No bit outside the flags is set.
    pub fn bits(&self) -> (bits: u64)
        ensures
            bits == self@,
            bits & !EPTP_FLAGS_ALL == 0,
    {
        proof {
            use_type_invariant(self);
        }
        self.bits
    }

    /// The flags of either set.
    pub fn union(self, other: EptPointerFlags) -> (flags: EptPointerFlags)
        ensures
            flags@ == self@ | other@,
    {
        proof {
            use_type_invariant(self);
            use_type_invariant(other);
            lemma_flag_union(self.bits, other.bits, EPTP_FLAGS_ALL);
        }
        EptPointerFlags { bits: self.bits | other.bits }
    }

    /// Whether every flag of `other` is in this set.
    pub fn contains(&self, other: EptPointerFlags) -> (b: bool)
        ensures
            b == (self@ & other@ == other@),
    {
        self.bits & other.bits == other.bits
    }
}

/// A set of flags of an EPT entry.
#[derive(Clone, Copy, Debug)]
pub struct EptTableFlags {
    bits: u64,
}

impl EptTableFlags {
    #[verifier::type_invariant]
    spec fn inv(self) -> bool {
        self.bits & !EPT_FLAGS_ALL == 0
    }

    /// The flags as bits.
    pub closed spec fn view(&self) -> u64 {
        self.bits
    }

    /// The flags among `bits`; other bits are dropped.
    pub fn from_bits_truncate(bits: u64) -> (flags: EptTableFlags)
        ensures
            flags@ == bits & EPT_FLAGS_ALL,
    {
        proof {
            lemma_ept_bits(bits, 0, 0);
        }
        EptTableFlags { bits: bits & EPT_FLAGS_ALL }
    }

    /// The flags as bits.  No bit outside the flags is set.
    pub fn bits(&self) -> (bits: u64)
        ensures
            bits == self@,
            bits & !EPT_FLAGS_ALL == 0,
    {
        proof {
            use_type_invariant(self);
        }
        self.bits
    }

    /// The flags of either set.
    pub fn union(self, other: EptTableFlags) -> (flags: EptTableFlags)
        ensures
            flags@ == self@ | other@,
    {
        proof {
            use_type_invariant(self);
            use_type_invariant(other);
            lemma_flag_union(self.bits, other.bits, EPT_FLAGS_ALL);
        }
        EptTableFlags { bits: self.bits | other.bits }
    }

    /// Whether every flag of `other` is in this set.
    pub fn contains(&self, other: EptTableFlags) -> (b: bool)
        ensures
            b == (self@ & other@ == other@),
    {
        self.bits & other.bits == other.bits
    }
}

/// The EPT pointer: the physical address of the top-level table in bits 12 to
/// 51, and flags below.
#[derive(Debug, Clone, Copy, PartialEq, Eq, Structural)]
pub struct EptPointer {
    raw: u64,
}

impl EptPointer {
    /// The pointer as the 64-bit value that goes into the VMCS.
    pub closed spec fn view(&self) -> u64 {
        self.raw
    }

    /// The address part of the pointer.
    pub open spec fn spec_addr(&self) -> u64 {
        self@ & EPT_ADDR_MASK
    }

    /// The flag part of the pointer.
    pub open spec fn spec_flags(&self) -> u64 {
        self@ & EPTP_FLAGS_ALL
    }

    /// The pointer that is zero.
    pub fn new() -> (eptp: EptPointer)
        ensures
            eptp@ == 0,
    {
        EptPointer { raw: 0 }
    }

    /// The flags of the pointer.
    pub fn flags(&self) -> (flags: EptPointerFlags)
        ensures
            flags@ == self.spec_flags(),
    {
        EptPointerFlags::from_bits_truncate(self.raw)
    }

    /// Replaces the flags and keeps the address.
    pub fn set_flags(&mut self, flags: EptPointerFlags)
        ensures
            final(self)@ == old(self).spec_addr() | flags@,
            final(self).spec_addr() == old(self).spec_addr(),
            final(self).spec_flags() == flags@,
    {
        let bits = flags.bits();
        proof {
            lemma_ept_bits(self.raw, 0, bits);
        }
        self.raw = self.addr().as_u64() | bits;
    }

    /// The address of the top-level table.
    pub fn addr(&self) -> (paddr: PhysAddr)
        ensures
            paddr@ == self.spec_addr(),
    {
        proof {
            lemma_ept_bits(self.raw, 0, 0);
        }
        PhysAddr::new(self.raw & EPT_ADDR_MASK)
    }

    /// Puts `paddr` beside the flags.  Where `paddr` is page-aligned, it
    /// becomes the address and the flags stay.
    pub fn set_addr(&mut self, paddr: PhysAddr)
        ensures
            final(self)@ == paddr@ | old(self).spec_flags(),
            paddr@ % 4096 == 0 ==> final(self).spec_addr() == paddr@ && final(self).spec_flags()
                == old(self).spec_flags(),
    {
        let a = paddr.as_u64();
        proof {
            lemma_ept_bits(self.raw, a, 0);
        }
        self.raw = a | self.flags().bits();
    }

    /// The pointer as the 64-bit value that goes into the VMCS.
    pub fn as_u64(&self) -> (raw: u64)
        ensures
            raw == self@,
    {
        self.raw
    }
}

/// One entry of an EPT table: a physical address in bits 12 to 51, and flags.
#[derive(Debug, Clone, Copy, PartialEq, Eq, Structural)]
pub struct EptTableEntry {
    raw: u64,
}

impl EptTableEntry {
    /// The entry as the 64-bit value that lies in memory.
    pub closed spec fn view(&self) -> u64 {
        self.raw
    }

    /// The address part of the entry.
    pub open spec fn spec_addr(&self) -> u64 {
        self@ & EPT_ADDR_MASK
    }

    /// The flag part of the entry.
    pub open spec fn spec_flags(&self) -> u64 {
        self@ & EPT_FLAGS_ALL
    }

    /// The entry that is zero.
    pub fn new() -> (entry: EptTableEntry)
        ensures
            entry@ == 0,
    {
        EptTableEntry { raw: 0 }
    }

    /// Whether the entry is zero.
    pub fn is_unused(&self) -> (b: bool)
        ensures
            b == (self@ == 0),
    {
        self.raw == 0
    }

    /// Makes the entry zero.
    pub fn set_unused(&mut self)
        ensures
            final(self)@ == 0,
    {
        self.raw = 0;
    }

    /// The flags of the entry.
    pub fn flags(&self) -> (flags: EptTableFlags)
        ensures
            flags@ == self.spec_flags(),
    {
        EptTableFlags::from_bits_truncate(self.raw)
    }

    /// Replaces the flags and keeps the address.
    pub fn set_flags(&mut self, flags: EptTableFlags)
        ensures
            final(self)@ == old(self).spec_addr() | flags@,
            final(self).spec_addr() == old(self).spec_addr(),
            final(self).spec_flags() == flags@,
    {
        let bits = flags.bits();
        proof {
            lemma_ept_bits(self.raw, 0, bits);
        }
        self.raw = self.addr().as_u64() | bits;
    }

    /// The address that the entry holds.
    pub fn addr(&self) -> (paddr: PhysAddr)
        ensures
            paddr@ == self.spec_addr(),
    {
        proof {
            lemma_ept_bits(self.raw, 0, 0);
        }
        PhysAddr::new(self.raw & EPT_ADDR_MASK)
    }

    /// Puts `paddr` beside the flags.  Where `paddr` is page-aligned, it
    /// becomes the address and the flags stay.
    pub fn set_addr(&mut self, paddr: PhysAddr)
        ensures
            final(self)@ == paddr@ | old(self).spec_flags(),
            paddr@ % 4096 == 0 ==> final(self).spec_addr() == paddr@ && final(self).spec_flags()
                == old(self).spec_flags(),
    {
        let a = paddr.as_u64();
        proof {
            lemma_ept_bits(self.raw, a, 0);
        }
        self.raw = a | self.flags().bits();
    }

    /// The entry as the 64-bit value that lies in memory.
    pub fn as_u64(&self) -> (raw: u64)
        ensures
            raw == self@,
    {
        self.raw
    }
}

/// Number of entries in a table.
pub const EPT_ENTRIES: usize = 512;

/// A table of 512 entries that fills one page, at a page-aligned address of
/// the hypervisor's area.
#[derive(Debug)]
pub struct EptTable {
    vaddr: u64,
    entries: Vec<EptTableEntry>,
}

impl EptTable {
    #[verifier::type_invariant]
    spec fn inv(self) -> bool {
        self.vaddr % 4096 == 0 && self.entries@.len() == 512
    }

    /// The 512 entries, each as the 64-bit value that lies in memory.
    pub closed spec fn view(&self) -> Seq<u64> {
        Seq::new(512, |i: int| self.entries@[i]@)
    }

    /// The virtual address of the table's page.
    pub closed spec fn spec_vaddr(&self) -> u64 {
        self.vaddr
    }

    /// A table of unused entries for the page at `vaddr`, which has to be
    /// page-aligned.
    pub fn new(vaddr: u64) -> (table: Option<EptTable>)
        ensures
            table.is_some() <==> vaddr % 4096 == 0,
            table matches Some(t) ==> t.spec_vaddr() == vaddr && t@ == Seq::new(512, |i: int| 0u64),
    {
        if vaddr % 4096 != 0 {
            return None;
        }
        let mut entries: Vec<EptTableEntry> = Vec::new();
        let mut i: usize = 0;
        while i < EPT_ENTRIES
            invariant
                i <= 512,
                entries@.len() == i,
                forall|k: int| 0 <= k < i ==> (#[trigger] entries@[k])@ == 0,
            decreases 512 - i,
        {
            entries.push(EptTableEntry::new());
            i = i + 1;
        }
        let table = EptTable { vaddr, entries };
        assert(table@ =~= Seq::new(512, |i: int| 0u64));
        Some(table)
    }

    /// Makes every entry unused.
    pub fn zero(&mut self)
        ensures
            final(self)@ == Seq::new(512, |i: int| 0u64),
            final(self).spec_vaddr() == old(self).spec_vaddr(),
    {
        proof {
            use_type_invariant(&*self);
        }
        let mut i: usize = 0;
        while i < EPT_ENTRIES
            invariant
                i <= 512,
                self.entries@.len() == 512,
                self.vaddr == old(self).vaddr,
                self.vaddr % 4096 == 0,
                forall|k: int| 0 <= k < i ==> (#[trigger] self.entries@[k])@ == 0,
            decreases 512 - i,
        {
            self.entries[i] = EptTableEntry::new();
            i = i + 1;
        }
        assert(self@ =~= Seq::new(512, |i: int| 0u64));
    }

    /// The virtual address of the table's page.  It is page-aligned.
    pub fn as_mut_ptr(&self) -> (vaddr: u64)
        ensures
            vaddr == self.spec_vaddr(),
            vaddr % 4096 == 0,
    {
        proof {
            use_type_invariant(self);
        }
        self.vaddr
    }

    /// The physical address of the table's page: its virtual address plus
    /// the offset of the hypervisor's area.
    pub fn paddr(&self, boot_args: &BootArgs) -> (paddr: Option<PhysAddr>)
        ensures
            paddr.is_some() <==> 0 <= self.spec_vaddr() + boot_args.vmm_phys_offset
                < PHYS_ADDR_LIMIT,
            paddr matches Some(p) ==> p@ == self.spec_vaddr() + boot_args.vmm_phys_offset,
    {
        phys_of(VirtAddr::new(self.vaddr), boot_args.vmm_phys_offset)
    }

    /// The 4096 bytes of the table as they lie in memory: entry after
    /// entry, each with its low byte first.
    pub open spec fn spec_page_image(&self) -> Seq<u8> {
        Seq::new(4096, |b: int| spec_u64_to_le_bytes(self@[b / 8])[b % 8])
    }

    /// The 4096 bytes to put in the table's page.
    pub fn page_image(&self) -> (image: Vec<u8>)
        ensures
            image@ == self.spec_page_image(),
            image@.len() == 4096,
    {
        proof {
            use_type_invariant(self);
            lemma_auto_spec_u64_to_from_le_bytes();
        }
        let mut image: Vec<u8> = Vec::new();
        let mut i: usize = 0;
        while i < EPT_ENTRIES
            invariant
                i <= 512,
                self.entries@.len() == 512,
                image@.len() == 8 * i,
                forall|b: int|
                    0 <= b < 8 * i ==> image@[b] == spec_u64_to_le_bytes(self@[b / 8])[b % 8],
                forall|x: u64| #[trigger] spec_u64_to_le_bytes(x).len() == 8,
            decreases 512 - i,
        {
            let bytes = u64_to_le_bytes(self.entries[i].as_u64());
            let ghost before = image@;
            image.extend_from_slice(bytes.as_slice());
            assert forall|b: int| 0 <= b < 8 * (i + 1) implies image@[b] == spec_u64_to_le_bytes(
                self@[b / 8],
            )[b % 8] by {
                if b < 8 * i {
                    assert(image@[b] == before[b]);
                } else {
                    assert(b / 8 == i);
                    assert(image@[b] == bytes@[b - 8 * i]);
                }
            }
            i = i + 1;
        }
        assert(image@ =~= self.spec_page_image());
        image
    }

    /// Entry `index` of the table.
    pub fn index(&self, index: usize) -> (entry: &EptTableEntry)
        requires
            index < 512,
        ensures
            entry@ == self@[index as int],
    {
        proof {
            use_type_invariant(self);
        }
        &self.entries[index]
    }

    /// Replaces entry `index` of the table.
    pub fn set(&mut self, index: usize, entry: EptTableEntry)
        requires
            index < 512,
        ensures
            final(self)@ == old(self)@.update(index as int, entry@),
            final(self).spec_vaddr() == old(self).spec_vaddr(),
    {
        proof {
            use_type_invariant(&*self);
        }
        self.entries[index] = entry;
        assert(self@ =~= old(self)@.update(index as int, entry@));
    }
}

/// Flags of an entry that points to the next table: read, write, execute.
pub const EPT_LINK_FLAGS: u64 = 0x7;

/// Flags of an entry that maps a 2 MiB page: large page, read, write,
/// execute, memory type write-back.
pub const EPT_LEAF_FLAGS: u64 = 0xb7;

/// Flags of the EPT pointer: memory type write-back, four levels.
pub const EPTP_FLAGS: u64 = 0x1e;

/// The three flag values above are what their parts add up to, and sets of
/// flags.
proof fn lemma_builder_flags()
    ensures
        EPT_LINK_FLAGS == EPT_READ_ACCESS | EPT_WRITE_ACCESS | EPT_EXECUTE_ACCESS,
        EPT_LEAF_FLAGS == EPT_HUGE_PAGE | EPT_READ_ACCESS | EPT_WRITE_ACCESS | EPT_EXECUTE_ACCESS
            | EPT_MEMORY_TYPE_WB,
        EPTP_FLAGS == EPTP_MEMORY_TYPE_WRITEBACK | EPTP_PAGE_WALK_LENGTH_4,
        EPT_LINK_FLAGS & EPT_FLAGS_ALL == EPT_LINK_FLAGS,
        EPT_LEAF_FLAGS & EPT_FLAGS_ALL == EPT_LEAF_FLAGS,
        EPTP_FLAGS & EPTP_FLAGS_ALL == EPTP_FLAGS,
{
    assert({
        &&& 0x7u64 == 0x1u64 | 0x2u64 | 0x4u64
        &&& 0xb7u64 == 0x80u64 | 0x1u64 | 0x2u64 | 0x4u64 | 0x30u64
        &&& 0x1eu64 == 6u64 | 0x18u64
        &&& 0x7u64 & 0x9600_0000_0000_07ffu64 == 0x7u64
        &&& 0xb7u64 & 0x9600_0000_0000_07ffu64 == 0xb7u64
        &&& 0x1eu64 & 0xdeu64 == 0x1eu64
    }) by (bit_vector);
}

/// Number of gigabytes that hold `memory_size` bytes, the last of them
/// perhaps only in part.
pub open spec fn gigabytes(memory_size: u64) -> int {
    (memory_size + 0x3fff_ffff) / 0x4000_0000
}

/// Whether the page at `vaddr` can hold a table: its virtual and its physical
/// address are page-aligned, and the physical address has 52 bits.
pub open spec fn table_page_ok(vaddr: u64, offset: i64) -> bool {
    &&& vaddr % 4096 == 0
    &&& 0 <= vaddr + offset < PHYS_ADDR_LIMIT
    &&& (vaddr + offset) % 4096 == 0
}

/// Whether the identity map can be built: the memory has at most 512
/// gigabytes, and there is a page for the two upper tables and one for each
/// gigabyte, each fit to hold a table.
pub open spec fn ept_inputs_ok(boot_args: BootArgs, pages: Seq<u64>) -> bool {
    let n = gigabytes(boot_args.memory_size);
    &&& n <= 512
    &&& pages.len() >= 2 + n
    &&& forall|k: int| 0 <= k < 2 + n ==> table_page_ok(#[trigger] pages[k], boot_args.vmm_phys_offset)
}

/// The tables of the identity map and the pointer to them.
#[derive(Debug)]
pub struct ExtendedPageTables {
    /// The top-level table.
    pub pml4: EptTable,
    /// The table of the first 512 gigabytes.
    pub pdpt: EptTable,
    /// One table for each gigabyte of memory, of 512 pages of 2 MiB.
    pub pdts: Vec<EptTable>,
    /// The pointer to the top-level table.
    pub eptp: EptPointer,
}

impl ExtendedPageTables {
    /// Whether these are the tables that identity-map the memory of
    /// `boot_args` in the pages at `pages`: the top-level table in the first
    /// page, the table below it in the second, the table of gigabyte `i` in
    /// page `2 + i`.
    pub open spec fn maps_identity(&self, boot_args: BootArgs, pages: Seq<u64>) -> bool {
        let n = gigabytes(boot_args.memory_size);
        let offset = boot_args.vmm_phys_offset;
        &&& self.pdts@.len() == n
        &&& self.pml4.spec_vaddr() == pages[0]
        &&& self.pdpt.spec_vaddr() == pages[1]
        &&& self.eptp@ == ((pages[0] + offset) as u64) | EPTP_FLAGS
        &&& self.pml4@ == Seq::new(
            512,
            |k: int|
                if k == 0 {
                    ((pages[1] + offset) as u64) | EPT_LINK_FLAGS
                } else {
                    0
                },
        )
        &&& self.pdpt@ == Seq::new(
            512,
            |k: int|
                if k < n {
                    ((pages[2 + k] + offset) as u64) | EPT_LINK_FLAGS
                } else {
                    0
                },
        )
        &&& forall|i: int|
            #![trigger self.pdts@[i]]
            0 <= i < n ==> {
                &&& self.pdts@[i].spec_vaddr() == pages[2 + i]
                &&& self.pdts@[i]@ == Seq::new(
                    512,
                    |j: int| ((i * 0x4000_0000 + j * 0x20_0000) as u64) | EPT_LEAF_FLAGS,
                )
            }
    }
}

/// Number of pages that the identity map of `memory_size` bytes takes: two,
/// and one for each gigabyte.  There is no such map for more than 512
/// gigabytes.
pub fn ept_page_count(memory_size: u64) -> (count: Option<usize>)
    ensures
        count.is_some() <==> gigabytes(memory_size) <= 512,
        count matches Some(n) ==> n == 2 + gigabytes(memory_size),
{
    let whole: u64 = memory_size / 0x4000_0000;
    let n: u64 = if memory_size % 0x4000_0000 == 0 {
        whole
    } else {
        whole + 1
    };
    if n <= 512 {
        Some((n + 2) as usize)
    } else {
        None
    }
}

/// An empty table in the page at `vaddr`, and the page's physical address.
fn table_page(vaddr: u64, offset: i64) -> (page: Option<(EptTable, PhysAddr)>)
    ensures
        page.is_some() <==> table_page_ok(vaddr, offset),
        page matches Some((table, paddr)) ==> {
            &&& table.spec_vaddr() == vaddr
            &&& table@ == Seq::new(512, |i: int| 0u64)
            &&& paddr@ == vaddr + offset
        },
{
    let paddr = match phys_of(VirtAddr::new(vaddr), offset) {
        Some(p) => p,
        None => { return None; },
    };
    if !paddr.is_page_aligned() {
        return None;
    }
    match EptTable::new(vaddr) {
        Some(table) => Some((table, paddr)),
        None => None,
    }
}

/// The entry that holds the page-aligned address `paddr` and the flags
/// `flags`.
fn make_entry(paddr: PhysAddr, flags: u64) -> (entry: EptTableEntry)
    requires
        paddr@ % 4096 == 0,
        flags & EPT_FLAGS_ALL == flags,
    ensures
        entry@ == paddr@ | flags,
{
    let mut entry = EptTableEntry::new();
    entry.set_addr(paddr);
    entry.set_flags(EptTableFlags::from_bits_truncate(flags));
    entry
}

/// Builds the extended page tables that map each guest-physical address below
/// `boot_args.memory_size` to itself, in pages of 2 MiB.
///
/// `pages` holds the virtual addresses of the pages to build in, as the
/// allocator gave them: the first for the top-level table, the second for the
/// table below it, then one for each gigabyte.  Nothing is built where
/// `ept_inputs_ok` does not hold.
pub fn init_ept(boot_args: &BootArgs, pages: &[u64]) -> (ept: Option<ExtendedPageTables>)
    ensures
        ept.is_some() <==> ept_inputs_ok(*boot_args, pages@),
        ept matches Some(tables) ==> tables.maps_identity(*boot_args, pages@),
{
    let offset = boot_args.vmm_phys_offset;
    let count = match ept_page_count(boot_args.memory_size) {
        Some(n) => n,
        None => { return None; },
    };
    if pages.len() < count {
        return None;
    }
    let memory_size_gb: usize = count - 2;
    let ghost n = gigabytes(boot_args.memory_size);
    proof {
        lemma_builder_flags();
    }

    let (mut ept_pml4, pml4_paddr) = match table_page(pages[0], offset) {
        Some(page) => page,
        None => { return None; },
    };
    let (mut ept_pdpt, pdpt_paddr) = match table_page(pages[1], offset) {
        Some(page) => page,
        None => { return None; },
    };
    ept_pml4.set(0, make_entry(pdpt_paddr, EPT_LINK_FLAGS));

    let mut pdts: Vec<EptTable> = Vec::new();
    let mut i_pdpt: usize = 0;
    while i_pdpt < memory_size_gb
        invariant
            i_pdpt <= memory_size_gb == n <= 512,
            n == gigabytes(boot_args.memory_size),
            pages@.len() >= 2 + n,
            offset == boot_args.vmm_phys_offset,
            pdts@.len() == i_pdpt,
            forall|k: int| 0 <= k < 2 + i_pdpt ==> table_page_ok(#[trigger] pages@[k], offset),
            ept_pdpt.spec_vaddr() == pages@[1],
            ept_pdpt@ == Seq::new(
                512,
                |k: int|
                    if k < i_pdpt {
                        ((pages@[2 + k] + offset) as u64) | EPT_LINK_FLAGS
                    } else {
                        0
                    },
            ),
            forall|i: int|
                #![trigger pdts@[i]]
                0 <= i < i_pdpt ==> {
                    &&& pdts@[i].spec_vaddr() == pages@[2 + i]
                    &&& pdts@[i]@ == Seq::new(
                        512,
                        |j: int| ((i * 0x4000_0000 + j * 0x20_0000) as u64) | EPT_LEAF_FLAGS,
                    )
                },
            EPT_LINK_FLAGS & EPT_FLAGS_ALL == EPT_LINK_FLAGS,
            EPT_LEAF_FLAGS & EPT_FLAGS_ALL == EPT_LEAF_FLAGS,
        decreases memory_size_gb - i_pdpt,
    {
        let (mut ept_pdt, pdt_paddr) = match table_page(pages[2 + i_pdpt], offset) {
            Some(page) => page,
            None => {
                assert(!table_page_ok(pages@[2 + i_pdpt], offset));
                return None;
            },
        };
        let ghost pdpt_before = ept_pdpt@;
        ept_pdpt.set(i_pdpt, make_entry(pdt_paddr, EPT_LINK_FLAGS));
        assert(ept_pdpt@ =~= Seq::new(
            512,
            |k: int|
                if k < i_pdpt + 1 {
                    ((pages@[2 + k] + offset) as u64) | EPT_LINK_FLAGS
                } else {
                    0
                },
        ));

        let mut i_pdt: usize = 0;
        while i_pdt < EPT_ENTRIES
            invariant
                i_pdt <= 512,
                i_pdpt < 512,
                2 + i_pdpt < pages@.len(),
                ept_pdt.spec_vaddr() == pages@[2 + i_pdpt],
                ept_pdt@.len() == 512,
                forall|j: int|
                    0 <= j < i_pdt ==> #[trigger] ept_pdt@[j] == ((i_pdpt * 0x4000_0000 + j
                        * 0x20_0000) as u64) | EPT_LEAF_FLAGS,
                EPT_LEAF_FLAGS & EPT_FLAGS_ALL == EPT_LEAF_FLAGS,
            decreases 512 - i_pdt,
        {
            let addr: u64 = 0x20_0000 * (i_pdt as u64) + 0x4000_0000 * (i_pdpt as u64);
            assert(addr % 4096 == 0) by {
                assert(addr == 4096 * (512 * i_pdt + 262144 * i_pdpt));
            }
            ept_pdt.set(i_pdt, make_entry(PhysAddr::new(addr), EPT_LEAF_FLAGS));
            i_pdt = i_pdt + 1;
        }
        assert(ept_pdt@ =~= Seq::new(
            512,
            |j: int| ((i_pdpt * 0x4000_0000 + j * 0x20_0000) as u64) | EPT_LEAF_FLAGS,
        ));
        pdts.push(ept_pdt);
        i_pdpt = i_pdpt + 1;
    }

    let mut eptp = EptPointer::new();
    eptp.set_addr(pml4_paddr);
    eptp.set_flags(EptPointerFlags::from_bits_truncate(EPTP_FLAGS));

    assert(ept_pml4@ =~= Seq::new(
        512,
        |k: int|
            if k == 0 {
                ((pages@[1] + offset) as u64) | EPT_LINK_FLAGS
            } else {
                0
            },
    ));
    Some(ExtendedPageTables { pml4: ept_pml4, pdpt: ept_pdpt, pdts, eptp })
}

/// Where the walk through extended page tables ends for a guest-physical
/// address.
pub enum EptTranslation {
    /// An entry on the way allows no access at all.
    Violation,
    /// The address is mapped to the host-physical address `hpa` by `entry`.
    Mapped { hpa: u64, entry: u64 },
}

/// Whether an entry allows any access: read, write or execute.
pub open spec fn ept_entry_present(entry: u64) -> bool {
    entry & EPT_LINK_FLAGS != 0
}

/// Walks the extended page tables that `eptp` points to, as they lie in
/// `mem`, for the guest-physical address `gpa`.  A large-page entry of level 3
/// or 2 ends the walk early.
pub open spec fn ept_translate<M: Memory>(mem: &M, eptp: u64, gpa: u64) -> EptTranslation {
    let pml4e = table_entry(mem, eptp & EPT_ADDR_MASK, gpa, 4);
    let pdpte = table_entry(mem, pml4e & EPT_ADDR_MASK, gpa, 3);
    let pde = table_entry(mem, pdpte & EPT_ADDR_MASK, gpa, 2);
    let pte = table_entry(mem, pde & EPT_ADDR_MASK, gpa, 1);
    if !ept_entry_present(pml4e) || !ept_entry_present(pdpte) {
        EptTranslation::Violation
    } else if pdpte & EPT_HUGE_PAGE != 0 {
        EptTranslation::Mapped {
            hpa: ((pdpte & EPT_ADDR_MASK) + (gpa & 0x3fff_ffff)) as u64,
            entry: pdpte,
        }
    } else if !ept_entry_present(pde) {
        EptTranslation::Violation
    } else if pde & EPT_HUGE_PAGE != 0 {
        EptTranslation::Mapped {
            hpa: ((pde & EPT_ADDR_MASK) + (gpa & 0x1f_ffff)) as u64,
            entry: pde,
        }
    } else if !ept_entry_present(pte) {
        EptTranslation::Violation
    } else {
        EptTranslation::Mapped { hpa: ((pte & EPT_ADDR_MASK) + (gpa & 0xfff)) as u64, entry: pte }
    }
}

/// Whether the 512 entries of `table` lie in `mem` from the physical address
/// `paddr` upwards.
pub open spec fn table_resident<M: Memory>(mem: &M, paddr: int, table: Seq<u64>) -> bool {
    forall|k: int| 0 <= k < 512 ==> word_at(mem, (paddr + 8 * k) as u64) == #[trigger] table[k]
}

impl ExtendedPageTables {
    /// Whether every table lies in `mem` at the physical address of its page.
    pub open spec fn resident<M: Memory>(&self, mem: &M, offset: i64) -> bool {
        &&& table_resident(mem, self.pml4.spec_vaddr() + offset, self.pml4@)
        &&& table_resident(mem, self.pdpt.spec_vaddr() + offset, self.pdpt@)
        &&& forall|i: int|
            #![trigger self.pdts@[i]]
            0 <= i < self.pdts@.len() ==> table_resident(
                mem,
                self.pdts@[i].spec_vaddr() + offset,
                self.pdts@[i]@,
            )
    }
}

/// A table whose page image lies in memory at `paddr` is resident there.
pub proof fn lemma_page_image_resident<M: Memory>(mem: &M, paddr: u64, table: EptTable)
    requires
        paddr < PHYS_ADDR_LIMIT,
        bytes_at(mem, paddr, 4096) == table.spec_page_image(),
    ensures
        table_resident(mem, paddr as int, table@),
{
    lemma_auto_spec_u64_to_from_le_bytes();
    assert forall|k: int| 0 <= k < 512 implies word_at(mem, (paddr + 8 * k) as u64)
        == #[trigger] table@[k] by {
        let at = (paddr + 8 * k) as u64;
        let word = bytes_at(mem, at, 8);
        let expected = spec_u64_to_le_bytes(table@[k]);
        assert(word =~= expected) by {
            assert forall|i: int| 0 <= i < 8 implies word[i] == expected[i] by {
                assert(addr_after(at, i) == addr_after(paddr, 8 * k + i));
                assert(bytes_at(mem, paddr, 4096)[8 * k + i] == mem.byte(
                    addr_after(paddr, 8 * k + i),
                ));
                assert(table.spec_page_image()[8 * k + i] == spec_u64_to_le_bytes(
                    table@[(8 * k + i) / 8],
                )[(8 * k + i) % 8]);
            }
        }
    }
}

/// How an address below 2^39 splits into table indices and an offset.
proof fn lemma_split_gpa(gpa: u64)
    requires
        gpa < 0x80_0000_0000,
    ensures
        (gpa >> 39) & 0x1ff == 0,
        (gpa >> 30) & 0x1ff == gpa / 0x4000_0000,
        (gpa >> 21) & 0x1ff < 512,
        ((gpa >> 30) & 0x1ff) * 0x4000_0000 + ((gpa >> 21) & 0x1ff) * 0x20_0000 + (gpa & 0x1f_ffff)
            == gpa,
{
    assert({
        &&& (gpa >> 39) & 0x1ff == 0
        &&& (gpa >> 30) & 0x1ff == gpa / 0x4000_0000
        &&& (gpa >> 21) & 0x1ff < 512
        &&& ((gpa >> 30) & 0x1ff) * 0x4000_0000 + ((gpa >> 21) & 0x1ff) * 0x20_0000 + (gpa
            & 0x1f_ffff) == gpa
    }) by (bit_vector)
        requires
            gpa < 0x80_0000_0000,
    ;
}

/// What an entry made of a page-aligned address and the builder's flags
/// holds.
proof fn lemma_built_entry(addr: u64)
    requires
        addr < PHYS_ADDR_LIMIT,
        addr % 4096 == 0,
    ensures
        (addr | EPTP_FLAGS) & EPT_ADDR_MASK == addr,
        (addr | EPT_LINK_FLAGS) & EPT_ADDR_MASK == addr,
        (addr | EPT_LINK_FLAGS) & EPT_LINK_FLAGS != 0,
        (addr | EPT_LINK_FLAGS) & EPT_HUGE_PAGE == 0,
        (addr | EPT_LEAF_FLAGS) & EPT_ADDR_MASK == addr,
        (addr | EPT_LEAF_FLAGS) & EPT_LINK_FLAGS == EPT_LINK_FLAGS,
        (addr | EPT_LEAF_FLAGS) & EPT_HUGE_PAGE != 0,
        ((addr | EPT_LEAF_FLAGS) >> 3) & 0x7 == 6,
{
    assert({
        &&& (addr | 0x1e) & 0x000f_ffff_ffff_f000 == addr
        &&& (addr | 0x7) & 0x000f_ffff_ffff_f000 == addr
        &&& (addr | 0x7) & 0x7 != 0
        &&& (addr | 0x7) & 0x80 == 0
        &&& (addr | 0xb7) & 0x000f_ffff_ffff_f000 == addr
        &&& (addr | 0xb7) & 0x7 == 0x7
        &&& (addr | 0xb7) & 0x80 != 0
        &&& ((addr | 0xb7) >> 3) & 0x7 == 6
    }) by (bit_vector)
        requires
            addr < 0x10_0000_0000_0000,
            addr % 4096 == 0,
    ;
}

/// The tables that `init_ept` builds map every guest-physical address below
/// the memory size to itself, with read, write and execute access and memory
/// type write-back, once they lie in memory at the physical addresses of
/// their pages.
pub proof fn lemma_ept_identity_map<M: Memory>(
    tables: ExtendedPageTables,
    boot_args: BootArgs,
    pages: Seq<u64>,
    mem: &M,
    gpa: u64,
)
    requires
        ept_inputs_ok(boot_args, pages),
        tables.maps_identity(boot_args, pages),
        tables.resident(mem, boot_args.vmm_phys_offset),
        gpa < boot_args.memory_size,
    ensures
        ept_translate(mem, tables.eptp@, gpa) matches EptTranslation::Mapped { hpa, entry } && {
            &&& hpa == gpa
            &&& entry & EPT_READ_ACCESS != 0
            &&& entry & EPT_WRITE_ACCESS != 0
            &&& entry & EPT_EXECUTE_ACCESS != 0
            &&& (entry >> 3) & 0x7 == 6
        },
{
    let offset = boot_args.vmm_phys_offset;
    let n = gigabytes(boot_args.memory_size);
    let i = (gpa >> 30) & 0x1ff;
    let j = (gpa >> 21) & 0x1ff;
    lemma_split_gpa(gpa);
    assert(i < n);

    let pml4_paddr = (pages[0] + offset) as u64;
    let pdpt_paddr = (pages[1] + offset) as u64;
    let pdt_paddr = (pages[2 + i] + offset) as u64;
    let frame = (i * 0x4000_0000 + j * 0x20_0000) as u64;
    assert(table_page_ok(pages[0], offset));
    assert(table_page_ok(pages[1], offset));
    assert(table_page_ok(pages[2 + i], offset));
    assert(frame % 4096 == 0) by {
        assert(frame == 4096 * (262144 * i + 512 * j));
    }
    lemma_built_entry(pml4_paddr);
    lemma_built_entry(pdpt_paddr);
    lemma_built_entry(pdt_paddr);
    lemma_built_entry(frame);

    let pml4e = table_entry(mem, tables.eptp@ & EPT_ADDR_MASK, gpa, 4);
    assert(pml4e == tables.pml4@[0]);
    assert(pml4e == pdpt_paddr | EPT_LINK_FLAGS);
    let pdpte = table_entry(mem, pml4e & EPT_ADDR_MASK, gpa, 3);
    assert(pdpte == tables.pdpt@[i as int]);
    assert(pdpte == pdt_paddr | EPT_LINK_FLAGS);
    let pde = table_entry(mem, pdpte & EPT_ADDR_MASK, gpa, 2);
    assert(tables.pdts@[i as int].spec_vaddr() == pages[2 + i]);
    assert(pde == tables.pdts@[i as int]@[j as int]);
    assert(pde == frame | EPT_LEAF_FLAGS);
    assert(pde & EPT_LINK_FLAGS == 0x7);
    assert({
        &&& pde & 0x7 == 0x7 ==> pde & 0x1 != 0 && pde & 0x2 != 0 && pde & 0x4 != 0
    }) by (bit_vector);
}

} // verus!
