use htvmm::cpu::{
    guest_virt_to_guest_phys, CpuError, DescriptorTablePointer, SegmentDescriptor, PAGE_ADDR_MASK,
    PAGE_HUGE, PAGE_PRESENT,
};
use htvmm::memory::MemoryImage;

const WALK_VA: u64 = (1 << 39) | (2 << 30) | (3 << 21) | (4 << 12) | 0x567;

fn walk_tables(pdpte: u64, pde: u64, pte: u64) -> MemoryImage {
    let mut mem = MemoryImage::new();
    mem.store_u64(0x1000 + 8, 0x2000 | PAGE_PRESENT);
    mem.store_u64(0x2000 + 2 * 8, pdpte);
    mem.store_u64(0x3000 + 3 * 8, pde);
    mem.store_u64(0x4000 + 4 * 8, pte);
    mem
}

fn walk(mem: &MemoryImage, va: u64, cr3: u64) -> Option<u64> {
    guest_virt_to_guest_phys(va, cr3, mem).map(|p| p.as_u64())
}

#[test]
fn walk_constants() {
    assert_eq!(PAGE_PRESENT, 1);
    assert_eq!(PAGE_HUGE, 1 << 7);
    assert_eq!(PAGE_ADDR_MASK, 0x000f_ffff_ffff_f000);
}

#[test]
fn walk_maps_a_4k_page() {
    let mem = walk_tables(0x3000 | 1, 0x4000 | 1, 0xabc000 | 1);
    assert_eq!(walk(&mem, WALK_VA, 0x1000), Some(0xabc567));
    // the low twelve bits of CR3 are flags
    assert_eq!(walk(&mem, WALK_VA, 0x1018), Some(0xabc567));
    // flag bits of the entries take no part in the address
    let mem = walk_tables(0x3000 | 0x67, 0x4000 | 0x8000_0000_0000_0063, 0xabc000 | 0x163);
    assert_eq!(walk(&mem, WALK_VA, 0x1000), Some(0xabc567));
}

#[test]
fn walk_maps_a_2m_page() {
    let mem = walk_tables(0x3000 | 1, 0x4000_0000 | 0x81, 0);
    assert_eq!(walk(&mem, WALK_VA, 0x1000), Some(0x4000_4567));
}

#[test]
fn walk_maps_a_1g_page() {
    let mem = walk_tables(0x8000_0000 | 0x81, 0, 0);
    assert_eq!(walk(&mem, WALK_VA, 0x1000), Some(0x8060_4567));
}

#[test]
fn walk_returns_zero_for_unmapped() {
    let empty = MemoryImage::new();
    assert_eq!(walk(&empty, WALK_VA, 0x1000), Some(0));
    assert_eq!(walk(&empty, 0, 0), Some(0));
    // PDPT entry not present
    let mem = walk_tables(0x3000, 0x4000 | 1, 0xabc000 | 1);
    assert_eq!(walk(&mem, WALK_VA, 0x1000), Some(0));
    // PD entry not present
    let mem = walk_tables(0x3000 | 1, 0x4000, 0xabc000 | 1);
    assert_eq!(walk(&mem, WALK_VA, 0x1000), Some(0));
    // a large-page bit without the present bit maps nothing
    let mem = walk_tables(0x8000_0000 | 0x80, 0, 0);
    assert_eq!(walk(&mem, WALK_VA, 0x1000), Some(0));
    // another address under the same tables
    let mem = walk_tables(0x3000 | 1, 0x4000 | 1, 0xabc000 | 1);
    assert_eq!(walk(&mem, WALK_VA + (1 << 39), 0x1000), Some(0));
}

#[test]
fn walk_takes_the_last_entry_as_it_is() {
    // the entry of level 1 is not tested for presence
    let mem = walk_tables(0x3000 | 1, 0x4000 | 1, 0xabc000);
    assert_eq!(walk(&mem, WALK_VA, 0x1000), Some(0xabc567));
    let mem = walk_tables(0x3000 | 1, 0x4000 | 1, 0);
    assert_eq!(walk(&mem, WALK_VA, 0x1000), Some(0x567));
}

#[test]
fn walk_has_no_result_beyond_52_bits() {
    let mem = walk_tables(0x000f_ffff_ffff_f000 | 0x81, 0, 0);
    assert_eq!(walk(&mem, WALK_VA, 0x1000), None);
    let mem = walk_tables(0x000f_ffff_c000_0000 | 0x81, 0, 0);
    assert_eq!(walk(&mem, WALK_VA, 0x1000), Some(0x000f_ffff_c060_4567));
}

#[test]
fn walk_identity_mapped_tables() {
    // one 1 GiB page per entry, identity
    let mut mem = MemoryImage::new();
    mem.store_u64(0x10_0000, 0x10_1000 | 3);
    let mut i: u64 = 0;
    while i < 4 {
        mem.store_u64(0x10_1000 + 8 * i, (i << 30) | 0x83);
        i += 1;
    }
    for va in [0u64, 0x1234, 0x7fff_ffff, 0x8000_0000, 0xffff_ffff, 0xdead_beef] {
        assert_eq!(walk(&mem, va, 0x10_0000), Some(va));
    }
    assert_eq!(walk(&mem, 0x1_0000_0000, 0x10_0000), Some(0));
}

fn gdt_with_tss() -> MemoryImage {
    let mut mem = MemoryImage::new();
    mem.store_u64(0x5000 + 5 * 8, 0x5500_8b66_7788_ffff);
    mem.store_u64(0x5000 + 6 * 8, 0xdead_beef_1122_3344);
    mem
}

#[test]
fn descriptor_base_is_assembled_from_both_halves() {
    let mem = gdt_with_tss();
    let gdtr = DescriptorTablePointer { limit: 0x37, base: 0x5000 };
    assert_eq!(SegmentDescriptor::base(0x28, &gdtr, &mem), Some(0x1122_3344_5566_7788));
    // the low three bits of a selector are not part of the index
    assert_eq!(SegmentDescriptor::base(0x2b, &gdtr, &mem), Some(0x1122_3344_5566_7788));
    // the null descriptor of an empty table has base 0
    assert_eq!(SegmentDescriptor::base(0, &gdtr, &MemoryImage::new()), Some(0));
    // index 4: low half is zero, high half is the TSS's low half
    assert_eq!(
        SegmentDescriptor::base(0x20, &gdtr, &mem),
        Some((0x5500_8b66_7788_ffffu64 & 0xffff_ffff) << 32)
    );
}

#[test]
fn descriptor_base_needs_the_index_below_the_limit() {
    let mem = gdt_with_tss();
    let gdtr = DescriptorTablePointer { limit: 7, base: 0x5000 };
    assert_eq!(SegmentDescriptor::base(0x28, &gdtr, &mem), Some(0x1122_3344_5566_7788));
    let gdtr = DescriptorTablePointer { limit: 6, base: 0x5000 };
    assert_eq!(SegmentDescriptor::base(0x28, &gdtr, &mem), None);
    let gdtr = DescriptorTablePointer { limit: 0, base: 0x5000 };
    assert_eq!(SegmentDescriptor::base(0, &gdtr, &mem), None);
    let gdtr = DescriptorTablePointer { limit: 0xffff, base: 0x5000 };
    assert_eq!(SegmentDescriptor::base(0xffff, &gdtr, &mem), Some(0));
}

#[test]
fn descriptor_table_may_wrap() {
    let mut mem = MemoryImage::new();
    mem.store_u64(0, 0x0000_0000_0000_0000);
    mem.store_u64(8, 0x0000_0000_0000_0042);
    let gdtr = DescriptorTablePointer { limit: 0x37, base: u64::MAX - 7 };
    // entry 1 lies at address 0, entry 2 at address 8
    assert_eq!(SegmentDescriptor::base(8, &gdtr, &mem), Some(0x42 << 32));
}

#[test]
fn cpu_errors_differ() {
    assert_ne!(CpuError::NotSupported, CpuError::VmxRelated);
}
