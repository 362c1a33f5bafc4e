use htvmm::addr::{phys_of, PhysAddr, VirtAddr};
use htvmm::common::{VMM_AREA_HEAD_VADDR, VMM_AREA_SIZE};
use htvmm::loader::paging::{
    area_pd_entry, area_pdpt_entry, clone_action, linked_entry, table_of, CloneAction,
    IDENTITY_FLAGS, LARGE_PAGE_SIZE, PAGE_GLOBAL, PAGE_WRITABLE, VMM_AREA_ENTRIES, VMM_AREA_FLAGS,
    VMM_AREA_PDPT_INDEX,
};
use htvmm::loader::{
    boot_args, entry_point, get_memory_size, vmm_entry_offset, vmm_page_count, vmm_phys_offset,
    MemoryRange, MAX_ADDRESS, PAGE_SIZE, VMM_ENTRY_VADDR,
};

fn range(phys_start: u64, page_count: u64) -> MemoryRange {
    MemoryRange { phys_start, page_count }
}

fn elf_image(program_headers: u16, p_offset: u64) -> Vec<u8> {
    let mut image = Vec::new();
    image.extend_from_slice(&[0x7f, b'E', b'L', b'F', 2, 1, 1, 0, 0, 0, 0, 0, 0, 0, 0, 0]);
    image.extend_from_slice(&2u16.to_le_bytes()); // executable
    image.extend_from_slice(&0x3eu16.to_le_bytes()); // x86-64
    image.extend_from_slice(&1u32.to_le_bytes());
    image.extend_from_slice(&0x1_0000_1000u64.to_le_bytes()); // entry
    image.extend_from_slice(&64u64.to_le_bytes()); // program headers follow
    image.extend_from_slice(&0u64.to_le_bytes()); // no section headers
    image.extend_from_slice(&0u32.to_le_bytes());
    image.extend_from_slice(&64u16.to_le_bytes());
    image.extend_from_slice(&56u16.to_le_bytes());
    image.extend_from_slice(&program_headers.to_le_bytes());
    image.extend_from_slice(&64u16.to_le_bytes());
    image.extend_from_slice(&0u16.to_le_bytes());
    image.extend_from_slice(&0u16.to_le_bytes());
    let mut k = 0;
    while k < program_headers {
        image.extend_from_slice(&1u32.to_le_bytes()); // load
        image.extend_from_slice(&5u32.to_le_bytes());
        image.extend_from_slice(&(p_offset + 0x1000 * k as u64).to_le_bytes());
        image.extend_from_slice(&0x1_0000_1000u64.to_le_bytes());
        image.extend_from_slice(&0x1_0000_1000u64.to_le_bytes());
        image.extend_from_slice(&0x10u64.to_le_bytes());
        image.extend_from_slice(&0x10u64.to_le_bytes());
        image.extend_from_slice(&0x1000u64.to_le_bytes());
        k += 1;
    }
    image
}

#[test]
fn loader_constants() {
    assert_eq!(PAGE_SIZE, 0x1000);
    assert_eq!(MAX_ADDRESS, 0x4000_0000);
    assert_eq!(VMM_ENTRY_VADDR, 0x1_0000_1000);
    assert_eq!(vmm_page_count(), 131072);
    assert_eq!(vmm_page_count() * PAGE_SIZE, VMM_AREA_SIZE);
    assert_eq!(PAGE_WRITABLE, 1 << 1);
    assert_eq!(PAGE_GLOBAL, 1 << 8);
    assert_eq!(LARGE_PAGE_SIZE, 2 * 1024 * 1024);
    assert_eq!(VMM_AREA_ENTRIES as u64, VMM_AREA_SIZE / 0x20_0000);
    assert_eq!(VMM_AREA_PDPT_INDEX as u64, VMM_AREA_HEAD_VADDR >> 30);
    assert_eq!(VMM_AREA_FLAGS, 1 | 2 | 0x80 | 0x100);
    assert_eq!(IDENTITY_FLAGS, 1 | 2 | 0x80);
}

#[test]
fn memory_size_is_the_highest_end() {
    assert_eq!(get_memory_size(&[]), Some(0));
    assert_eq!(get_memory_size(&[range(0, 1)]), Some(0x1000));
    assert_eq!(get_memory_size(&[range(0, 0)]), Some(0));
    let map = [range(0, 0xa0), range(0x10_0000, 0x7ff00), range(0xc000_0000, 0x100), range(0x1000, 2)];
    assert_eq!(get_memory_size(&map), Some(0xc010_0000));
    let map = [range(0x1_0000_0000, 0x8_0000), range(0, 0xa0)];
    assert_eq!(get_memory_size(&map), Some(0x1_8000_0000));
    assert_eq!(get_memory_size(&[range(0xffff_ffff_ffff_f000, 0)]), Some(0xffff_ffff_ffff_f000));
    assert_eq!(get_memory_size(&[range(0xffff_ffff_ffff_efff, 1)]), Some(u64::MAX));
}

#[test]
fn memory_size_beyond_64_bits() {
    assert_eq!(get_memory_size(&[range(0xffff_ffff_ffff_f000, 1)]), None);
    assert_eq!(get_memory_size(&[range(0, u64::MAX)]), None);
    assert_eq!(get_memory_size(&[range(0, 1), range(u64::MAX, u64::MAX), range(0, 2)]), None);
}

#[test]
fn offset_of_the_area() {
    assert_eq!(vmm_phys_offset(0x2000_0000), Some(0x2000_0000 - 0x1_0000_0000));
    assert_eq!(vmm_phys_offset(0), Some(-0x1_0000_0000));
    assert_eq!(vmm_phys_offset(0x1_0000_0000), Some(0));
    assert_eq!(vmm_phys_offset(0x7fff_ffff_ffff_ffff + 0x1_0000_0000), Some(i64::MAX));
    assert_eq!(vmm_phys_offset(0x8000_0000_0000_0000 + 0x1_0000_0000), None);
    assert_eq!(vmm_phys_offset(u64::MAX), None);
}

#[test]
fn offset_translates_the_area() {
    let offset = vmm_phys_offset(0x2000_0000).unwrap();
    for x in [0u64, 0x1000, 0x800_0000, VMM_AREA_SIZE - 1] {
        let phys = phys_of(VirtAddr::new(VMM_AREA_HEAD_VADDR + x), offset);
        assert_eq!(phys.map(|p| p.as_u64()), Some(0x2000_0000 + x));
    }
}

#[test]
fn boot_args_record() {
    let args = boot_args(0x7fc0_1000, 0x18, 0x2000_0000, 0x1_0000_0000, 0x1234, 0x5678).unwrap();
    assert_eq!(args.uefi_cr3.as_u64(), 0x7fc0_1000);
    assert_eq!(args.uefi_cr3_flags, 0x18);
    assert_eq!(args.vmm_phys_offset, -0xe000_0000);
    assert_eq!(args.memory_size, 0x1_0000_0000);
    assert_eq!(args.uefi_write_char, 0x1234);
    assert_eq!(args.uefi_output, 0x5678);
    assert!(boot_args(1 << 52, 0, 0x2000_0000, 0, 0, 0).is_none());
    assert!(boot_args(0, 0, u64::MAX, 0, 0, 0).is_none());
}

#[test]
fn entry_offset_is_read_from_the_image() {
    assert_eq!(vmm_entry_offset(&elf_image(1, 0x1000)), Some(0x1000));
    assert_eq!(vmm_entry_offset(&elf_image(3, 0x2000)), Some(0x2000));
    assert_eq!(vmm_entry_offset(&elf_image(1, 0)), Some(0));
}

#[test]
fn entry_offset_of_what_is_no_image() {
    assert_eq!(vmm_entry_offset(&[]), None);
    assert_eq!(vmm_entry_offset(b"not an image at all, only some text that is long enough"), None);
    assert_eq!(vmm_entry_offset(&elf_image(0, 0x1000)), None);
    let mut cut = elf_image(1, 0x1000);
    cut.truncate(80);
    assert_eq!(vmm_entry_offset(&cut), None);
}

#[test]
fn entry_point_is_offset_into_the_image() {
    assert_eq!(entry_point(0x2000_0000, 0x1000).map(|p| p.as_u64()), Some(0x2000_1000));
    assert_eq!(entry_point(0, 0).map(|p| p.as_u64()), Some(0));
    assert_eq!(entry_point((1 << 52) - 1, 0).map(|p| p.as_u64()), Some((1 << 52) - 1));
    assert!(entry_point((1 << 52) - 1, 1).is_none());
    assert!(entry_point(u64::MAX, u64::MAX).is_none());
}

#[test]
fn clone_decisions() {
    for level in 1..=4 {
        assert_eq!(clone_action(level, 0), CloneAction::Skip);
    }
    // a table pointer
    assert_eq!(clone_action(4, 0x7fc0_2023), CloneAction::Descend);
    assert_eq!(clone_action(3, 0x7fc0_3023), CloneAction::Descend);
    assert_eq!(clone_action(2, 0x7fc0_4023), CloneAction::Descend);
    assert_eq!(clone_action(1, 0x7fc0_5023), CloneAction::Copy);
    // a large page
    assert_eq!(clone_action(3, 0x4000_00e3), CloneAction::Copy);
    assert_eq!(clone_action(2, 0x20_00e3), CloneAction::Copy);
    assert_eq!(clone_action(1, 0x20_00e3), CloneAction::Copy);
    // bit 7 means nothing at the top level
    assert_eq!(clone_action(4, 0x7fc0_20e3), CloneAction::Descend);
    // an entry that is not present but not zero is not skipped
    assert_eq!(clone_action(4, 0x7fc0_2000), CloneAction::Descend);
    assert_eq!(clone_action(2, 0x80), CloneAction::Copy);
}

#[test]
fn linked_entries_keep_the_flags() {
    assert_eq!(table_of(0x8000_0000_7fc0_2867).as_u64(), 0x7fc0_2000);
    assert_eq!(table_of(u64::MAX).as_u64(), 0x000f_ffff_ffff_f000);
    assert_eq!(
        linked_entry(PhysAddr::new(0x3fff_f000), 0x8000_0000_7fc0_2867),
        Some(0x8000_0000_3fff_f867)
    );
    assert_eq!(linked_entry(PhysAddr::new(0x1000), 0x23), Some(0x1023));
    assert_eq!(linked_entry(PhysAddr::new(0), 0x7fc0_2000), Some(0));
    assert_eq!(linked_entry(PhysAddr::new(0x1008), 0x23), None);
}

#[test]
fn area_entries() {
    let entry_phys = PhysAddr::new(0x2000_1000);
    assert_eq!(area_pd_entry(0, entry_phys, 0xdead, 0x23), Some(0x2000_0183));
    assert_eq!(area_pd_entry(1, entry_phys, 0xdead, 0x23), Some(0x2020_0183));
    assert_eq!(area_pd_entry(255, entry_phys, 0xdead, 0x23), Some(0x2000_0000 + 255 * 0x20_0000 + 0x183));
    // beyond the area the firmware's entries stay
    assert_eq!(area_pd_entry(256, entry_phys, 0xdead, 0x23), Some(0xdead));
    assert_eq!(area_pd_entry(511, entry_phys, 0, 0x23), Some(0));
    // unless the gigabyte was one large page: then it is split
    assert_eq!(area_pd_entry(256, entry_phys, 0xdead, 0x1_0000_00e3), Some(0x1_2000_0083));
    assert_eq!(area_pd_entry(511, entry_phys, 0xdead, 0x1_0000_0081), Some(0x1_3fe0_0083));
    assert_eq!(area_pd_entry(0, entry_phys, 0xdead, 0x1_0000_00e3), Some(0x2000_0183));
    // large without present does not count
    assert_eq!(area_pd_entry(300, entry_phys, 0xdead, 0x80), Some(0xdead));
    // the base is rounded down to a large page
    assert_eq!(area_pd_entry(0, PhysAddr::new(0x3fff_ffff), 0, 0), Some(0x3fe0_0183));
    // an area at the end of the physical addresses
    let top = PhysAddr::new((1 << 52) - 0x20_0000);
    assert_eq!(area_pd_entry(0, top, 0, 0), Some(0x000f_ffff_ffe0_0183));
    assert_eq!(area_pd_entry(1, top, 0, 0), None);
    assert_eq!(area_pd_entry(256, top, 7, 0), Some(7));
}

#[test]
fn area_is_mapped_in_one_piece() {
    let entry_phys = PhysAddr::new(0x2000_1000);
    for x in [0u64, 0x1000, 0x1f_ffff, 0x20_0000, 0x1234_5678, VMM_AREA_SIZE - 1] {
        let index = (x / LARGE_PAGE_SIZE) as usize;
        let entry = area_pd_entry(index, entry_phys, 0, 0).unwrap();
        assert_eq!(entry & 1, 1);
        assert_eq!(entry & 0x80, 0x80);
        assert_eq!((entry & 0x000f_ffff_ffff_f000) + x % LARGE_PAGE_SIZE, 0x2000_0000 + x);
    }
}

#[test]
fn area_gigabyte_entry() {
    let table = PhysAddr::new(0x3fff_e000);
    // a table pointer keeps its flags
    assert_eq!(area_pdpt_entry(table, 0x7fc0_3023), Some(0x3fff_e023));
    // a present large page loses the large-page flag
    assert_eq!(area_pdpt_entry(table, 0x1_0000_00e3), Some(0x3fff_e063));
    assert_eq!(area_pdpt_entry(table, 0x8000_0001_0000_0081), Some(0x8000_0000_3fff_e001));
    // large without present keeps it
    assert_eq!(area_pdpt_entry(table, 0x80), Some(0x3fff_e080));
    assert_eq!(area_pdpt_entry(table, 0), Some(0x3fff_e000));
    assert_eq!(area_pdpt_entry(PhysAddr::new(0x3fff_e800), 0x23), None);
}
