use htvmm::addr::{phys_of, PhysAddr, VirtAddr, PAGE_SIZE, PHYS_ADDR_LIMIT};
use htvmm::common::{
    BootArgs, VMM_AREA_HEAD_VADDR, VMM_AREA_SIZE, VMM_HEAP_HEAD_VADDR, VMM_HEAP_SIZE,
};
use htvmm::memory::{read_bytes, read_u64, Memory, MemoryImage};

#[test]
fn phys_addr_holds_52_bits() {
    assert_eq!(PHYS_ADDR_LIMIT, 1u64 << 52);
    assert_eq!(PhysAddr::new(0x1234_5000).as_u64(), 0x1234_5000);
    assert_eq!(PhysAddr::try_new((1u64 << 52) - 1).map(|p| p.as_u64()), Some((1u64 << 52) - 1));
    assert!(PhysAddr::try_new(1u64 << 52).is_none());
    assert!(PhysAddr::try_new(u64::MAX).is_none());
}

#[test]
fn phys_addr_alignment() {
    assert_eq!(PAGE_SIZE, 4096);
    assert!(PhysAddr::new(0).is_page_aligned());
    assert!(PhysAddr::new(0x7000).is_page_aligned());
    assert!(!PhysAddr::new(0x7008).is_page_aligned());
    assert!(!PhysAddr::new(0xfff).is_page_aligned());
}

#[test]
fn virt_addr_round_trip() {
    assert_eq!(VirtAddr::new(0xffff_8000_0000_1234).as_u64(), 0xffff_8000_0000_1234);
}

#[test]
fn phys_of_adds_the_offset() {
    let p = phys_of(VirtAddr::new(0x1_0800_0000), 0x2000_0000 - 0x1_0000_0000);
    assert_eq!(p.map(|p| p.as_u64()), Some(0x2800_0000));
    let p = phys_of(VirtAddr::new(0x1000), 0x5000);
    assert_eq!(p.map(|p| p.as_u64()), Some(0x6000));
    let p = phys_of(VirtAddr::new(0x1000), 0);
    assert_eq!(p.map(|p| p.as_u64()), Some(0x1000));
}

#[test]
fn phys_of_rejects_what_is_no_physical_address() {
    assert!(phys_of(VirtAddr::new(0x1000), -0x1001).is_none());
    assert_eq!(phys_of(VirtAddr::new(0x1000), -0x1000).map(|p| p.as_u64()), Some(0));
    assert!(phys_of(VirtAddr::new(1u64 << 52), 0).is_none());
    assert!(phys_of(VirtAddr::new((1u64 << 52) - 1), 1).is_none());
    assert!(phys_of(VirtAddr::new(u64::MAX), i64::MAX).is_none());
    assert!(phys_of(VirtAddr::new(0), i64::MIN).is_none());
    // a virtual address above 2^63 that a negative offset brings down
    assert_eq!(
        phys_of(VirtAddr::new(0x8000_0000_0000_1000), i64::MIN).map(|p| p.as_u64()),
        Some(0x1000)
    );
}

#[test]
fn boot_args_start_zeroed() {
    let args = BootArgs::new();
    assert_eq!(args.uefi_cr3.as_u64(), 0);
    assert_eq!(args.uefi_cr3_flags, 0);
    assert_eq!(args.vmm_phys_offset, 0);
    assert_eq!(args.memory_size, 0);
    assert_eq!(args.uefi_write_char, 0);
    assert_eq!(args.uefi_output, 0);
}

#[test]
fn memory_area_layout() {
    assert_eq!(VMM_AREA_SIZE, 512 * 1024 * 1024);
    assert_eq!(VMM_AREA_HEAD_VADDR, 0x1_0000_0000);
    assert_eq!(VMM_HEAP_HEAD_VADDR, VMM_AREA_HEAD_VADDR + 128 * 1024 * 1024);
    assert_eq!(VMM_HEAP_SIZE, 128 * 1024 * 1024);
}

#[test]
fn fresh_memory_is_zero() {
    let mem = MemoryImage::new();
    assert_eq!(mem.read_u8(0), 0);
    assert_eq!(mem.read_u8(0x1234), 0);
    assert_eq!(mem.read_u8(u64::MAX), 0);
    assert_eq!(read_u64(&mem, 0x1000), 0);
}

#[test]
fn stored_bytes_are_read_back() {
    let mut mem = MemoryImage::new();
    mem.store_bytes(0x1000, &[1, 2, 3, 4]);
    assert_eq!(mem.read_u8(0xfff), 0);
    assert_eq!(mem.read_u8(0x1000), 1);
    assert_eq!(mem.read_u8(0x1003), 4);
    assert_eq!(mem.read_u8(0x1004), 0);
    assert_eq!(read_bytes(&mem, 0xfff, 6), vec![0, 1, 2, 3, 4, 0]);
    assert_eq!(read_bytes(&mem, 0x1000, 0), Vec::<u8>::new());
}

#[test]
fn later_store_shadows_earlier() {
    let mut mem = MemoryImage::new();
    mem.store_bytes(0x1000, &[1, 2, 3, 4]);
    mem.store_bytes(0x1002, &[9]);
    assert_eq!(read_bytes(&mem, 0x1000, 4), vec![1, 2, 9, 4]);
}

#[test]
fn words_are_little_endian() {
    let mut mem = MemoryImage::new();
    mem.store_bytes(0x2000, &[0x88, 0x77, 0x66, 0x55, 0x44, 0x33, 0x22, 0x11]);
    assert_eq!(read_u64(&mem, 0x2000), 0x1122_3344_5566_7788);
    mem.store_u64(0x3000, 0xdead_beef_0bad_f00d);
    assert_eq!(read_u64(&mem, 0x3000), 0xdead_beef_0bad_f00d);
    assert_eq!(mem.read_u8(0x3000), 0x0d);
    assert_eq!(mem.read_u8(0x3007), 0xde);
    // an unaligned word spans both
    mem.store_u64(0x4004, 0x0102_0304_0506_0708);
    assert_eq!(read_u64(&mem, 0x4000), 0x0506_0708_0000_0000);
}

#[test]
fn reads_wrap_at_the_last_address() {
    let mut mem = MemoryImage::new();
    mem.store_bytes(u64::MAX - 1, &[0xaa, 0xbb, 0xcc]);
    mem.store_bytes(0, &[0x11]);
    // the third byte would lie past the last address and is not stored
    assert_eq!(read_bytes(&mem, u64::MAX - 1, 3), vec![0xaa, 0xbb, 0x11]);
}
