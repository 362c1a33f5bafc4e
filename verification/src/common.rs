//! What the boot loader and the hypervisor agree on: the layout of the
//! hypervisor's memory area and the record handed over at entry.

use crate::addr::PhysAddr;
use vstd::prelude::*;

pub mod constants;

verus! {

/// Size of the memory area that holds the hypervisor: 512 MiB.
pub const VMM_AREA_SIZE: u64 = 0x2000_0000;

/// Virtual address at which the hypervisor's area starts.
pub const VMM_AREA_HEAD_VADDR: u64 = 0x1_0000_0000;

/// Virtual address at which the hypervisor's heap starts, 128 MiB into the area.
pub const VMM_HEAP_HEAD_VADDR: u64 = 0x1_0800_0000;

/// Size of the hypervisor's heap: 128 MiB.
pub const VMM_HEAP_SIZE: u64 = 0x800_0000;

/// The record that the boot loader hands to the hypervisor at entry.
#[derive(Clone, Copy, Debug)]
pub struct BootArgs {
    /// Root of the firmware's page tables.
    pub uefi_cr3: PhysAddr,
    /// Flag bits that stood in CR3 beside that root.
    pub uefi_cr3_flags: u64,
    /// What is added to a virtual address of the hypervisor's area to get the
    /// physical address behind it.
    pub vmm_phys_offset: i64,
    /// Bytes of physical memory that the guest is given.
    pub memory_size: u64,
    /// Address of the firmware's character output routine, or 0.
    pub uefi_write_char: u64,
    /// Handle that the output routine takes, or 0.
    pub uefi_output: u64,
}

impl BootArgs {
    /// A record with every field zero.
    pub fn new() -> (args: BootArgs)
        ensures
            args.uefi_cr3@ == 0,
            args.uefi_cr3_flags == 0,
            args.vmm_phys_offset == 0,
            args.memory_size == 0,
            args.uefi_write_char == 0,
            args.uefi_output == 0,
    {
        BootArgs {
            uefi_cr3: PhysAddr::new(0),
            uefi_cr3_flags: 0,
            vmm_phys_offset: 0,
            memory_size: 0,
            uefi_write_char: 0,
            uefi_output: 0,
        }
    }
}

} // verus!
