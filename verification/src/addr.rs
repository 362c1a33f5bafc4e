//! Physical and virtual addresses, and the translation between the two that
//! holds inside the hypervisor's own memory area.

use vstd::prelude::*;

verus! {

/// Size of a page, and the alignment of every VMXON, VMCS and EPT page.
pub const PAGE_SIZE: u64 = 4096;

/// First value that is not a physical address: physical addresses have 52 bits.
pub const PHYS_ADDR_LIMIT: u64 = 0x10_0000_0000_0000;

/// A 64-bit physical address.  Bits 52 to 63 are always zero.
#[derive(Clone, Copy, Debug)]
pub struct PhysAddr {
    addr: u64,
}

/// A 64-bit virtual address.
#[derive(Clone, Copy, Debug)]
pub struct VirtAddr {
    addr: u64,
}

/// Whether `addr` lies on a page boundary.
pub open spec fn is_page_aligned(addr: int) -> bool {
    addr % 4096 == 0
}

/// The physical address behind the virtual address `virt` of the hypervisor's
/// area, where `offset` is the offset of the area: their sum.
pub open spec fn spec_phys_of(virt: u64, offset: i64) -> int {
    virt + offset
}

impl PhysAddr {
    #[verifier::type_invariant]
    spec fn inv(self) -> bool {
        self.addr < PHYS_ADDR_LIMIT
    }

    /// The address as a number.
    pub closed spec fn view(&self) -> u64 {
        self.addr
    }

    /// Wraps `addr`, which must fit in 52 bits.
    pub fn new(addr: u64) -> (p: PhysAddr)
        requires
            addr < PHYS_ADDR_LIMIT,
        ensures
            p@ == addr,
    {
        PhysAddr { addr }
    }

    /// Wraps `addr` if it fits in 52 bits.
    pub fn try_new(addr: u64) -> (p: Option<PhysAddr>)
        ensures
            p.is_some() <==> addr < PHYS_ADDR_LIMIT,
            p matches Some(a) ==> a@ == addr,
    {
        if addr < PHYS_ADDR_LIMIT {
            Some(PhysAddr { addr })
        } else {
            None
        }
    }

    /// The address as a number; it is below 2^52.
    pub fn as_u64(&self) -> (a: u64)
        ensures
            a == self@,
            a < PHYS_ADDR_LIMIT,
    {
        proof {
            use_type_invariant(self);
        }
        self.addr
    }

    /// Whether the address lies on a page boundary.
    pub fn is_page_aligned(&self) -> (b: bool)
        ensures
            b == is_page_aligned(self@ as int),
    {
        self.addr % PAGE_SIZE == 0
    }
}

impl VirtAddr {
    /// The address as a number.
    pub closed spec fn view(&self) -> u64 {
        self.addr
    }

    /// Wraps `addr`.
    pub fn new(addr: u64) -> (v: VirtAddr)
        ensures
            v@ == addr,
    {
        VirtAddr { addr }
    }

    /// The address as a number.
    pub fn as_u64(&self) -> (a: u64)
        ensures
            a == self@,
    {
        self.addr
    }
}

/// Translates a virtual address of the hypervisor's own area to the physical
/// address behind it: `virt + offset`.  There is no such address where the sum
/// is negative or does not fit in 52 bits.
pub fn phys_of(virt: VirtAddr, offset: i64) -> (p: Option<PhysAddr>)
    ensures
        p.is_some() <==> 0 <= spec_phys_of(virt@, offset) < PHYS_ADDR_LIMIT,
        p matches Some(a) ==> a@ == spec_phys_of(virt@, offset),
{
    let sum: i128 = virt.as_u64() as i128 + offset as i128;
    if sum < 0 || sum >= PHYS_ADDR_LIMIT as i128 {
        None
    } else {
        PhysAddr::try_new(sum as u64)
    }
}

} // verus!
