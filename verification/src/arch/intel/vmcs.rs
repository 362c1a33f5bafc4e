//! The VMCS region: its page, its place in the launch protocol, and the
//! values of its fields.
//!
//! The region keeps an image of the fields in software.  `write` changes the
//! image and marks the field as pending; the caller then executes `VMWRITE`
//! for what `take_dirty` hands out.  What the caller reads with `VMREAD` after
//! a VM exit enters the image through `refresh`.

use crate::addr::{phys_of, PhysAddr, VirtAddr, PHYS_ADDR_LIMIT};
use crate::arch::intel::ept::EptPointer;
use crate::arch::intel::vmx::{
    check_vmx_error, region_image, revision_id, spec_check_vmx_error, spec_region_image,
    spec_revision_id, VmxCapabilities, VmxError,
};
use crate::bits::lemma_or_sets;
use crate::common::BootArgs;
use crate::cpu::{CpuState, FirmwareContext, SegmentDescriptor};
use crate::memory::Memory;
use vstd::prelude::*;

pub use crate::arch::intel::vmcs_field::{VmcsField, VMCS_FIELD_COUNT};

verus! {

/// Where a VMCS region stands in the launch protocol.
#[derive(Clone, Copy, Debug, PartialEq, Eq, Structural)]
pub enum VmcsState {
    /// The page holds the revision identifier and nothing else.
    Uninitialized,
    /// `VMCLEAR` succeeded on the region.
    Cleared,
    /// `VMPTRLD` succeeded: the region is the current VMCS of the processor.
    Current,
    /// `VMLAUNCH` succeeded: the guest is entered again with `VMRESUME`.
    Launched,
}

/// One field of the image.
#[derive(Clone, Copy, Debug)]
enum Slot {
    /// The field has no value.
    Absent,
    /// The field has this value, and so has the processor.
    Clean(u64),
    /// The field has this value, which is still to be written to the
    /// processor.
    Dirty(u64),
}

impl Slot {
    spec fn present(self) -> bool {
        !(self is Absent)
    }

    spec fn dirty(self) -> bool {
        self is Dirty
    }

    spec fn value(self) -> u64 {
        match self {
            Slot::Absent => 0,
            Slot::Clean(v) => v,
            Slot::Dirty(v) => v,
        }
    }
}

/// A VMCS region: a page-aligned page of 4096 bytes that starts with the VMCS
/// revision identifier.
#[derive(Debug)]
pub struct VmcsRegion {
    vaddr: u64,
    revision_id: u32,
    state: VmcsState,
    slots: Vec<Slot>,
}

impl VmcsRegion {
    #[verifier::type_invariant]
    spec fn inv(self) -> bool {
        self.vaddr % 4096 == 0 && self.slots@.len() == VMCS_FIELD_COUNT
    }

    /// The fields that have a value in the image, each with its value.
    pub closed spec fn view(&self) -> Map<VmcsField, u64> {
        Map::new(
            |f: VmcsField| self.slots@[f.spec_index() as int].present(),
            |f: VmcsField| self.slots@[f.spec_index() as int].value(),
        )
    }

    /// The fields that were written and not yet handed out by `take_dirty`.
    pub closed spec fn dirty(&self) -> Set<VmcsField> {
        Set::new(|f: VmcsField| self.slots@[f.spec_index() as int].dirty())
    }

    /// The virtual address of the region's page.
    pub closed spec fn spec_vaddr(&self) -> u64 {
        self.vaddr
    }

    /// The revision identifier in the first four bytes of the page.
    pub closed spec fn spec_revision_id(&self) -> u32 {
        self.revision_id
    }

    /// Where the region stands in the launch protocol.
    pub closed spec fn spec_state(&self) -> VmcsState {
        self.state
    }

    /// What `read` gives for `field`: its value in the image, and 0 where it
    /// has none.
    pub open spec fn spec_read(&self, field: VmcsField) -> u64 {
        if self@.contains_key(field) {
            self@[field]
        } else {
            0
        }
    }

    /// Whether the page and the protocol state are those of `other`.
    pub open spec fn same_region(&self, other: &VmcsRegion) -> bool {
        &&& self.spec_vaddr() == other.spec_vaddr()
        &&& self.spec_revision_id() == other.spec_revision_id()
        &&& self.spec_state() == other.spec_state()
    }

    /// A region in the page at `vaddr`, which has to be page-aligned, for a
    /// processor whose `IA32_VMX_BASIC` register reads `ia32_vmx_basic`.
    pub fn new(vaddr: u64, ia32_vmx_basic: u64) -> (region: Option<VmcsRegion>)
        ensures
            region.is_some() <==> vaddr % 4096 == 0,
            region matches Some(r) ==> {
                &&& r.spec_vaddr() == vaddr
                &&& r.spec_revision_id() == spec_revision_id(ia32_vmx_basic)
                &&& r.spec_state() == VmcsState::Uninitialized
                &&& r@ == Map::<VmcsField, u64>::empty()
                &&& r.dirty() == Set::<VmcsField>::empty()
            },
    {
        if vaddr % 4096 != 0 {
            return None;
        }
        let mut slots: Vec<Slot> = Vec::new();
        let mut i: usize = 0;
        while i < VMCS_FIELD_COUNT
            invariant
                i <= VMCS_FIELD_COUNT,
                slots@.len() == i,
                forall|k: int| 0 <= k < i ==> (#[trigger] slots@[k]) is Absent,
            decreases VMCS_FIELD_COUNT - i,
        {
            slots.push(Slot::Absent);
            i = i + 1;
        }
        let region = VmcsRegion {
            vaddr,
            revision_id: revision_id(ia32_vmx_basic),
            state: VmcsState::Uninitialized,
            slots,
        };
        assert(region@ =~= Map::<VmcsField, u64>::empty());
        assert(region.dirty() =~= Set::<VmcsField>::empty());
        Some(region)
    }

    /// The virtual address of the region's page.  It is page-aligned.
    pub fn as_mut_ptr(&self) -> (vaddr: u64)
        ensures
            vaddr == self.spec_vaddr(),
            vaddr % 4096 == 0,
    {
        proof {
            use_type_invariant(self);
        }
        self.vaddr
    }

    /// The physical address of the region's page: its virtual address plus
    /// the offset of the hypervisor's area.
    pub fn paddr(&self, boot_args: &BootArgs) -> (paddr: Option<PhysAddr>)
        ensures
            paddr.is_some() <==> 0 <= self.spec_vaddr() + boot_args.vmm_phys_offset
                < PHYS_ADDR_LIMIT,
            paddr matches Some(p) ==> p@ == self.spec_vaddr() + boot_args.vmm_phys_offset,
    {
        phys_of(VirtAddr::new(self.vaddr), boot_args.vmm_phys_offset)
    }

    /// The revision identifier in the first four bytes of the page.
    pub fn revision_id(&self) -> (id: u32)
        ensures
            id == self.spec_revision_id(),
    {
        self.revision_id
    }

    /// Where the region stands in the launch protocol.
    pub fn state(&self) -> (state: VmcsState)
        ensures
            state == self.spec_state(),
    {
        self.state
    }

    /// The 4096 bytes to put in the page before the processor is given the
    /// region: the revision identifier, low byte first, and zeros.
    pub fn page_image(&self) -> (image: Vec<u8>)
        ensures
            image@ == spec_region_image(self.spec_revision_id()),
            image@.len() == 4096,
    {
        region_image(self.revision_id)
    }

    /// Takes note of a `VMCLEAR` on this region that left `flags` in RFLAGS.
    /// Where the instruction succeeded the region is cleared; else nothing
    /// changes.
    pub fn clear(&mut self, flags: u64) -> (result: Result<(), VmxError>)
        ensures
            result == spec_check_vmx_error(flags),
            final(self).spec_vaddr() == old(self).spec_vaddr(),
            final(self).spec_revision_id() == old(self).spec_revision_id(),
            final(self)@ == old(self)@,
            final(self).dirty() == old(self).dirty(),
            final(self).spec_state() == if result.is_ok() {
                VmcsState::Cleared
            } else {
                old(self).spec_state()
            },
    {
        proof {
            use_type_invariant(&*self);
        }
        let result = check_vmx_error(flags);
        if result.is_ok() {
            self.state = VmcsState::Cleared;
        }
        result
    }

    /// Takes note of a `VMPTRLD` on this region that left `flags` in RFLAGS.
    /// Where the instruction succeeded a cleared region becomes the current
    /// one; else nothing changes.
    pub fn load(&mut self, flags: u64) -> (result: Result<(), VmxError>)
        requires
            old(self).spec_state() == VmcsState::Cleared,
        ensures
            result == spec_check_vmx_error(flags),
            final(self).spec_vaddr() == old(self).spec_vaddr(),
            final(self).spec_revision_id() == old(self).spec_revision_id(),
            final(self)@ == old(self)@,
            final(self).dirty() == old(self).dirty(),
            final(self).spec_state() == if result.is_ok() {
                VmcsState::Current
            } else {
                VmcsState::Cleared
            },
    {
        proof {
            use_type_invariant(&*self);
        }
        let result = check_vmx_error(flags);
        if result.is_ok() {
            self.state = VmcsState::Current;
        }
        result
    }

    /// Takes note of a `VMLAUNCH` with this region current that left `flags`
    /// in RFLAGS.  Where the instruction succeeded the region is launched;
    /// else nothing changes.
    pub fn launch(&mut self, flags: u64) -> (result: Result<(), VmxError>)
        requires
            old(self).spec_state() == VmcsState::Current,
        ensures
            result == spec_check_vmx_error(flags),
            final(self).spec_vaddr() == old(self).spec_vaddr(),
            final(self).spec_revision_id() == old(self).spec_revision_id(),
            final(self)@ == old(self)@,
            final(self).dirty() == old(self).dirty(),
            final(self).spec_state() == if result.is_ok() {
                VmcsState::Launched
            } else {
                VmcsState::Current
            },
    {
        proof {
            use_type_invariant(&*self);
        }
        let result = check_vmx_error(flags);
        if result.is_ok() {
            self.state = VmcsState::Launched;
        }
        result
    }

    /// The value of `field` in the image, and 0 where it has none.
    pub fn read(&self, field: VmcsField) -> (value: u64)
        ensures
            value == self.spec_read(field),
    {
        proof {
            use_type_invariant(self);
        }
        match self.slots[field.index()] {
            Slot::Absent => 0,
            Slot::Clean(value) => value,
            Slot::Dirty(value) => value,
        }
    }

    /// Gives `field` the value `val` and marks it as pending.
    pub fn write(&mut self, field: VmcsField, val: u64)
        ensures
            final(self)@ == old(self)@.insert(field, val),
            final(self).dirty() == old(self).dirty().insert(field),
            final(self).same_region(old(self)),
    {
        proof {
            use_type_invariant(&*self);
        }
        self.slots[field.index()] = Slot::Dirty(val);
        assert(self@ =~= old(self)@.insert(field, val));
        assert(self.dirty() =~= old(self).dirty().insert(field));
    }

    /// Gives `field` the value `val` that the processor holds for it.  The
    /// field is not pending afterwards.
    pub fn refresh(&mut self, field: VmcsField, val: u64)
        ensures
            final(self)@ == old(self)@.insert(field, val),
            final(self).dirty() == old(self).dirty().remove(field),
            final(self).same_region(old(self)),
    {
        proof {
            use_type_invariant(&*self);
        }
        self.slots[field.index()] = Slot::Clean(val);
        assert(self@ =~= old(self)@.insert(field, val));
        assert(self.dirty() =~= old(self).dirty().remove(field));
    }

    /// Hands out the pending fields, each once and with its value, for the
    /// caller to write them to the processor.  No field is pending afterwards.
    pub fn take_dirty(&mut self) -> (writes: Vec<(VmcsField, u64)>)
        ensures
            final(self)@ == old(self)@,
            final(self).dirty() == Set::<VmcsField>::empty(),
            final(self).same_region(old(self)),
            forall|k: int|
                0 <= k < writes@.len() ==> old(self).dirty().contains((#[trigger] writes@[k]).0)
                    && writes@[k].1 == old(self)@[writes@[k].0],
            forall|f: VmcsField|
                old(self).dirty().contains(f) ==> exists|k: int|
                    0 <= k < writes@.len() && (#[trigger] writes@[k]).0 == f,
            forall|j: int, k: int|
                0 <= j < k < writes@.len() ==> (#[trigger] writes@[j]).0 != (#[trigger] writes@[k]).0,
    {
        proof {
            use_type_invariant(&*self);
        }
        let mut writes: Vec<(VmcsField, u64)> = Vec::new();
        let mut i: usize = 0;
        while i < VMCS_FIELD_COUNT
            invariant
                i <= VMCS_FIELD_COUNT,
                self.slots@.len() == VMCS_FIELD_COUNT,
                old(self).slots@.len() == VMCS_FIELD_COUNT,
                self.vaddr == old(self).vaddr,
                self.vaddr % 4096 == 0,
                self.revision_id == old(self).revision_id,
                self.state == old(self).state,
                forall|k: int|
                    0 <= k < VMCS_FIELD_COUNT ==> (#[trigger] self.slots@[k]).value() == old(
                        self,
                    ).slots@[k].value() && self.slots@[k].present() == old(self).slots@[k].present(),
                forall|k: int| 0 <= k < i ==> !(#[trigger] self.slots@[k]).dirty(),
                forall|k: int|
                    i <= k < VMCS_FIELD_COUNT ==> (#[trigger] self.slots@[k]).dirty() == old(
                        self,
                    ).slots@[k].dirty(),
                forall|k: int|
                    0 <= k < writes@.len() ==> {
                        &&& (#[trigger] writes@[k]).0.spec_index() < i
                        &&& old(self).slots@[writes@[k].0.spec_index() as int].dirty()
                        &&& writes@[k].1 == old(self).slots@[writes@[k].0.spec_index() as int].value()
                    },
                forall|f: VmcsField|
                    f.spec_index() < i && old(self).slots@[f.spec_index() as int].dirty()
                        ==> exists|k: int| 0 <= k < writes@.len() && (#[trigger] writes@[k]).0 == f,
                forall|j: int, k: int|
                    0 <= j < k < writes@.len() ==> (#[trigger] writes@[j]).0.spec_index() < (
                    #[trigger] writes@[k]).0.spec_index(),
            decreases VMCS_FIELD_COUNT - i,
        {
            if let Slot::Dirty(value) = self.slots[i] {
                match VmcsField::from_index(i) {
                    Some(field) => {
                        let ghost before = writes@;
                        writes.push((field, value));
                        assert(forall|k: int| 0 <= k < before.len() ==> writes@[k] == before[k]);
                        assert(writes@[before.len() as int].0 == field);
                        assert forall|f: VmcsField|
                            f.spec_index() < i + 1 && old(self).slots@[f.spec_index() as int].dirty()
                            implies exists|k: int|
                            0 <= k < writes@.len() && (#[trigger] writes@[k]).0 == f by {
                            if f.spec_index() < i {
                                let k0 = choose|k: int|
                                    0 <= k < before.len() && (#[trigger] before[k]).0 == f;
                                assert(writes@[k0].0 == f);
                            } else {
                                crate::arch::intel::vmcs_field::lemma_index_injective(f, field);
                                assert(writes@[before.len() as int].0 == f);
                            }
                        }
                    },
                    None => {},
                }
                self.slots[i] = Slot::Clean(value);
            }
            i = i + 1;
        }
        assert(self@ =~= old(self)@);
        assert(self.dirty() =~= Set::<VmcsField>::empty());
        writes
    }
}

/// Bit 7 of the primary processor-based controls: `HLT` causes a VM exit.
pub const VMCS_PROC_BASED_VMEXEC_CTLS_HLTEXIT: u64 = 0x80;

/// Bit 31 of the primary processor-based controls: the secondary controls
/// are in use.
pub const VMCS_PROC_BASED_VMEXEC_CTLS_ACTIVE_SECOND_CTLS: u64 = 0x8000_0000;

/// Bit 1 of the secondary processor-based controls: EPT is enabled.
pub const VMCS_PROC_BASED_VMEXEC_CTLS2_ENABLE_EPT: u64 = 0x2;

/// Bit 9 of the VM-exit controls: the host runs in 64-bit mode.
pub const VMCS_VMEXIT_CTLS_HOST_ADDR_SPACE_SIZE: u64 = 0x200;

/// Bit 9 of the VM-entry controls: the guest runs in IA-32e mode.
pub const VMCS_VMENTRY_CTLS_IA32E_MODE_GUEST: u64 = 0x200;

/// Bit 5 of CR4: physical address extension.
pub const CR4_PAE: u64 = 0x20;

/// Bit 16 of CR4: `RDFSBASE` and its kin are enabled.
pub const CR4_FSGSBASE: u64 = 0x1_0000;

/// Bit 23 of CR4: control-flow enforcement.
pub const CR4_CET: u64 = 0x80_0000;

/// Bit 16 of CR0: write protect.
pub const CR0_WP: u64 = 0x1_0000;

/// Bit 1 of RFLAGS, which is always 1.
pub const RFLAGS_RESERVED_1: u64 = 0x2;

/// Bit 9 of RFLAGS: interrupts are enabled.
pub const RFLAGS_IF: u64 = 0x200;

/// Bit 17 of RFLAGS: virtual-8086 mode.
pub const RFLAGS_VM: u64 = 0x2_0000;

/// The bits of a capability register that must be 1 in the control field:
/// its low half.
pub open spec fn must_be_one(msr: u64) -> u64 {
    msr & 0xffff_ffff
}

/// The bits of a capability register that may be 1 in the control field: its
/// high half.
pub open spec fn may_be_one(msr: u64) -> u64 {
    (msr >> 32) & 0xffff_ffff
}

/// The control value to start from: every bit that must be 1, as far as it
/// may be 1.
pub open spec fn spec_base_controls(msr: u64) -> u64 {
    (0 | must_be_one(msr)) & may_be_one(msr)
}

/// Whether a control field is legal for its capability register: every bit
/// that must be 1 is 1, and no bit is 1 that may not be.
pub open spec fn controls_legal(field: u64, msr: u64) -> bool {
    (field & must_be_one(msr)) == must_be_one(msr) && (field & !may_be_one(msr)) == 0
}

/// Whether a capability register allows `extra` on top of its base value:
/// what must be 1 may be 1, and so may every bit of `extra`.
pub open spec fn controls_allow(msr: u64, extra: u64) -> bool {
    must_be_one(msr) & !may_be_one(msr) == 0 && extra & !may_be_one(msr) == 0
}

/// The control value to start from: every bit that must be 1, as far as it
/// may be 1.
pub fn base_controls(msr: u64) -> (controls: u64)
    ensures
        controls == spec_base_controls(msr),
{
    let ctls_or: u64 = msr & 0xffff_ffff;
    let ctls_and: u64 = (msr >> 32) & 0xffff_ffff;
    (0 | ctls_or) & ctls_and
}

/// The base value of a control with `extra` set on top is legal exactly
/// where the capability register allows it.
pub proof fn lemma_controls_legal(msr: u64, extra: u64)
    ensures
        controls_legal(spec_base_controls(msr) | extra, msr) <==> controls_allow(msr, extra),
{
    assert({
        let low = msr & 0xffff_ffff;
        let high = (msr >> 32) & 0xffff_ffff;
        let field = ((0 | low) & high) | extra;
        ((field & low) == low && (field & !high) == 0) <==> (low & !high == 0 && extra & !high == 0)
    }) by (bit_vector);
}

/// The CR4 of the host: that of the processor with `FSGSBASE` and `PAE` set.
pub open spec fn spec_host_cr4(cr4: u64) -> u64 {
    cr4 | CR4_FSGSBASE | CR4_PAE
}

/// The CR0 of the host beside the host's CR4: that of the processor, with
/// write protect set where CR4 has control-flow enforcement.
pub open spec fn spec_host_cr0(cr0: u64, host_cr4: u64) -> u64 {
    if (host_cr4 >> 23) & 1 == 1 {
        cr0 | CR0_WP
    } else {
        cr0
    }
}

/// The RFLAGS that the guest starts with: those of the processor without
/// virtual-8086 mode and with interrupts off; the reserved bit 1 is set.
pub open spec fn spec_guest_rflags(rflags: u64) -> u64 {
    (rflags & !(RFLAGS_VM | RFLAGS_IF)) | RFLAGS_RESERVED_1
}

/// The CR4 of the host.  `PAE` is set in it.
pub fn host_cr4(cr4: u64) -> (host: u64)
    ensures
        host == spec_host_cr4(cr4),
        host & CR4_PAE == CR4_PAE,
        host & CR4_FSGSBASE == CR4_FSGSBASE,
{
    proof {
        assert((cr4 | 0x1_0000 | 0x20) & 0x20 == 0x20 && (cr4 | 0x1_0000 | 0x20) & 0x1_0000
            == 0x1_0000) by (bit_vector);
    }
    cr4 | CR4_FSGSBASE | CR4_PAE
}

/// The CR0 of the host beside the host's CR4.  Where bit 23 of that CR4 is
/// set, bit 16 of the result is.
pub fn host_cr0(cr0: u64, host_cr4: u64) -> (host: u64)
    ensures
        host == spec_host_cr0(cr0, host_cr4),
        host_cr4 & CR4_CET == CR4_CET ==> host & CR0_WP == CR0_WP,
{
    proof {
        lemma_or_sets(cr0, CR0_WP);
        assert(host_cr4 & 0x80_0000 == 0x80_0000 <==> (host_cr4 >> 23) & 1 == 1) by (bit_vector);
    }
    if (host_cr4 >> 23) & 1 == 1 {
        cr0 | CR0_WP
    } else {
        cr0
    }
}

/// The RFLAGS that the guest starts with.  Bits 17 and 9 are clear in it.
pub fn guest_rflags(rflags: u64) -> (guest: u64)
    ensures
        guest == spec_guest_rflags(rflags),
        guest & RFLAGS_VM == 0,
        guest & RFLAGS_IF == 0,
        guest & RFLAGS_RESERVED_1 == RFLAGS_RESERVED_1,
{
    proof {
        assert({
            let g = (rflags & !(0x2_0000u64 | 0x200u64)) | 0x2u64;
            g & 0x2_0000 == 0 && g & 0x200 == 0 && g & 0x2 == 0x2
        }) by (bit_vector);
    }
    (rflags & !(RFLAGS_VM | RFLAGS_IF)) | RFLAGS_RESERVED_1
}

/// Top of a host stack of 4096 bytes at `base`, 16 bytes below its end.
pub open spec fn spec_host_stack_top(base: u64) -> int {
    base + 4096 - 16
}

/// What the guest-state area is set to, field by field: the firmware's
/// selectors, descriptor tables and stack pointer; flat segments; the control
/// and debug registers and the `SYSENTER` and `EFER` registers of the
/// processor; execution resumes at `entry_ret`.
pub open spec fn guest_state_value(
    field: VmcsField,
    firmware: FirmwareContext,
    cpu: CpuState,
    entry_ret: u64,
) -> Option<u64> {
    match field {
        VmcsField::GuestCsSelector => Some(firmware.cs as u64),
        VmcsField::GuestDsSelector => Some(firmware.ds as u64),
        VmcsField::GuestEsSelector => Some(firmware.es as u64),
        VmcsField::GuestFsSelector => Some(firmware.fs as u64),
        VmcsField::GuestGsSelector => Some(firmware.gs as u64),
        VmcsField::GuestSsSelector => Some(firmware.ss as u64),
        VmcsField::GuestLdtrSelector => Some(firmware.ldtr as u64),
        VmcsField::GuestTrSelector => Some(firmware.tr as u64),
        VmcsField::GuestCsLimit => Some(0xffff_ffff),
        VmcsField::GuestDsLimit => Some(0xffff_ffff),
        VmcsField::GuestEsLimit => Some(0xffff_ffff),
        VmcsField::GuestFsLimit => Some(0xffff_ffff),
        VmcsField::GuestGsLimit => Some(0xffff_ffff),
        VmcsField::GuestSsLimit => Some(0xffff_ffff),
        VmcsField::GuestLdtrLimit => Some(0xffff),
        VmcsField::GuestTrLimit => Some(0xffff),
        VmcsField::GuestGdtrLimit => Some(firmware.gdtr.limit as u64),
        VmcsField::GuestIdtrLimit => Some(firmware.idtr.limit as u64),
        VmcsField::GuestCsAccessRights => Some(0xa09b),
        VmcsField::GuestDsAccessRights => Some(0xc093),
        VmcsField::GuestEsAccessRights => Some(0xc093),
        VmcsField::GuestFsAccessRights => Some(0xc093),
        VmcsField::GuestGsAccessRights => Some(0xc093),
        VmcsField::GuestSsAccessRights => Some(0xc093),
        VmcsField::GuestLdtrAccessRights => Some(0x0082),
        VmcsField::GuestTrAccessRights => Some(0x008b),
        VmcsField::GuestInterruptibilityState => Some(0),
        VmcsField::GuestActivityState => Some(0),
        VmcsField::GuestPendingDbgExceptions => Some(0),
        VmcsField::GuestIa32SysenterCs => Some(cpu.sysenter_cs),
        VmcsField::VmcsLinkPointer => Some(0xffff_ffff_ffff_ffff),
        VmcsField::GuestIa32Debugctl => Some(0),
        VmcsField::GuestIa32Efer => Some(cpu.efer),
        VmcsField::GuestCr0 => Some(cpu.cr0),
        VmcsField::GuestCr3 => Some(cpu.cr3),
        VmcsField::GuestCr4 => Some(cpu.cr4),
        VmcsField::GuestCsBase => Some(0),
        VmcsField::GuestDsBase => Some(0),
        VmcsField::GuestEsBase => Some(0),
        VmcsField::GuestFsBase => Some(0),
        VmcsField::GuestGsBase => Some(0),
        VmcsField::GuestSsBase => Some(0),
        VmcsField::GuestLdtrBase => Some(0),
        VmcsField::GuestTrBase => Some(0),
        VmcsField::GuestGdtrBase => Some(firmware.gdtr.base),
        VmcsField::GuestIdtrBase => Some(firmware.idtr.base),
        VmcsField::GuestDr7 => Some(cpu.dr7),
        VmcsField::GuestRsp => Some(firmware.rsp),
        VmcsField::GuestRip => Some(entry_ret),
        VmcsField::GuestRflags => Some(spec_guest_rflags(cpu.rflags)),
        VmcsField::GuestSysenterEsp => Some(cpu.sysenter_esp),
        VmcsField::GuestSysenterEip => Some(cpu.sysenter_eip),
        _ => None,
    }
}

/// What the host-state area is set to, field by field: the selectors, the
/// descriptor-table and segment bases and the `SYSENTER`, `EFER` and `PAT`
/// registers of the processor; its CR3, and its CR0 and CR4 as the host needs
/// them; the base of the task register's segment; the top of the host stack;
/// execution resumes at `vmexit_host_rip`.
pub open spec fn host_state_value(
    field: VmcsField,
    cpu: CpuState,
    vmexit_host_rip: u64,
    tr_base: u64,
    stack_top: u64,
) -> Option<u64> {
    match field {
        VmcsField::HostCsSelector => Some(cpu.cs as u64),
        VmcsField::HostDsSelector => Some(cpu.ds as u64),
        VmcsField::HostEsSelector => Some(cpu.es as u64),
        VmcsField::HostFsSelector => Some(cpu.fs as u64),
        VmcsField::HostGsSelector => Some(cpu.gs as u64),
        VmcsField::HostSsSelector => Some(cpu.ss as u64),
        VmcsField::HostTrSelector => Some(cpu.tr as u64),
        VmcsField::HostIa32SysenterCs => Some(cpu.sysenter_cs),
        VmcsField::HostCr0 => Some(spec_host_cr0(cpu.cr0, spec_host_cr4(cpu.cr4))),
        VmcsField::HostCr3 => Some(cpu.cr3),
        VmcsField::HostCr4 => Some(spec_host_cr4(cpu.cr4)),
        VmcsField::HostFsBase => Some(cpu.fs_base),
        VmcsField::HostGsBase => Some(cpu.gs_base),
        VmcsField::HostTrBase => Some(tr_base),
        VmcsField::HostGdtrBase => Some(cpu.gdtr.base),
        VmcsField::HostIdtrBase => Some(cpu.idtr.base),
        VmcsField::HostIa32SysenterEsp => Some(cpu.sysenter_esp),
        VmcsField::HostIa32SysenterEip => Some(cpu.sysenter_eip),
        VmcsField::HostRsp => Some(stack_top),
        VmcsField::HostRip => Some(vmexit_host_rip),
        VmcsField::HostIa32Efer => Some(cpu.efer),
        VmcsField::HostIa32Pat => Some(cpu.pat),
        _ => None,
    }
}

/// What the control fields are set to, field by field: each of the five
/// controls gets its base value, with `HLT` exiting and the secondary
/// controls, EPT, a 64-bit host and an IA-32e guest switched on; the EPT
/// pointer is `eptp`; every other control field that is set is 0.
pub open spec fn control_value(field: VmcsField, caps: VmxCapabilities, eptp: u64) -> Option<u64> {
    match field {
        VmcsField::PinBasedVmExecControls => Some(spec_base_controls(caps.pinbased_ctls)),
        VmcsField::ProcBasedVmExecControls => Some(
            spec_base_controls(caps.procbased_ctls) | VMCS_PROC_BASED_VMEXEC_CTLS_HLTEXIT
                | VMCS_PROC_BASED_VMEXEC_CTLS_ACTIVE_SECOND_CTLS,
        ),
        VmcsField::ProcBasedVmExecControls2 => Some(
            spec_base_controls(caps.procbased_ctls2) | VMCS_PROC_BASED_VMEXEC_CTLS2_ENABLE_EPT,
        ),
        VmcsField::ExceptionBitmap => Some(0),
        VmcsField::PageFaultErrorCodeMask => Some(0),
        VmcsField::PageFaultErrorCodeMatch => Some(0),
        VmcsField::Cr3TargetCount => Some(0),
        VmcsField::VmExitControls => Some(
            spec_base_controls(caps.exit_ctls) | VMCS_VMEXIT_CTLS_HOST_ADDR_SPACE_SIZE,
        ),
        VmcsField::VmExitMsrStoreCount => Some(0),
        VmcsField::VmExitMsrLoadCount => Some(0),
        VmcsField::VmEntryControls => Some(
            spec_base_controls(caps.entry_ctls) | VMCS_VMENTRY_CTLS_IA32E_MODE_GUEST,
        ),
        VmcsField::VmEntryMsrLoadCount => Some(0),
        VmcsField::VmEntryIntrInfoField => Some(0),
        VmcsField::VmEntryExceptionErrorCode => Some(0),
        VmcsField::VmEntryInstructionLen => Some(0),
        VmcsField::TprThreshold => Some(0),
        VmcsField::VmExitMsrLoadAddr => Some(0),
        VmcsField::VmExitMsrStoreAddr => Some(0),
        VmcsField::VmEntryMsrLoadAddr => Some(0),
        VmcsField::TscOffset => Some(0),
        VmcsField::EptPointer => Some(eptp),
        VmcsField::Cr0GuestHostMask => Some(0),
        VmcsField::Cr4GuestHostMask => Some(0),
        VmcsField::Cr0ReadShadow => Some(0),
        VmcsField::Cr4ReadShadow => Some(0),
        _ => None,
    }
}

/// What `VmcsRegion::setup` is given beside the EPT pointer and the address
/// of the VM-exit handler.
#[derive(Clone, Copy, Debug, PartialEq, Eq, Structural)]
pub struct VmcsSetup {
    /// What the boot loader captured of the firmware.
    pub firmware: FirmwareContext,
    /// The registers of the processor as they are now.
    pub cpu: CpuState,
    /// The capability registers of the processor.
    pub caps: VmxCapabilities,
    /// Address at which the guest resumes: the instruction after the launch.
    pub entry_ret: u64,
    /// Lowest address of the 4096 bytes set aside as the host's stack.
    pub host_stack: u64,
}

impl VmcsSetup {
    /// The base of the task register's segment, read from the descriptor
    /// table of the processor in `mem`.
    pub open spec fn tr_base<M: Memory>(&self, mem: &M) -> Option<u64> {
        SegmentDescriptor::spec_base(self.cpu.tr, self.cpu.gdtr, mem)
    }

    /// Whether the VMCS can be set up: the task register selects a
    /// descriptor inside the table, and the host stack does not reach past
    /// the last address.
    pub open spec fn usable<M: Memory>(&self, mem: &M) -> bool {
        self.tr_base(mem).is_some() && spec_host_stack_top(self.host_stack) <= u64::MAX
    }

    /// What `VmcsRegion::setup` sets, field by field: the guest-state area,
    /// the host-state area and the control fields.
    pub open spec fn value<M: Memory>(
        &self,
        field: VmcsField,
        eptp: u64,
        vmexit_host_rip: u64,
        mem: &M,
    ) -> Option<u64> {
        let guest = guest_state_value(field, self.firmware, self.cpu, self.entry_ret);
        let host = host_state_value(
            field,
            self.cpu,
            vmexit_host_rip,
            self.tr_base(mem).unwrap(),
            spec_host_stack_top(self.host_stack) as u64,
        );
        if guest.is_some() {
            guest
        } else if host.is_some() {
            host
        } else {
            control_value(field, self.caps, eptp)
        }
    }
}

/// Whether `after` is `before` with each field for which `table` has a value
/// set to that value and pending, and every other field as it was.
pub open spec fn overlaid(
    before: &VmcsRegion,
    after: &VmcsRegion,
    table: spec_fn(VmcsField) -> Option<u64>,
) -> bool {
    &&& after.same_region(before)
    &&& forall|f: VmcsField|
        #![trigger table(f)]
        #![trigger after@[f]]
        #![trigger after@.contains_key(f)]
        #![trigger after.dirty().contains(f)]
        match table(f) {
            Some(v) => after@.contains_key(f) && after@[f] == v && after.dirty().contains(f),
            None => {
                &&& after@.contains_key(f) == before@.contains_key(f)
                &&& after@[f] == before@[f]
                &&& after.dirty().contains(f) == before.dirty().contains(f)
            },
        }
}

impl VmcsRegion {
    /// Sets the guest-state area so that the guest continues where the
    /// firmware was when it handed over: see `guest_state_value`.
    ///
    /// Virtual-8086 mode and interrupts are off in the guest's RFLAGS.
    pub fn setup_guest_state_area(
        &mut self,
        firmware: &FirmwareContext,
        cpu: &CpuState,
        entry_ret: u64,
    )
        ensures
            overlaid(
                old(self),
                final(self),
                |f: VmcsField| guest_state_value(f, *firmware, *cpu, entry_ret),
            ),
            final(self)@[VmcsField::GuestRflags] & RFLAGS_VM == 0,
            final(self)@[VmcsField::GuestRflags] & RFLAGS_IF == 0,
    {
        // 16 bit guest state fields
        self.write(VmcsField::GuestCsSelector, firmware.cs as u64);
        self.write(VmcsField::GuestDsSelector, firmware.ds as u64);
        self.write(VmcsField::GuestEsSelector, firmware.es as u64);
        self.write(VmcsField::GuestFsSelector, firmware.fs as u64);
        self.write(VmcsField::GuestGsSelector, firmware.gs as u64);
        self.write(VmcsField::GuestSsSelector, firmware.ss as u64);
        self.write(VmcsField::GuestLdtrSelector, firmware.ldtr as u64);
        self.write(VmcsField::GuestTrSelector, firmware.tr as u64);

        // 32 bit guest state fields
        self.write(VmcsField::GuestCsLimit, 0xffff_ffff);
        self.write(VmcsField::GuestDsLimit, 0xffff_ffff);
        self.write(VmcsField::GuestEsLimit, 0xffff_ffff);
        self.write(VmcsField::GuestFsLimit, 0xffff_ffff);
        self.write(VmcsField::GuestGsLimit, 0xffff_ffff);
        self.write(VmcsField::GuestSsLimit, 0xffff_ffff);
        self.write(VmcsField::GuestLdtrLimit, 0xffff);
        self.write(VmcsField::GuestTrLimit, 0xffff);
        self.write(VmcsField::GuestGdtrLimit, firmware.gdtr.limit as u64);
        self.write(VmcsField::GuestIdtrLimit, firmware.idtr.limit as u64);
        self.write(VmcsField::GuestCsAccessRights, 0xa09b);
        self.write(VmcsField::GuestDsAccessRights, 0xc093);
        self.write(VmcsField::GuestEsAccessRights, 0xc093);
        self.write(VmcsField::GuestFsAccessRights, 0xc093);
        self.write(VmcsField::GuestGsAccessRights, 0xc093);
        self.write(VmcsField::GuestSsAccessRights, 0xc093);
        self.write(VmcsField::GuestLdtrAccessRights, 0x0082);
        self.write(VmcsField::GuestTrAccessRights, 0x008b);
        self.write(VmcsField::GuestInterruptibilityState, 0);
        self.write(VmcsField::GuestActivityState, 0);
        self.write(VmcsField::GuestPendingDbgExceptions, 0);
        self.write(VmcsField::GuestIa32SysenterCs, cpu.sysenter_cs);

        // 64 bit guest state fields
        self.write(VmcsField::VmcsLinkPointer, 0xffff_ffff_ffff_ffff);
        self.write(VmcsField::GuestIa32Debugctl, 0);
        self.write(VmcsField::GuestIa32Efer, cpu.efer);

        // natural width guest state fields
        let rflags = guest_rflags(cpu.rflags);
        self.write(VmcsField::GuestCr0, cpu.cr0);
        self.write(VmcsField::GuestCr3, cpu.cr3);
        self.write(VmcsField::GuestCr4, cpu.cr4);
        self.write(VmcsField::GuestCsBase, 0);
        self.write(VmcsField::GuestDsBase, 0);
        self.write(VmcsField::GuestEsBase, 0);
        self.write(VmcsField::GuestFsBase, 0);
        self.write(VmcsField::GuestGsBase, 0);
        self.write(VmcsField::GuestSsBase, 0);
        self.write(VmcsField::GuestLdtrBase, 0);
        self.write(VmcsField::GuestTrBase, 0);
        self.write(VmcsField::GuestGdtrBase, firmware.gdtr.base);
        self.write(VmcsField::GuestIdtrBase, firmware.idtr.base);
        self.write(VmcsField::GuestDr7, cpu.dr7);
        self.write(VmcsField::GuestRsp, firmware.rsp);
        self.write(VmcsField::GuestRip, entry_ret);
        self.write(VmcsField::GuestRflags, rflags);
        self.write(VmcsField::GuestSysenterEsp, cpu.sysenter_esp);
        self.write(VmcsField::GuestSysenterEip, cpu.sysenter_eip);
    }

    /// Sets the host-state area so that a VM exit continues at
    /// `vmexit_host_rip` on the stack that ends at `stack_top`, with the
    /// task register's segment at `tr_base`: see `host_state_value`.
    ///
    /// `PAE` is set in the host's CR4, and where control-flow enforcement is
    /// set in it, write protect is set in the host's CR0.
    pub fn setup_host_state_area(
        &mut self,
        vmexit_host_rip: u64,
        cpu: &CpuState,
        tr_base: u64,
        stack_top: u64,
    )
        ensures
            overlaid(
                old(self),
                final(self),
                |f: VmcsField| host_state_value(f, *cpu, vmexit_host_rip, tr_base, stack_top),
            ),
            final(self)@[VmcsField::HostCr4] & CR4_PAE == CR4_PAE,
            final(self)@[VmcsField::HostCr4] & CR4_CET == CR4_CET
                ==> final(self)@[VmcsField::HostCr0] & CR0_WP == CR0_WP,
    {
        // 16 bit host state fields
        self.write(VmcsField::HostCsSelector, cpu.cs as u64);
        self.write(VmcsField::HostDsSelector, cpu.ds as u64);
        self.write(VmcsField::HostEsSelector, cpu.es as u64);
        self.write(VmcsField::HostFsSelector, cpu.fs as u64);
        self.write(VmcsField::HostGsSelector, cpu.gs as u64);
        self.write(VmcsField::HostSsSelector, cpu.ss as u64);
        self.write(VmcsField::HostTrSelector, cpu.tr as u64);

        // 32 bit host state fields
        self.write(VmcsField::HostIa32SysenterCs, cpu.sysenter_cs);

        // native width host state fields
        let cr4 = host_cr4(cpu.cr4);
        let cr0 = host_cr0(cpu.cr0, cr4);
        self.write(VmcsField::HostCr0, cr0);
        self.write(VmcsField::HostCr3, cpu.cr3);
        self.write(VmcsField::HostCr4, cr4);
        self.write(VmcsField::HostFsBase, cpu.fs_base);
        self.write(VmcsField::HostGsBase, cpu.gs_base);
        self.write(VmcsField::HostTrBase, tr_base);
        self.write(VmcsField::HostGdtrBase, cpu.gdtr.base);
        self.write(VmcsField::HostIdtrBase, cpu.idtr.base);
        self.write(VmcsField::HostIa32SysenterEsp, cpu.sysenter_esp);
        self.write(VmcsField::HostIa32SysenterEip, cpu.sysenter_eip);
        self.write(VmcsField::HostRsp, stack_top);
        self.write(VmcsField::HostRip, vmexit_host_rip);
        self.write(VmcsField::HostIa32Efer, cpu.efer);
        self.write(VmcsField::HostIa32Pat, cpu.pat);
    }

    /// Sets the control fields: see `control_value`.
    ///
    /// Each of the five controls is legal for its capability register
    /// wherever that register allows what is switched on.
    pub fn setup_vm_control_fields(&mut self, eptp: EptPointer, caps: &VmxCapabilities)
        ensures
            overlaid(old(self), final(self), |f: VmcsField| control_value(f, *caps, eptp@)),
            controls_allow(caps.pinbased_ctls, 0) ==> controls_legal(
                final(self)@[VmcsField::PinBasedVmExecControls],
                caps.pinbased_ctls,
            ),
            controls_allow(
                caps.procbased_ctls,
                VMCS_PROC_BASED_VMEXEC_CTLS_HLTEXIT | VMCS_PROC_BASED_VMEXEC_CTLS_ACTIVE_SECOND_CTLS,
            ) ==> controls_legal(
                final(self)@[VmcsField::ProcBasedVmExecControls],
                caps.procbased_ctls,
            ),
            controls_allow(caps.procbased_ctls2, VMCS_PROC_BASED_VMEXEC_CTLS2_ENABLE_EPT)
                ==> controls_legal(
                final(self)@[VmcsField::ProcBasedVmExecControls2],
                caps.procbased_ctls2,
            ),
            controls_allow(caps.exit_ctls, VMCS_VMEXIT_CTLS_HOST_ADDR_SPACE_SIZE)
                ==> controls_legal(final(self)@[VmcsField::VmExitControls], caps.exit_ctls),
            controls_allow(caps.entry_ctls, VMCS_VMENTRY_CTLS_IA32E_MODE_GUEST) ==> controls_legal(
                final(self)@[VmcsField::VmEntryControls],
                caps.entry_ctls,
            ),
    {
        // 32 bit control fields
        let pin_based_ctls = base_controls(caps.pinbased_ctls);
        let proc_based_ctls = base_controls(caps.procbased_ctls);
        let proc_based_ctls2 = base_controls(caps.procbased_ctls2);
        let exit_ctls = base_controls(caps.exit_ctls);
        let entry_ctls = base_controls(caps.entry_ctls);
        proof {
            lemma_controls_legal(caps.pinbased_ctls, 0);
            lemma_controls_legal(
                caps.procbased_ctls,
                VMCS_PROC_BASED_VMEXEC_CTLS_HLTEXIT | VMCS_PROC_BASED_VMEXEC_CTLS_ACTIVE_SECOND_CTLS,
            );
            lemma_controls_legal(caps.procbased_ctls2, VMCS_PROC_BASED_VMEXEC_CTLS2_ENABLE_EPT);
            lemma_controls_legal(caps.exit_ctls, VMCS_VMEXIT_CTLS_HOST_ADDR_SPACE_SIZE);
            lemma_controls_legal(caps.entry_ctls, VMCS_VMENTRY_CTLS_IA32E_MODE_GUEST);
            assert(pin_based_ctls | 0 == pin_based_ctls && (proc_based_ctls | 0x80) | 0x8000_0000
                == proc_based_ctls | (0x80u64 | 0x8000_0000u64)) by (bit_vector);
        }
        self.write(VmcsField::PinBasedVmExecControls, pin_based_ctls);
        self.write(
            VmcsField::ProcBasedVmExecControls,
            proc_based_ctls | VMCS_PROC_BASED_VMEXEC_CTLS_HLTEXIT
                | VMCS_PROC_BASED_VMEXEC_CTLS_ACTIVE_SECOND_CTLS,
        );
        self.write(
            VmcsField::ProcBasedVmExecControls2,
            proc_based_ctls2 | VMCS_PROC_BASED_VMEXEC_CTLS2_ENABLE_EPT,
        );
        self.write(VmcsField::ExceptionBitmap, 0);
        self.write(VmcsField::PageFaultErrorCodeMask, 0);
        self.write(VmcsField::PageFaultErrorCodeMatch, 0);
        self.write(VmcsField::Cr3TargetCount, 0);
        self.write(VmcsField::VmExitControls, exit_ctls | VMCS_VMEXIT_CTLS_HOST_ADDR_SPACE_SIZE);
        self.write(VmcsField::VmExitMsrStoreCount, 0);
        self.write(VmcsField::VmExitMsrLoadCount, 0);
        self.write(VmcsField::VmEntryControls, entry_ctls | VMCS_VMENTRY_CTLS_IA32E_MODE_GUEST);
        self.write(VmcsField::VmEntryMsrLoadCount, 0);
        self.write(VmcsField::VmEntryIntrInfoField, 0);
        self.write(VmcsField::VmEntryExceptionErrorCode, 0);
        self.write(VmcsField::VmEntryInstructionLen, 0);
        self.write(VmcsField::TprThreshold, 0);

        // 64 bit control fields
        self.write(VmcsField::VmExitMsrLoadAddr, 0);
        self.write(VmcsField::VmExitMsrStoreAddr, 0);
        self.write(VmcsField::VmEntryMsrLoadAddr, 0);
        self.write(VmcsField::TscOffset, 0);
        self.write(VmcsField::EptPointer, eptp.as_u64());

        // natural width control fields
        self.write(VmcsField::Cr0GuestHostMask, 0);
        self.write(VmcsField::Cr4GuestHostMask, 0);
        self.write(VmcsField::Cr0ReadShadow, 0);
        self.write(VmcsField::Cr4ReadShadow, 0);
    }

    /// Sets the VMCS up so that `VMLAUNCH` continues the firmware as the
    /// guest: the guest-state area, the host-state area and the control
    /// fields, as `VmcsSetup::value` lists them.  `mem` is the memory that
    /// holds the descriptor table of the processor.
    ///
    /// Nothing is set where the inputs are not usable.
    pub fn setup<M: Memory>(
        &mut self,
        eptp: EptPointer,
        vmexit_host_rip: u64,
        inputs: &VmcsSetup,
        mem: &M,
    ) -> (done: bool)
        ensures
            done == inputs.usable(mem),
            done ==> overlaid(
                old(self),
                final(self),
                |f: VmcsField| inputs.value(f, eptp@, vmexit_host_rip, mem),
            ),
            !done ==> final(self)@ == old(self)@ && final(self).dirty() == old(self).dirty()
                && final(self).same_region(old(self)),
    {
        let tr_base = match SegmentDescriptor::base(inputs.cpu.tr, &inputs.cpu.gdtr, mem) {
            Some(base) => base,
            None => { return false; },
        };
        if inputs.host_stack > u64::MAX - 4080 {
            return false;
        }
        let stack_top: u64 = inputs.host_stack + (4096 - 16);
        self.setup_guest_state_area(&inputs.firmware, &inputs.cpu, inputs.entry_ret);
        self.setup_host_state_area(vmexit_host_rip, &inputs.cpu, tr_base, stack_top);
        self.setup_vm_control_fields(eptp, &inputs.caps);
        true
    }
}

} // verus!
