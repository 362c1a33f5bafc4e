//! The VMX instructions as far as they can be computed: what they are given,
//! and what their outcome means.

use crate::addr::{phys_of, PhysAddr, VirtAddr, PHYS_ADDR_LIMIT};
use crate::arch::intel::vmcs::{VmcsField, VmcsRegion};
use crate::arch::intel::vmexit_handlers::{
    cpuid, cpuid_applied, cr_access_effect, cr_mov, cr_mov_effect, ept_violation, guest_register,
    init_signal, mov_from_cr, triple_fault, written, CrAccess, CrAccessEffect, FatalReport,
};
use crate::arch::intel::vmexit_reason::VmExitReason;
use crate::bits::{lemma_and_le_mask, lemma_or_sets};
use crate::common::BootArgs;
use crate::cpu::CpuidResult;
use crate::emu::{decode_one, decoded_len, next_rip, spec_next_rip, DECODE_WINDOW};
use crate::memory::{bytes_at, read_bytes, Memory};
use vstd::prelude::*;

verus! {

/// Why a VMX instruction failed.
#[derive(Clone, Copy, Debug, PartialEq, Eq, Structural)]
pub enum VmxError {
    /// The carry flag was set: the operand does not refer to a valid region.
    InvalidPointer,
    /// The zero flag was set: the instruction failed with an error number,
    /// which stands in the VM-instruction error field of the current VMCS.
    VmInstructionError,
}

/// Bit 0 of RFLAGS, the carry flag.
pub open spec fn carry_flag(flags: u64) -> bool {
    flags & 0x1 == 1
}

/// Bit 6 of RFLAGS, the zero flag.
pub open spec fn zero_flag(flags: u64) -> bool {
    (flags >> 6) & 0x1 == 1
}

/// What the flags left by a VMX instruction mean: with the carry flag the
/// operand was invalid; else with the zero flag the instruction failed with
/// an error number; else it succeeded.
pub open spec fn spec_check_vmx_error(flags: u64) -> Result<(), VmxError> {
    if carry_flag(flags) {
        Err(VmxError::InvalidPointer)
    } else if zero_flag(flags) {
        Err(VmxError::VmInstructionError)
    } else {
        Ok(())
    }
}

/// Classifies the value of RFLAGS after a VMX instruction.
pub fn check_vmx_error(flags: u64) -> (result: Result<(), VmxError>)
    ensures
        result == spec_check_vmx_error(flags),
{
    let cf = (flags & 0x1) == 1;
    let zf = ((flags >> 6) & 0x1) == 1;

    if cf {
        Err(VmxError::InvalidPointer)
    } else if zf {
        Err(VmxError::VmInstructionError)
    } else {
        Ok(())
    }
}

/// What `VMREAD` gave: the value read, unless the flags report a failure.
pub fn vmread(flags: u64, value: u64) -> (result: Result<u64, VmxError>)
    ensures
        result == match spec_check_vmx_error(flags) {
            Ok(()) => Ok::<u64, VmxError>(value),
            Err(e) => Err(e),
        },
{
    match check_vmx_error(flags) {
        Err(e) => Err(e),
        Ok(()) => Ok(value),
    }
}

/// The model-specific registers that describe what VMX operation needs and
/// allows on this processor.
#[derive(Clone, Copy, Debug, PartialEq, Eq, Structural)]
pub struct VmxCapabilities {
    /// `IA32_FEATURE_CONTROL`.
    pub feature_control: u64,
    /// `IA32_VMX_BASIC`.
    pub basic: u64,
    /// `IA32_VMX_PINBASED_CTLS`.
    pub pinbased_ctls: u64,
    /// `IA32_VMX_PROCBASED_CTLS`.
    pub procbased_ctls: u64,
    /// `IA32_VMX_PROCBASED_CTLS2`.
    pub procbased_ctls2: u64,
    /// `IA32_VMX_EXIT_CTLS`.
    pub exit_ctls: u64,
    /// `IA32_VMX_ENTRY_CTLS`.
    pub entry_ctls: u64,
    /// `IA32_VMX_CR0_FIXED0`: bits of CR0 that must be 1.
    pub cr0_fixed0: u64,
    /// `IA32_VMX_CR0_FIXED1`: bits of CR0 that may be 1.
    pub cr0_fixed1: u64,
    /// `IA32_VMX_CR4_FIXED0`: bits of CR4 that must be 1.
    pub cr4_fixed0: u64,
    /// `IA32_VMX_CR4_FIXED1`: bits of CR4 that may be 1.
    pub cr4_fixed1: u64,
}

/// The VMCS revision identifier that `IA32_VMX_BASIC` reports: its bits 30:0.
pub open spec fn spec_revision_id(ia32_vmx_basic: u64) -> u32 {
    (ia32_vmx_basic & 0x7fff_ffff) as u32
}

/// The VMCS revision identifier that `IA32_VMX_BASIC` reports: its bits 30:0.
pub fn revision_id(ia32_vmx_basic: u64) -> (id: u32)
    ensures
        id == spec_revision_id(ia32_vmx_basic),
{
    proof {
        lemma_and_le_mask(ia32_vmx_basic, 0x7fff_ffff);
    }
    (ia32_vmx_basic & 0x7fff_ffff) as u32
}

/// The 4096 bytes of a VMXON or VMCS region before the processor uses it: the
/// revision identifier in the first four bytes, low byte first, and zeros.
pub open spec fn spec_region_image(revision_id: u32) -> Seq<u8> {
    Seq::new(
        4096,
        |i: int|
            if i == 0 {
                (revision_id & 0xff) as u8
            } else if i == 1 {
                ((revision_id >> 8) & 0xff) as u8
            } else if i == 2 {
                ((revision_id >> 16) & 0xff) as u8
            } else if i == 3 {
                ((revision_id >> 24) & 0xff) as u8
            } else {
                0u8
            },
    )
}

/// The 4096 bytes of a fresh region with the given revision identifier.
pub fn region_image(revision_id: u32) -> (image: Vec<u8>)
    ensures
        image@ == spec_region_image(revision_id),
{
    proof {
        assert({
            &&& revision_id & 0xff <= 0xff
            &&& (revision_id >> 8) & 0xff <= 0xff
            &&& (revision_id >> 16) & 0xff <= 0xff
            &&& (revision_id >> 24) & 0xff <= 0xff
        }) by (bit_vector);
    }
    let mut image: Vec<u8> = Vec::new();
    image.push((revision_id & 0xff) as u8);
    image.push(((revision_id >> 8) & 0xff) as u8);
    image.push(((revision_id >> 16) & 0xff) as u8);
    image.push(((revision_id >> 24) & 0xff) as u8);
    let mut i: usize = 4;
    while i < 4096
        invariant
            4 <= i <= 4096,
            image@.len() == i,
            forall|k: int| 0 <= k < i ==> image@[k] == spec_region_image(revision_id)[k],
        decreases 4096 - i,
    {
        image.push(0);
        i = i + 1;
    }
    assert(image@ =~= spec_region_image(revision_id));
    image
}

/// The first four bytes of a region's image hold the revision identifier.
pub proof fn lemma_region_image_header(revision_id: u32)
    ensures
        spec_region_image(revision_id).len() == 4096,
        spec_region_image(revision_id)[0] as u32 + spec_region_image(revision_id)[1] as u32 * 0x100
            + spec_region_image(revision_id)[2] as u32 * 0x1_0000 + spec_region_image(
            revision_id,
        )[3] as u32 * 0x100_0000 == revision_id,
{
    assert((revision_id & 0xff) + ((revision_id >> 8) & 0xff) * 0x100 + ((revision_id >> 16) & 0xff)
        * 0x1_0000 + ((revision_id >> 24) & 0xff) * 0x100_0000 == revision_id) by (bit_vector);
    assert({
        &&& revision_id & 0xff <= 0xff
        &&& (revision_id >> 8) & 0xff <= 0xff
        &&& (revision_id >> 16) & 0xff <= 0xff
        &&& (revision_id >> 24) & 0xff <= 0xff
    }) by (bit_vector);
}

/// The VMXON region: a page-aligned page of 4096 bytes that starts with the
/// VMCS revision identifier.
#[derive(Debug)]
pub struct VmxonRegion {
    vaddr: u64,
    revision_id: u32,
}

impl VmxonRegion {
    #[verifier::type_invariant]
    spec fn inv(self) -> bool {
        self.vaddr % 4096 == 0
    }

    /// The virtual address of the region's page.
    pub closed spec fn spec_vaddr(&self) -> u64 {
        self.vaddr
    }

    /// The revision identifier in the first four bytes of the page.
    pub closed spec fn spec_revision_id(&self) -> u32 {
        self.revision_id
    }

    /// A region in the page at `vaddr`, which has to be page-aligned, for a
    /// processor whose `IA32_VMX_BASIC` register reads `ia32_vmx_basic`.
    pub fn new(vaddr: u64, ia32_vmx_basic: u64) -> (region: Option<VmxonRegion>)
        ensures
            region.is_some() <==> vaddr % 4096 == 0,
            region matches Some(r) ==> r.spec_vaddr() == vaddr && r.spec_revision_id()
                == spec_revision_id(ia32_vmx_basic),
    {
        if vaddr % 4096 != 0 {
            return None;
        }
        Some(VmxonRegion { vaddr, revision_id: revision_id(ia32_vmx_basic) })
    }

    /// The virtual address of the region's page.  It is page-aligned.
    pub fn as_mut_ptr(&self) -> (vaddr: u64)
        ensures
            vaddr == self.spec_vaddr(),
            vaddr % 4096 == 0,
    {
        proof {
            use_type_invariant(self);
        }
        self.vaddr
    }

    /// The physical address of the region's page: its virtual address plus
    /// the offset of the hypervisor's area.
    pub fn paddr(&self, boot_args: &BootArgs) -> (paddr: Option<PhysAddr>)
        ensures
            paddr.is_some() <==> 0 <= self.spec_vaddr() + boot_args.vmm_phys_offset
                < PHYS_ADDR_LIMIT,
            paddr matches Some(p) ==> p@ == self.spec_vaddr() + boot_args.vmm_phys_offset,
    {
        phys_of(VirtAddr::new(self.vaddr), boot_args.vmm_phys_offset)
    }

    /// The revision identifier in the first four bytes of the page.
    pub fn revision_id(&self) -> (id: u32)
        ensures
            id == self.spec_revision_id(),
    {
        self.revision_id
    }

    /// The 4096 bytes to put in the page before `VMXON`: the revision
    /// identifier, low byte first, and zeros.
    pub fn page_image(&self) -> (image: Vec<u8>)
        ensures
            image@ == spec_region_image(self.spec_revision_id()),
            image@.len() == 4096,
    {
        region_image(self.revision_id)
    }
}

/// Bit 13 of CR4: VMX is enabled.
pub const CR4_VMXE: u64 = 0x2000;

/// Bit 0 of `IA32_FEATURE_CONTROL`: the register is locked.
pub const FEATURE_CONTROL_LOCK: u64 = 0x1;

/// Bits 0 and 2 of `IA32_FEATURE_CONTROL`: locked, with VMX enabled outside
/// SMX operation.
pub const FEATURE_CONTROL_LOCKED_VMX: u64 = 0x5;

/// A control register made to fit VMX operation: no bit is set that `fixed1`
/// does not allow, and every bit of `fixed0` is set.
pub open spec fn spec_apply_fixed_bits(value: u64, fixed0: u64, fixed1: u64) -> u64 {
    (value & fixed1) | fixed0
}

/// A control register made to fit VMX operation.  Every bit that must be 1
/// is 1 in the result; where those bits are among the bits that may be 1, no
/// other bit of the result is.
pub fn apply_fixed_bits(value: u64, fixed0: u64, fixed1: u64) -> (fitted: u64)
    ensures
        fitted == spec_apply_fixed_bits(value, fixed0, fixed1),
        fitted & fixed0 == fixed0,
        fixed0 & !fixed1 == 0 ==> fitted & !fixed1 == 0,
{
    proof {
        assert({
            let r = (value & fixed1) | fixed0;
            r & fixed0 == fixed0 && (fixed0 & !fixed1 == 0 ==> r & !fixed1 == 0)
        }) by (bit_vector);
    }
    (value & fixed1) | fixed0
}

/// What has to be done to enter VMX operation.
#[derive(Clone, Copy, Debug)]
pub struct VmxonRequest {
    /// The value to load into CR4.
    pub cr4: u64,
    /// The value to load into CR0.
    pub cr0: u64,
    /// The value to write to `IA32_FEATURE_CONTROL`, where it is not locked
    /// yet.
    pub feature_control: Option<u64>,
    /// The operand of `VMXON`: the physical address of the VMXON region.
    pub region: PhysAddr,
}

/// The CR4 that `vmxon` asks for: that of the processor fitted to the fixed
/// bits, with VMX enabled.
pub open spec fn spec_vmxon_cr4(cr4: u64, caps: VmxCapabilities) -> u64 {
    spec_apply_fixed_bits(cr4, caps.cr4_fixed0, caps.cr4_fixed1) | CR4_VMXE
}

/// The write to `IA32_FEATURE_CONTROL` that `vmxon` asks for: none where the
/// register is locked, else the register with the lock and the VMX bits set.
pub open spec fn spec_vmxon_feature_control(feature_control: u64) -> Option<u64> {
    if feature_control & FEATURE_CONTROL_LOCK == 1 {
        None
    } else {
        Some(feature_control | FEATURE_CONTROL_LOCKED_VMX)
    }
}

/// Whether `VMXON` can be prepared on `vmxon_region`: its page has a physical
/// address.
pub open spec fn vmxon_possible(vmxon_region: &VmxonRegion, boot_args: BootArgs) -> bool {
    0 <= vmxon_region.spec_vaddr() + boot_args.vmm_phys_offset < PHYS_ADDR_LIMIT
}

impl VmxonRequest {
    /// Whether this is what `VMXON` on `vmxon_region` takes on a processor
    /// whose CR0 and CR4 read `cr0` and `cr4`.
    pub open spec fn prepares(
        &self,
        vmxon_region: &VmxonRegion,
        boot_args: BootArgs,
        caps: VmxCapabilities,
        cr0: u64,
        cr4: u64,
    ) -> bool {
        &&& self.cr4 == spec_vmxon_cr4(cr4, caps)
        &&& self.cr0 == spec_apply_fixed_bits(cr0, caps.cr0_fixed0, caps.cr0_fixed1)
        &&& self.feature_control == spec_vmxon_feature_control(caps.feature_control)
        &&& self.region@ == vmxon_region.spec_vaddr() + boot_args.vmm_phys_offset
    }
}

/// Prepares `VMXON` on `vmxon_region`, for a processor whose CR0 and CR4 read
/// `cr0` and `cr4`: the control registers fitted to the fixed bits, CR4 with
/// VMX enabled, the feature-control register locked with VMX enabled, and
/// the physical address of the region.  There is nothing to do where the
/// region has no physical address.
pub fn vmxon(
    vmxon_region: &VmxonRegion,
    boot_args: &BootArgs,
    caps: &VmxCapabilities,
    cr0: u64,
    cr4: u64,
) -> (request: Option<VmxonRequest>)
    ensures
        request.is_some() <==> vmxon_possible(vmxon_region, *boot_args),
        request matches Some(r) ==> r.prepares(vmxon_region, *boot_args, *caps, cr0, cr4) && r.cr4
            & CR4_VMXE == CR4_VMXE,
{
    let fitted_cr4 = apply_fixed_bits(cr4, caps.cr4_fixed0, caps.cr4_fixed1);
    proof {
        lemma_or_sets(fitted_cr4, CR4_VMXE);
    }
    let cr4 = fitted_cr4 | CR4_VMXE;

    let cr0 = apply_fixed_bits(cr0, caps.cr0_fixed0, caps.cr0_fixed1);

    let lock = caps.feature_control & FEATURE_CONTROL_LOCK == 1;
    let feature_control = if !lock {
        Some(caps.feature_control | FEATURE_CONTROL_LOCKED_VMX)
    } else {
        None
    };

    match vmxon_region.paddr(boot_args) {
        Some(region) => Some(VmxonRequest { cr4, cr0, feature_control, region }),
        None => None,
    }
}

/// The guest's general-purpose registers as the VM-exit trampoline pushes
/// them, in the order in which they lie on the stack.  The stack pointer is
/// not among them: it is a field of the VMCS.
#[derive(Debug, Clone, Copy, PartialEq, Eq, Structural)]
pub struct VmExitGeneralPurposeRegister {
    pub r15: u64,
    pub r14: u64,
    pub r13: u64,
    pub r12: u64,
    pub r11: u64,
    pub r10: u64,
    pub r9: u64,
    pub r8: u64,
    pub rsi: u64,
    pub rdi: u64,
    pub rdx: u64,
    pub rcx: u64,
    pub rbx: u64,
    pub rax: u64,
    pub rbp: u64,
}

impl VmExitGeneralPurposeRegister {
    /// The register with the number `index` in the encoding of instructions:
    /// 0 is RAX, 1 RCX, 2 RDX, 3 RBX, 5 RBP, 6 RSI, 7 RDI, 8 to 15 are R8 to
    /// R15.  Number 4, the stack pointer, and numbers above 15 give 0.
    pub open spec fn spec_get(&self, index: u64) -> u64 {
        if index == 0 {
            self.rax
        } else if index == 1 {
            self.rcx
        } else if index == 2 {
            self.rdx
        } else if index == 3 {
            self.rbx
        } else if index == 5 {
            self.rbp
        } else if index == 6 {
            self.rsi
        } else if index == 7 {
            self.rdi
        } else if index == 8 {
            self.r8
        } else if index == 9 {
            self.r9
        } else if index == 10 {
            self.r10
        } else if index == 11 {
            self.r11
        } else if index == 12 {
            self.r12
        } else if index == 13 {
            self.r13
        } else if index == 14 {
            self.r14
        } else if index == 15 {
            self.r15
        } else {
            0
        }
    }

    /// These registers with the one of number `index` set to `value`.
    /// Number 4 and numbers above 15 change nothing.
    pub open spec fn spec_with(self, index: u64, value: u64) -> VmExitGeneralPurposeRegister {
        if index == 0 {
            VmExitGeneralPurposeRegister { rax: value, ..self }
        } else if index == 1 {
            VmExitGeneralPurposeRegister { rcx: value, ..self }
        } else if index == 2 {
            VmExitGeneralPurposeRegister { rdx: value, ..self }
        } else if index == 3 {
            VmExitGeneralPurposeRegister { rbx: value, ..self }
        } else if index == 5 {
            VmExitGeneralPurposeRegister { rbp: value, ..self }
        } else if index == 6 {
            VmExitGeneralPurposeRegister { rsi: value, ..self }
        } else if index == 7 {
            VmExitGeneralPurposeRegister { rdi: value, ..self }
        } else if index == 8 {
            VmExitGeneralPurposeRegister { r8: value, ..self }
        } else if index == 9 {
            VmExitGeneralPurposeRegister { r9: value, ..self }
        } else if index == 10 {
            VmExitGeneralPurposeRegister { r10: value, ..self }
        } else if index == 11 {
            VmExitGeneralPurposeRegister { r11: value, ..self }
        } else if index == 12 {
            VmExitGeneralPurposeRegister { r12: value, ..self }
        } else if index == 13 {
            VmExitGeneralPurposeRegister { r13: value, ..self }
        } else if index == 14 {
            VmExitGeneralPurposeRegister { r14: value, ..self }
        } else if index == 15 {
            VmExitGeneralPurposeRegister { r15: value, ..self }
        } else {
            self
        }
    }

    /// The register with the number `index`.
    pub fn get(&self, index: u64) -> (value: u64)
        ensures
            value == self.spec_get(index),
    {
        match index {
            0 => self.rax,
            1 => self.rcx,
            2 => self.rdx,
            3 => self.rbx,
            5 => self.rbp,
            6 => self.rsi,
            7 => self.rdi,
            8 => self.r8,
            9 => self.r9,
            10 => self.r10,
            11 => self.r11,
            12 => self.r12,
            13 => self.r13,
            14 => self.r14,
            15 => self.r15,
            _ => 0,
        }
    }

    /// Sets the register with the number `index` to `value`.
    pub fn set(&mut self, index: u64, value: u64)
        ensures
            *final(self) == old(self).spec_with(index, value),
    {
        match index {
            0 => { self.rax = value; },
            1 => { self.rcx = value; },
            2 => { self.rdx = value; },
            3 => { self.rbx = value; },
            5 => { self.rbp = value; },
            6 => { self.rsi = value; },
            7 => { self.rdi = value; },
            8 => { self.r8 = value; },
            9 => { self.r9 = value; },
            10 => { self.r10 = value; },
            11 => { self.r11 = value; },
            12 => { self.r12 = value; },
            13 => { self.r13 = value; },
            14 => { self.r14 = value; },
            15 => { self.r15 = value; },
            _ => {},
        }
    }
}

/// Length of the `CPUID` instruction.
pub const CPUID_LEN: usize = 2;

/// What the exit-interruption information says of an exception or NMI.
#[derive(Debug, Clone, Copy, PartialEq, Eq, Structural)]
pub struct ExceptionInfo {
    /// Bits 7:0: the vector.
    pub vector: u64,
    /// Bits 10:8: the type of the interruption.
    pub intr_type: u64,
    /// The error code, where bit 11 says that there is one.
    pub error_code: Option<u64>,
}

/// Why the hypervisor halts instead of entering the guest again.
#[derive(Debug)]
pub enum HaltCause {
    /// The exit reason is one that is not handled, `HLT` among them.
    Unhandled,
    /// A control-register access that is not handled.
    CrAccess,
    /// A triple fault, an EPT violation or an INIT signal.
    Fatal(FatalReport),
    /// An exception or NMI.
    Exception(ExceptionInfo),
}

/// What follows the handling of a VM exit.
#[derive(Debug)]
pub enum VmExitOutcome {
    /// The guest is entered again.
    Resume,
    /// The hypervisor halts.
    Halt(HaltCause),
}

/// What the VMCS says of the exception or NMI that caused the exit.
pub open spec fn spec_exception_info(vmcs: &VmcsRegion) -> ExceptionInfo {
    let info = vmcs.spec_read(VmcsField::VmExitIntrInfo);
    ExceptionInfo {
        vector: info & 0xff,
        intr_type: (info & 0x700) >> 8,
        error_code: if ((info & 0x800) >> 11) == 1 {
            Some(vmcs.spec_read(VmcsField::VmExitIntrErrorCode))
        } else {
            None
        },
    }
}

/// What the VMCS says of the exception or NMI that caused the exit.
pub fn exception_info(vmcs: &VmcsRegion) -> (info: ExceptionInfo)
    ensures
        info == spec_exception_info(vmcs),
{
    let vmexit_intr_info = vmcs.read(VmcsField::VmExitIntrInfo);
    let vector = vmexit_intr_info & 0xff;
    let intr_type = (vmexit_intr_info & 0x700) >> 8;
    let error_code_valid = ((vmexit_intr_info & 0x800) >> 11) == 1;
    let error_code = if error_code_valid {
        Some(vmcs.read(VmcsField::VmExitIntrErrorCode))
    } else {
        None
    };
    ExceptionInfo { vector, intr_type, error_code }
}

/// The guest's instruction pointer after the instruction that it points to:
/// advanced by the length that the decoder gives for the bytes there.
pub open spec fn rip_after_instruction<M: Memory>(vmcs: &VmcsRegion, mem: &M) -> u64 {
    let rip = vmcs.spec_read(VmcsField::GuestRip);
    spec_next_rip(rip, decoded_len(bytes_at(mem, rip, DECODE_WINDOW as nat), rip))
}

/// Moves the guest's instruction pointer past the instruction that it points
/// to.
pub fn advance_guest_rip<M: Memory>(vmcs: &mut VmcsRegion, mem: &M)
    ensures
        written(
            old(vmcs),
            final(vmcs),
            Some((VmcsField::GuestRip, rip_after_instruction(old(vmcs), mem))),
        ),
{
    let rip = vmcs.read(VmcsField::GuestRip);
    let code = read_bytes(mem, rip, DECODE_WINDOW);
    // the window is not empty, so there is always something to decode
    let len = match decode_one(code.as_slice(), rip) {
        Ok(len) => len,
        Err(_) => 0,
    };
    vmcs.write(VmcsField::GuestRip, next_rip(rip, len));
}

/// Whether `after` is `before` with `write` done, if there is one, and the
/// guest's instruction pointer moved past the instruction that it pointed
/// to.
pub open spec fn stepped<M: Memory>(
    before: &VmcsRegion,
    after: &VmcsRegion,
    write: Option<(VmcsField, u64)>,
    mem: &M,
) -> bool {
    let rip = rip_after_instruction(before, mem);
    &&& after.same_region(before)
    &&& match write {
        Some((field, value)) => after@ == before@.insert(field, value).insert(
            VmcsField::GuestRip,
            rip,
        ) && after.dirty() == before.dirty().insert(field).insert(VmcsField::GuestRip),
        None => after@ == before@.insert(VmcsField::GuestRip, rip) && after.dirty()
            == before.dirty().insert(VmcsField::GuestRip),
    }
}

/// Whether the exit was handled as the access `effect`, if it is one: the
/// registers and the VMCS are changed as the access asks, the instruction is
/// stepped over and the guest goes on.  Without an effect nothing changes and
/// the hypervisor halts.
pub open spec fn cr_access_outcome<M: Memory>(
    effect: Option<CrAccessEffect>,
    gpr_before: VmExitGeneralPurposeRegister,
    gpr_after: VmExitGeneralPurposeRegister,
    before: &VmcsRegion,
    after: &VmcsRegion,
    mem: &M,
    outcome: VmExitOutcome,
) -> bool {
    match effect {
        Some(e) => {
            &&& outcome is Resume
            &&& gpr_after == e.gpr
            &&& stepped(before, after, e.write, mem)
        },
        None => {
            &&& outcome matches VmExitOutcome::Halt(HaltCause::CrAccess)
            &&& gpr_after == gpr_before
            &&& written(before, after, None)
        },
    }
}

/// `MOV` to CR3: the guest's CR3 becomes `value`, and the instruction is
/// stepped over.
pub fn handle_mov_to_cr3<M: Memory>(value: u64, vmcs: &mut VmcsRegion, mem: &M) -> (outcome:
    VmExitOutcome)
    ensures
        outcome is Resume,
        stepped(old(vmcs), final(vmcs), Some((VmcsField::GuestCr3, value)), mem),
{
    vmcs.write(VmcsField::GuestCr3, value);
    advance_guest_rip(vmcs, mem);
    VmExitOutcome::Resume
}

/// `MOV` from CR3: the guest's register of number `gpr_for_mov` becomes the
/// guest's CR3, and the instruction is stepped over.
pub fn handle_mov_from_cr3<M: Memory>(
    gpr_for_mov: u64,
    gpr: &mut VmExitGeneralPurposeRegister,
    vmcs: &mut VmcsRegion,
    mem: &M,
) -> (outcome: VmExitOutcome)
    ensures
        cr_access_outcome(
            cr_mov_effect(VmcsField::GuestCr3, 1, gpr_for_mov, *old(gpr), old(vmcs)),
            *old(gpr),
            *final(gpr),
            old(vmcs),
            final(vmcs),
            mem,
            outcome,
        ),
{
    mov_from_cr(VmcsField::GuestCr3, gpr_for_mov, gpr, vmcs);
    advance_guest_rip(vmcs, mem);
    VmExitOutcome::Resume
}

/// An access to the control register whose field is `field`: a `MOV` to or
/// from it is carried out and stepped over; any other access halts.
fn handle_cr_mov<M: Memory>(
    field: VmcsField,
    access_type: u64,
    gpr_for_mov: u64,
    gpr: &mut VmExitGeneralPurposeRegister,
    vmcs: &mut VmcsRegion,
    mem: &M,
) -> (outcome: VmExitOutcome)
    requires
        field == VmcsField::GuestCr0 || field == VmcsField::GuestCr3 || field
            == VmcsField::GuestCr4,
    ensures
        cr_access_outcome(
            cr_mov_effect(field, access_type, gpr_for_mov, *old(gpr), old(vmcs)),
            *old(gpr),
            *final(gpr),
            old(vmcs),
            final(vmcs),
            mem,
            outcome,
        ),
{
    if cr_mov(field, access_type, gpr_for_mov, gpr, vmcs) {
        advance_guest_rip(vmcs, mem);
        VmExitOutcome::Resume
    } else {
        VmExitOutcome::Halt(HaltCause::CrAccess)
    }
}

/// An access to CR0.  `CLTS` and `LMSW` are not handled, whatever the operand
/// of `LMSW` is.
pub fn handle_cr0_access<M: Memory>(
    access_type: u64,
    lmsw_operand_size: u64,
    gpr_for_mov: u64,
    gpr: &mut VmExitGeneralPurposeRegister,
    vmcs: &mut VmcsRegion,
    mem: &M,
) -> (outcome: VmExitOutcome)
    ensures
        cr_access_outcome(
            cr_mov_effect(VmcsField::GuestCr0, access_type, gpr_for_mov, *old(gpr), old(vmcs)),
            *old(gpr),
            *final(gpr),
            old(vmcs),
            final(vmcs),
            mem,
            outcome,
        ),
{
    handle_cr_mov(VmcsField::GuestCr0, access_type, gpr_for_mov, gpr, vmcs, mem)
}

/// An access to CR3.
pub fn handle_cr3_access<M: Memory>(
    access_type: u64,
    gpr_for_mov: u64,
    gpr: &mut VmExitGeneralPurposeRegister,
    vmcs: &mut VmcsRegion,
    mem: &M,
) -> (outcome: VmExitOutcome)
    ensures
        cr_access_outcome(
            cr_mov_effect(VmcsField::GuestCr3, access_type, gpr_for_mov, *old(gpr), old(vmcs)),
            *old(gpr),
            *final(gpr),
            old(vmcs),
            final(vmcs),
            mem,
            outcome,
        ),
{
    let value = guest_register(gpr, vmcs, gpr_for_mov);
    match access_type {
        0 => handle_mov_to_cr3(value, vmcs, mem),
        1 => handle_mov_from_cr3(gpr_for_mov, gpr, vmcs, mem),
        _ => VmExitOutcome::Halt(HaltCause::CrAccess),
    }
}

/// An access to CR4.
pub fn handle_cr4_access<M: Memory>(
    access_type: u64,
    gpr_for_mov: u64,
    gpr: &mut VmExitGeneralPurposeRegister,
    vmcs: &mut VmcsRegion,
    mem: &M,
) -> (outcome: VmExitOutcome)
    ensures
        cr_access_outcome(
            cr_mov_effect(VmcsField::GuestCr4, access_type, gpr_for_mov, *old(gpr), old(vmcs)),
            *old(gpr),
            *final(gpr),
            old(vmcs),
            final(vmcs),
            mem,
            outcome,
        ),
{
    handle_cr_mov(VmcsField::GuestCr4, access_type, gpr_for_mov, gpr, vmcs, mem)
}

/// An exit for a control-register access with exit qualification `qual`: a
/// `MOV` to or from CR0, CR3 or CR4 is carried out and stepped over; any
/// other access halts.
pub fn handle_cr_access<M: Memory>(
    qual: u64,
    gpr: &mut VmExitGeneralPurposeRegister,
    vmcs: &mut VmcsRegion,
    mem: &M,
) -> (outcome: VmExitOutcome)
    ensures
        cr_access_outcome(
            cr_access_effect(qual, *old(gpr), old(vmcs)),
            *old(gpr),
            *final(gpr),
            old(vmcs),
            final(vmcs),
            mem,
            outcome,
        ),
{
    let access = CrAccess::decode(qual);
    match access.cr_number {
        0 => handle_cr0_access(
            access.access_type,
            access.lmsw_operand_size,
            access.gpr_for_mov,
            gpr,
            vmcs,
            mem,
        ),
        3 => handle_cr3_access(access.access_type, access.gpr_for_mov, gpr, vmcs, mem),
        4 => handle_cr4_access(access.access_type, access.gpr_for_mov, gpr, vmcs, mem),
        _ => VmExitOutcome::Halt(HaltCause::CrAccess),
    }
}

/// An exit for `CPUID`: the guest gets what the host's `CPUID` gave, in the
/// low halves of RAX, RBX, RCX and RDX, and the instruction is stepped over.
pub fn handle_cpuid(
    gpr: &mut VmExitGeneralPurposeRegister,
    vmcs: &mut VmcsRegion,
    result: &CpuidResult,
)
    ensures
        *final(gpr) == cpuid_applied(*old(gpr), *result),
        written(
            old(vmcs),
            final(vmcs),
            Some(
                (
                    VmcsField::GuestRip,
                    spec_next_rip(old(vmcs).spec_read(VmcsField::GuestRip), CPUID_LEN),
                ),
            ),
        ),
{
    cpuid(gpr, result);
    let rip = vmcs.read(VmcsField::GuestRip);
    vmcs.write(VmcsField::GuestRip, next_rip(rip, CPUID_LEN));
}

/// The fields of the VMCS that the handling of a VM exit may read.  The
/// image has to hold what the processor holds for them before
/// `handle_vmexit` is called.
pub fn exit_fields() -> (fields: Vec<VmcsField>)
    ensures
        fields@ == seq![
            VmcsField::VmExitReason,
            VmcsField::ExitQualification,
            VmcsField::VmExitIntrInfo,
            VmcsField::VmExitIntrErrorCode,
            VmcsField::GuestCr0,
            VmcsField::GuestCr3,
            VmcsField::GuestCr4,
            VmcsField::GuestRsp,
            VmcsField::GuestRip,
        ],
{
    let mut fields: Vec<VmcsField> = Vec::new();
    fields.push(VmcsField::VmExitReason);
    fields.push(VmcsField::ExitQualification);
    fields.push(VmcsField::VmExitIntrInfo);
    fields.push(VmcsField::VmExitIntrErrorCode);
    fields.push(VmcsField::GuestCr0);
    fields.push(VmcsField::GuestCr3);
    fields.push(VmcsField::GuestCr4);
    fields.push(VmcsField::GuestRsp);
    fields.push(VmcsField::GuestRip);
    assert(fields@ =~= seq![
        VmcsField::VmExitReason,
        VmcsField::ExitQualification,
        VmcsField::VmExitIntrInfo,
        VmcsField::VmExitIntrErrorCode,
        VmcsField::GuestCr0,
        VmcsField::GuestCr3,
        VmcsField::GuestCr4,
        VmcsField::GuestRsp,
        VmcsField::GuestRip,
    ]);
    fields
}

/// Whether `outcome` and the change of registers and VMCS are what the exit
/// with exit-reason field `reason` and exit qualification `qual` asks for.
///
/// `CPUID` and control-register accesses are served and the guest goes on;
/// a triple fault, an EPT violation and an INIT signal halt with a report;
/// an exception or NMI halts with what the VMCS says of it; every other
/// reason, and a field that holds no known reason, halts.
pub open spec fn vmexit_handled<M: Memory>(
    reason: u64,
    qual: u64,
    gpr_before: VmExitGeneralPurposeRegister,
    gpr_after: VmExitGeneralPurposeRegister,
    before: &VmcsRegion,
    after: &VmcsRegion,
    cpuid: CpuidResult,
    mem: &M,
    outcome: VmExitOutcome,
) -> bool {
    match VmExitReason::spec_from_field(reason) {
        Some(VmExitReason::Cpuid) => {
            &&& outcome is Resume
            &&& gpr_after == cpuid_applied(gpr_before, cpuid)
            &&& written(
                before,
                after,
                Some(
                    (
                        VmcsField::GuestRip,
                        spec_next_rip(before.spec_read(VmcsField::GuestRip), CPUID_LEN),
                    ),
                ),
            )
        },
        Some(VmExitReason::CrAccess) => cr_access_outcome(
            cr_access_effect(qual, gpr_before, before),
            gpr_before,
            gpr_after,
            before,
            after,
            mem,
            outcome,
        ),
        Some(VmExitReason::TripleFault) | Some(VmExitReason::EptViolation) | Some(
            VmExitReason::InitSignal,
        ) => {
            &&& outcome matches VmExitOutcome::Halt(HaltCause::Fatal(report)) && report.describes(
                before,
                mem,
            )
            &&& gpr_after == gpr_before
            &&& written(before, after, None)
        },
        Some(VmExitReason::ExceptionOrNmi) => {
            &&& outcome matches VmExitOutcome::Halt(HaltCause::Exception(info)) && info
                == spec_exception_info(before)
            &&& gpr_after == gpr_before
            &&& written(before, after, None)
        },
        _ => {
            &&& outcome matches VmExitOutcome::Halt(HaltCause::Unhandled)
            &&& gpr_after == gpr_before
            &&& written(before, after, None)
        },
    }
}

/// Handles a VM exit.  `reason` and `qual` are the exit-reason field and the
/// exit qualification of the VMCS, `gpr` the guest's saved registers, `vmcs`
/// the image of the VMCS, `cpuid` what the host's `CPUID` gives for the
/// guest's RAX and RCX, and `mem` the guest's memory.
pub fn handle_vmexit<M: Memory>(
    reason: u64,
    qual: u64,
    gpr: &mut VmExitGeneralPurposeRegister,
    vmcs: &mut VmcsRegion,
    cpuid: &CpuidResult,
    mem: &M,
) -> (outcome: VmExitOutcome)
    ensures
        vmexit_handled(
            reason,
            qual,
            *old(gpr),
            *final(gpr),
            old(vmcs),
            final(vmcs),
            *cpuid,
            mem,
            outcome,
        ),
{
    match VmExitReason::from_field(reason) {
        Some(VmExitReason::TripleFault) => VmExitOutcome::Halt(
            HaltCause::Fatal(triple_fault(vmcs, mem)),
        ),
        Some(VmExitReason::EptViolation) => VmExitOutcome::Halt(
            HaltCause::Fatal(ept_violation(gpr, vmcs, mem)),
        ),
        Some(VmExitReason::InitSignal) => VmExitOutcome::Halt(
            HaltCause::Fatal(init_signal(vmcs, mem)),
        ),
        Some(VmExitReason::CrAccess) => handle_cr_access(qual, gpr, vmcs, mem),
        Some(VmExitReason::ExceptionOrNmi) => VmExitOutcome::Halt(
            HaltCause::Exception(exception_info(vmcs)),
        ),
        Some(VmExitReason::Cpuid) => {
            handle_cpuid(gpr, vmcs, cpuid);
            VmExitOutcome::Resume
        },
        _ => VmExitOutcome::Halt(HaltCause::Unhandled),
    }
}

} // verus!
