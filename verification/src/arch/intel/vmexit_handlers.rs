//! What a VM exit does to the guest's registers and to the VMCS, reason by
//! reason.

use crate::addr::PhysAddr;
use crate::arch::intel::vmcs::{VmcsField, VmcsRegion};
use crate::arch::intel::vmx::VmExitGeneralPurposeRegister;
use crate::bits::lemma_and_le_mask;
use crate::cpu::{guest_phys, guest_virt_to_guest_phys, CpuidResult};
use crate::emu::{disassemble, disassembly, lines_are, InstructionLine, LineView};
use crate::memory::{bytes_at, read_bytes, Memory};
use vstd::prelude::*;

verus! {

/// A register with its low 32 bits replaced by `low`.
pub open spec fn merge_low32(reg: u64, low: u32) -> u64 {
    (reg & !0xffff_ffffu64) | low as u64
}

/// Replacing the low half of a register sets the low half and keeps the high
/// half.
pub proof fn lemma_merge_low32(reg: u64, low: u32)
    ensures
        merge_low32(reg, low) & 0xffff_ffff == low,
        merge_low32(reg, low) >> 32 == reg >> 32,
{
    assert({
        let m = (reg & !0xffff_ffffu64) | low as u64;
        m & 0xffff_ffff == low && m >> 32 == reg >> 32
    }) by (bit_vector);
}

/// The leaf and the subleaf that the guest asked `CPUID` for: the low halves
/// of its RAX and RCX.
pub fn cpuid_request(gpr: &VmExitGeneralPurposeRegister) -> (request: (u32, u32))
    ensures
        request.0 == gpr.rax & 0xffff_ffff,
        request.1 == gpr.rcx & 0xffff_ffff,
{
    proof {
        lemma_and_le_mask(gpr.rax, 0xffff_ffff);
        lemma_and_le_mask(gpr.rcx, 0xffff_ffff);
    }
    ((gpr.rax & 0xffff_ffff) as u32, (gpr.rcx & 0xffff_ffff) as u32)
}

/// The guest's registers after `CPUID` gave `result`: the low halves of RAX,
/// RBX, RCX and RDX hold the result, everything else is as before.
pub open spec fn cpuid_applied(
    gpr: VmExitGeneralPurposeRegister,
    result: CpuidResult,
) -> VmExitGeneralPurposeRegister {
    VmExitGeneralPurposeRegister {
        rax: merge_low32(gpr.rax, result.eax),
        rbx: merge_low32(gpr.rbx, result.ebx),
        rcx: merge_low32(gpr.rcx, result.ecx),
        rdx: merge_low32(gpr.rdx, result.edx),
        ..gpr
    }
}

/// Hands the guest what the host's `CPUID` gave for the guest's RAX and RCX.
pub fn cpuid(gpr: &mut VmExitGeneralPurposeRegister, result: &CpuidResult)
    ensures
        *final(gpr) == cpuid_applied(*old(gpr), *result),
{
    gpr.rax = (gpr.rax & !0xffff_ffffu64) | result.eax as u64;
    gpr.rbx = (gpr.rbx & !0xffff_ffffu64) | result.ebx as u64;
    gpr.rcx = (gpr.rcx & !0xffff_ffffu64) | result.ecx as u64;
    gpr.rdx = (gpr.rdx & !0xffff_ffffu64) | result.edx as u64;
}

/// Access type of a control-register exit: `MOV` to the control register.
pub const CR_ACCESS_MOV_TO_CR: u64 = 0;

/// Access type of a control-register exit: `MOV` from the control register.
pub const CR_ACCESS_MOV_FROM_CR: u64 = 1;

/// Access type of a control-register exit: `CLTS`.
pub const CR_ACCESS_CLTS: u64 = 2;

/// Access type of a control-register exit: `LMSW`.
pub const CR_ACCESS_LMSW: u64 = 3;

/// Number of the stack pointer among the general-purpose registers.
pub const GPR_RSP: u64 = 4;

/// The parts of the exit qualification of a control-register access.
#[derive(Clone, Copy, Debug, PartialEq, Eq, Structural)]
pub struct CrAccess {
    /// Bits 3:0: number of the control register.
    pub cr_number: u64,
    /// Bits 5:4: 0 `MOV` to the register, 1 `MOV` from it, 2 `CLTS`, 3 `LMSW`.
    pub access_type: u64,
    /// Bit 6: operand of `LMSW`, 0 register, 1 memory.
    pub lmsw_operand_size: u64,
    /// Bits 11:8: number of the general-purpose register of the `MOV`.
    pub gpr_for_mov: u64,
}

impl CrAccess {
    /// The parts of the exit qualification `qual`.
    pub open spec fn spec_decode(qual: u64) -> CrAccess {
        CrAccess {
            cr_number: qual & 0xf,
            access_type: (qual & 0x30) >> 4,
            lmsw_operand_size: (qual & 0x40) >> 6,
            gpr_for_mov: (qual & 0xf00) >> 8,
        }
    }

    /// The parts of the exit qualification `qual`.  Each lies in the range
    /// of its bits.
    pub fn decode(qual: u64) -> (access: CrAccess)
        ensures
            access == Self::spec_decode(qual),
            access.cr_number < 16,
            access.access_type < 4,
            access.lmsw_operand_size < 2,
            access.gpr_for_mov < 16,
    {
        proof {
            assert(qual & 0xf < 16 && (qual & 0x30) >> 4 < 4 && (qual & 0x40) >> 6 < 2 && (qual
                & 0xf00) >> 8 < 16) by (bit_vector);
        }
        CrAccess {
            cr_number: qual & 0xf,
            access_type: (qual & 0x30) >> 4,
            lmsw_operand_size: (qual & 0x40) >> 6,
            gpr_for_mov: (qual & 0xf00) >> 8,
        }
    }
}

/// The field of the VMCS that holds the guest's control register of the
/// given number.  Only CR0, CR3 and CR4 have one.
pub open spec fn spec_cr_field(cr_number: u64) -> Option<VmcsField> {
    if cr_number == 0 {
        Some(VmcsField::GuestCr0)
    } else if cr_number == 3 {
        Some(VmcsField::GuestCr3)
    } else if cr_number == 4 {
        Some(VmcsField::GuestCr4)
    } else {
        None
    }
}

/// The field of the VMCS that holds the guest's control register of the
/// given number.
pub fn cr_field(cr_number: u64) -> (field: Option<VmcsField>)
    ensures
        field == spec_cr_field(cr_number),
{
    match cr_number {
        0 => Some(VmcsField::GuestCr0),
        3 => Some(VmcsField::GuestCr3),
        4 => Some(VmcsField::GuestCr4),
        _ => None,
    }
}

/// The value of the guest's register of number `index`: the stack pointer
/// comes from the VMCS, the others from the saved registers.
pub open spec fn spec_guest_register(
    gpr: VmExitGeneralPurposeRegister,
    vmcs: &VmcsRegion,
    index: u64,
) -> u64 {
    if index == GPR_RSP {
        vmcs.spec_read(VmcsField::GuestRsp)
    } else {
        gpr.spec_get(index)
    }
}

/// The value of the guest's register of number `index`.
pub fn guest_register(gpr: &VmExitGeneralPurposeRegister, vmcs: &VmcsRegion, index: u64) -> (value:
    u64)
    ensures
        value == spec_guest_register(*gpr, vmcs, index),
{
    if index == GPR_RSP {
        vmcs.read(VmcsField::GuestRsp)
    } else {
        gpr.get(index)
    }
}

/// What a `MOV` to or from a control register changes.
pub struct CrAccessEffect {
    /// The saved registers afterwards.
    pub gpr: VmExitGeneralPurposeRegister,
    /// The field of the VMCS that is written, with its value, if any.
    pub write: Option<(VmcsField, u64)>,
}

/// What a `MOV` between the control register whose field is `field` and the
/// guest's register of number `gpr_for_mov` changes.  A `MOV` to the control
/// register writes the source register to the field.  A `MOV` from it puts
/// the field's value in the destination register, which for the stack
/// pointer is a field of the VMCS.  Any other access type is not handled.
pub open spec fn cr_mov_effect(
    field: VmcsField,
    access_type: u64,
    gpr_for_mov: u64,
    gpr: VmExitGeneralPurposeRegister,
    vmcs: &VmcsRegion,
) -> Option<CrAccessEffect> {
    if access_type == CR_ACCESS_MOV_TO_CR {
        Some(
            CrAccessEffect {
                gpr,
                write: Some((field, spec_guest_register(gpr, vmcs, gpr_for_mov))),
            },
        )
    } else if access_type == CR_ACCESS_MOV_FROM_CR {
        if gpr_for_mov == GPR_RSP {
            Some(CrAccessEffect { gpr, write: Some((VmcsField::GuestRsp, vmcs.spec_read(field))) })
        } else {
            Some(
                CrAccessEffect {
                    gpr: gpr.spec_with(gpr_for_mov, vmcs.spec_read(field)),
                    write: None,
                },
            )
        }
    } else {
        None
    }
}

/// What the control-register access with exit qualification `qual` changes:
/// what the `MOV` changes, for CR0, CR3 and CR4.  An access to any other
/// control register is not handled.
pub open spec fn cr_access_effect(
    qual: u64,
    gpr: VmExitGeneralPurposeRegister,
    vmcs: &VmcsRegion,
) -> Option<CrAccessEffect> {
    let access = CrAccess::spec_decode(qual);
    match spec_cr_field(access.cr_number) {
        None => None,
        Some(field) => cr_mov_effect(field, access.access_type, access.gpr_for_mov, gpr, vmcs),
    }
}

/// Whether `after` is `before` with `write` done, if there is one: the field
/// has the value and is pending.
pub open spec fn written(before: &VmcsRegion, after: &VmcsRegion, write: Option<(VmcsField, u64)>) -> bool {
    &&& after.same_region(before)
    &&& match write {
        Some((field, value)) => after@ == before@.insert(field, value) && after.dirty()
            == before.dirty().insert(field),
        None => after@ == before@ && after.dirty() == before.dirty(),
    }
}

/// Carries out the `MOV` to the control register whose field is `field`,
/// from the guest's register of number `gpr_for_mov`.
pub fn mov_to_cr(
    field: VmcsField,
    gpr_for_mov: u64,
    gpr: &VmExitGeneralPurposeRegister,
    vmcs: &mut VmcsRegion,
)
    ensures
        written(
            old(vmcs),
            final(vmcs),
            Some((field, spec_guest_register(*gpr, old(vmcs), gpr_for_mov))),
        ),
{
    let value = guest_register(gpr, vmcs, gpr_for_mov);
    vmcs.write(field, value);
}

/// Carries out the `MOV` from the control register whose field is `field`,
/// to the guest's register of number `gpr_for_mov`.
pub fn mov_from_cr(
    field: VmcsField,
    gpr_for_mov: u64,
    gpr: &mut VmExitGeneralPurposeRegister,
    vmcs: &mut VmcsRegion,
)
    ensures
        gpr_for_mov == GPR_RSP ==> *final(gpr) == *old(gpr) && written(
            old(vmcs),
            final(vmcs),
            Some((VmcsField::GuestRsp, old(vmcs).spec_read(field))),
        ),
        gpr_for_mov != GPR_RSP ==> *final(gpr) == old(gpr).spec_with(
            gpr_for_mov,
            old(vmcs).spec_read(field),
        ) && written(old(vmcs), final(vmcs), None),
{
    let value = vmcs.read(field);
    if gpr_for_mov == GPR_RSP {
        vmcs.write(VmcsField::GuestRsp, value);
    } else {
        gpr.set(gpr_for_mov, value);
    }
}

/// Carries out the access of type `access_type` between the control
/// register whose field is `field` and the guest's register of number
/// `gpr_for_mov`, and says whether it is one that is handled.  An access that
/// is not handled changes nothing.
pub fn cr_mov(
    field: VmcsField,
    access_type: u64,
    gpr_for_mov: u64,
    gpr: &mut VmExitGeneralPurposeRegister,
    vmcs: &mut VmcsRegion,
) -> (handled: bool)
    ensures
        handled == cr_mov_effect(field, access_type, gpr_for_mov, *old(gpr), old(vmcs)).is_some(),
        match cr_mov_effect(field, access_type, gpr_for_mov, *old(gpr), old(vmcs)) {
            Some(effect) => *final(gpr) == effect.gpr && written(
                old(vmcs),
                final(vmcs),
                effect.write,
            ),
            None => *final(gpr) == *old(gpr) && written(old(vmcs), final(vmcs), None),
        },
{
    match access_type {
        0 => {
            // mov to cr
            mov_to_cr(field, gpr_for_mov, gpr, vmcs);
            true
        },
        1 => {
            // mov from cr
            mov_from_cr(field, gpr_for_mov, gpr, vmcs);
            true
        },
        _ => false,
    }
}

/// Carries out the control-register access with exit qualification `qual`,
/// and says whether it is one that is handled.  An access that is not
/// handled changes nothing.
pub fn cr_access(qual: u64, gpr: &mut VmExitGeneralPurposeRegister, vmcs: &mut VmcsRegion) -> (handled:
    bool)
    ensures
        handled == cr_access_effect(qual, *old(gpr), old(vmcs)).is_some(),
        match cr_access_effect(qual, *old(gpr), old(vmcs)) {
            Some(effect) => *final(gpr) == effect.gpr && written(
                old(vmcs),
                final(vmcs),
                effect.write,
            ),
            None => *final(gpr) == *old(gpr) && written(old(vmcs), final(vmcs), None),
        },
{
    let access = CrAccess::decode(qual);
    match cr_field(access.cr_number) {
        Some(field) => cr_mov(field, access.access_type, access.gpr_for_mov, gpr, vmcs),
        None => false,
    }
}

/// Number of bytes disassembled at the guest's instruction pointer when the
/// guest cannot go on.
pub const DUMP_LEN: usize = 0x20;

/// What is known of a guest that cannot go on.
#[derive(Debug)]
pub struct FatalReport {
    /// The guest's instruction pointer.
    pub guest_rip: u64,
    /// The root of the guest's page tables.
    pub guest_cr3: u64,
    /// The guest-physical address of the instruction pointer, if the page
    /// walk gave one.
    pub guest_rip_phys: Option<PhysAddr>,
    /// The instructions at that address.
    pub dump: Vec<InstructionLine>,
}

/// The lines that `dump_instructions` gives: the disassembly of the `len`
/// bytes of `mem` at `addr`.
pub open spec fn spec_dump<M: Memory>(mem: &M, addr: u64, len: usize) -> Seq<LineView> {
    disassembly(bytes_at(mem, addr, len as nat), addr, 0)
}

/// Disassembles the `len` bytes at the guest-physical address
/// `guest_rip_phys`.
pub fn dump_instructions<M: Memory>(guest_rip_phys: PhysAddr, len: usize, mem: &M) -> (lines: Vec<
    InstructionLine,
>)
    ensures
        lines_are(lines@, spec_dump(mem, guest_rip_phys@, len)),
{
    let addr = guest_rip_phys.as_u64();
    let code = read_bytes(mem, addr, len);
    disassemble(code.as_slice(), addr)
}

impl FatalReport {
    /// Whether this is the report on the guest whose VMCS is `vmcs` and whose
    /// memory is `mem`: instruction pointer and page-table root as the VMCS
    /// has them, the address that the page walk gives for the instruction
    /// pointer, and the disassembly of `DUMP_LEN` bytes there.
    pub open spec fn describes<M: Memory>(&self, vmcs: &VmcsRegion, mem: &M) -> bool {
        let rip = vmcs.spec_read(VmcsField::GuestRip);
        let cr3 = vmcs.spec_read(VmcsField::GuestCr3);
        &&& self.guest_rip == rip
        &&& self.guest_cr3 == cr3
        &&& match guest_phys(mem, rip, cr3) {
            Some(addr) => {
                &&& self.guest_rip_phys matches Some(p) && p@ == addr
                &&& lines_are(self.dump@, spec_dump(mem, addr, DUMP_LEN))
            },
            None => self.guest_rip_phys.is_none() && self.dump@.len() == 0,
        }
    }
}

/// Reports on a guest that cannot go on.
fn fatal_report<M: Memory>(vmcs: &VmcsRegion, mem: &M) -> (report: FatalReport)
    ensures
        report.describes(vmcs, mem),
{
    let guest_rip = vmcs.read(VmcsField::GuestRip);
    let guest_cr3 = vmcs.read(VmcsField::GuestCr3);
    let guest_rip_phys = guest_virt_to_guest_phys(guest_rip, guest_cr3, mem);
    let dump = match guest_rip_phys {
        Some(phys) => dump_instructions(phys, DUMP_LEN, mem),
        None => Vec::new(),
    };
    FatalReport { guest_rip, guest_cr3, guest_rip_phys, dump }
}

/// A triple fault in the guest: reports where the guest stood.  The caller
/// halts.
pub fn triple_fault<M: Memory>(vmcs: &VmcsRegion, mem: &M) -> (report: FatalReport)
    ensures
        report.describes(vmcs, mem),
{
    fatal_report(vmcs, mem)
}

/// An EPT violation by the guest: reports where the guest stood.  The caller
/// halts.
pub fn ept_violation<M: Memory>(
    _gpr: &mut VmExitGeneralPurposeRegister,
    vmcs: &VmcsRegion,
    mem: &M,
) -> (report: FatalReport)
    ensures
        report.describes(vmcs, mem),
        *final(_gpr) == *old(_gpr),
{
    fatal_report(vmcs, mem)
}

/// An INIT signal in the guest: reports where the guest stood.  The caller
/// halts.
pub fn init_signal<M: Memory>(vmcs: &VmcsRegion, mem: &M) -> (report: FatalReport)
    ensures
        report.describes(vmcs, mem),
{
    fatal_report(vmcs, mem)
}

} // verus!
