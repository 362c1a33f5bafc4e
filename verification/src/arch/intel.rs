//! Intel VT-x: the VMX instruction results, the VMCS, the extended page
//! tables and the handling of VM exits.

use crate::arch::intel::ept::{ept_inputs_ok, init_ept, EptPointer, ExtendedPageTables};
use crate::arch::intel::vmcs::{overlaid, VmcsField, VmcsRegion, VmcsSetup, VmcsState};
use crate::arch::intel::vmx::{
    check_vmx_error, handle_vmexit, spec_check_vmx_error, spec_revision_id, vmexit_handled, vmxon,
    vmxon_possible, VmExitGeneralPurposeRegister, VmExitOutcome, VmxCapabilities, VmxError, VmxonRegion,
    VmxonRequest,
};
use crate::common::BootArgs;
use crate::cpu::{CpuError, CpuidResult};
use crate::memory::Memory;
use vstd::prelude::*;

pub mod ept;
pub mod vmcs;
pub mod vmcs_field;
pub mod vmexit_handlers;
pub mod vmexit_reason;
pub mod vmx;

verus! {

/// Bit 5 of ECX of `CPUID` leaf 1: the processor has VMX.
pub const CPUID_1_ECX_VMX: u32 = 0x20;

/// Why the guest was not entered.
#[derive(Clone, Copy, Debug, PartialEq, Eq, Structural)]
pub enum LaunchFailure {
    /// The processor has no current VMCS that it accepts.  This is a fault of
    /// the hypervisor.
    InvalidPointer,
    /// The processor rejected the VMCS with the error number `code`, read
    /// from the VM-instruction error field.
    VmInstructionError { code: u64 },
}

/// The one processor of the hypervisor: its VMXON region, its VMCS and the
/// EPT pointer of its guest.
#[derive(Debug)]
pub struct IntelCpu {
    pub vmxon_region: VmxonRegion,
    pub vmcs_region: VmcsRegion,
    pub eptp: EptPointer,
}

impl IntelCpu {
    /// A processor whose VMXON region and VMCS lie in the pages at
    /// `vmxon_page` and `vmcs_page`, which have to be page-aligned, and whose
    /// `IA32_VMX_BASIC` register reads `ia32_vmx_basic`.
    pub fn new(vmxon_page: u64, vmcs_page: u64, ia32_vmx_basic: u64) -> (cpu: Option<IntelCpu>)
        ensures
            cpu.is_some() <==> vmxon_page % 4096 == 0 && vmcs_page % 4096 == 0,
            cpu matches Some(c) ==> {
                &&& c.vmxon_region.spec_vaddr() == vmxon_page
                &&& c.vmxon_region.spec_revision_id() == spec_revision_id(ia32_vmx_basic)
                &&& c.vmcs_region.spec_vaddr() == vmcs_page
                &&& c.vmcs_region.spec_revision_id() == spec_revision_id(ia32_vmx_basic)
                &&& c.vmcs_region.spec_state() == VmcsState::Uninitialized
                &&& c.vmcs_region@ == Map::<VmcsField, u64>::empty()
                &&& c.vmcs_region.dirty() == Set::<VmcsField>::empty()
                &&& c.eptp@ == 0
            },
    {
        let vmxon_region = match VmxonRegion::new(vmxon_page, ia32_vmx_basic) {
            Some(region) => region,
            None => { return None; },
        };
        let vmcs_region = match VmcsRegion::new(vmcs_page, ia32_vmx_basic) {
            Some(region) => region,
            None => { return None; },
        };
        Some(IntelCpu { vmxon_region, vmcs_region, eptp: EptPointer::new() })
    }

    /// Whether `CPUID` leaf 1, whose result is `cpuid`, reports VMX: bit 5 of
    /// ECX.
    pub open spec fn spec_is_vmx_supported(cpuid: CpuidResult) -> bool {
        cpuid.ecx & CPUID_1_ECX_VMX != 0
    }

    /// Whether `CPUID` leaf 1, whose result is `cpuid`, reports VMX.
    pub fn is_vmx_supported(cpuid: &CpuidResult) -> (supported: bool)
        ensures
            supported == Self::spec_is_vmx_supported(*cpuid),
    {
        let vmx = cpuid.ecx & CPUID_1_ECX_VMX;
        0 < vmx
    }

    /// Prepares `VMXON` on the processor's VMXON region.  It cannot be done
    /// where the region has no physical address.
    pub fn vmxon(&self, boot_args: &BootArgs, caps: &VmxCapabilities, cr0: u64, cr4: u64) -> (request:
        Result<VmxonRequest, CpuError>)
        ensures
            request.is_ok() <==> vmxon_possible(&self.vmxon_region, *boot_args),
            request matches Ok(r) ==> r.prepares(&self.vmxon_region, *boot_args, *caps, cr0, cr4),
            request matches Err(e) ==> e == CpuError::VmxRelated,
    {
        match vmxon(&self.vmxon_region, boot_args, caps, cr0, cr4) {
            Some(request) => Ok(request),
            None => Err(CpuError::VmxRelated),
        }
    }

    /// Decides how to enable virtualization on a processor whose `CPUID`
    /// leaf 1 gives `cpuid` and whose CR0 and CR4 read `cr0` and `cr4`.
    /// Without VMX there is no way; else `VMXON` is prepared.
    pub fn enable_virtualization(
        &self,
        cpuid: &CpuidResult,
        boot_args: &BootArgs,
        caps: &VmxCapabilities,
        cr0: u64,
        cr4: u64,
    ) -> (request: Result<VmxonRequest, CpuError>)
        ensures
            request.is_ok() <==> Self::spec_is_vmx_supported(*cpuid) && vmxon_possible(
                &self.vmxon_region,
                *boot_args,
            ),
            request matches Ok(r) ==> r.prepares(&self.vmxon_region, *boot_args, *caps, cr0, cr4),
            request matches Err(e) ==> e == if Self::spec_is_vmx_supported(*cpuid) {
                CpuError::VmxRelated
            } else {
                CpuError::NotSupported
            },
    {
        if !Self::is_vmx_supported(cpuid) {
            Err(CpuError::NotSupported)
        } else {
            self.vmxon(boot_args, caps, cr0, cr4)
        }
    }

    /// What a `VMXON` that left `flags` in RFLAGS means for the processor.
    pub fn vmxon_result(flags: u64) -> (result: Result<(), CpuError>)
        ensures
            result == match spec_check_vmx_error(flags) {
                Ok(()) => Ok::<(), CpuError>(()),
                Err(_) => Err(CpuError::VmxRelated),
            },
    {
        match check_vmx_error(flags) {
            Ok(()) => Ok(()),
            Err(_) => Err(CpuError::VmxRelated),
        }
    }

    /// Whether the processor can be made ready for its guest: its VMCS is
    /// the current one, the identity map can be built in `pages`, and the
    /// VMCS can be set up from `inputs`.
    pub open spec fn can_init<M: Memory>(
        &self,
        boot_args: BootArgs,
        pages: Seq<u64>,
        inputs: VmcsSetup,
        mem: &M,
    ) -> bool {
        &&& self.vmcs_region.spec_state() == VmcsState::Current
        &&& ept_inputs_ok(boot_args, pages)
        &&& inputs.usable(mem)
    }

    /// Makes the bootstrap processor ready for its guest, once its VMCS was
    /// cleared and loaded: builds the identity map of the guest's memory in
    /// `pages`, and sets the VMCS up for the launch, with VM exits arriving
    /// at `vmexit_host_rip`.  The tables that come back are still to be
    /// copied to their pages, and the pending fields of the VMCS to be
    /// written.
    ///
    /// Where it cannot be done, nothing changes.
    pub fn init_as_bsp<M: Memory>(
        &mut self,
        boot_args: &BootArgs,
        pages: &[u64],
        inputs: &VmcsSetup,
        vmexit_host_rip: u64,
        mem: &M,
    ) -> (tables: Option<ExtendedPageTables>)
        ensures
            tables.is_some() <==> old(self).can_init(*boot_args, pages@, *inputs, mem),
            tables matches Some(t) ==> {
                &&& t.maps_identity(*boot_args, pages@)
                &&& final(self).eptp == t.eptp
                &&& final(self).vmxon_region == old(self).vmxon_region
                &&& overlaid(
                    &old(self).vmcs_region,
                    &final(self).vmcs_region,
                    |f: VmcsField| inputs.value(f, t.eptp@, vmexit_host_rip, mem),
                )
            },
            tables.is_none() ==> {
                &&& final(self).eptp == old(self).eptp
                &&& final(self).vmxon_region == old(self).vmxon_region
                &&& final(self).vmcs_region@ == old(self).vmcs_region@
                &&& final(self).vmcs_region.dirty() == old(self).vmcs_region.dirty()
                &&& final(self).vmcs_region.same_region(&old(self).vmcs_region)
            },
    {
        match self.vmcs_region.state() {
            VmcsState::Current => {},
            _ => { return None; },
        }
        let tables = match init_ept(boot_args, pages) {
            Some(tables) => tables,
            None => { return None; },
        };
        if !self.vmcs_region.setup(tables.eptp, vmexit_host_rip, inputs, mem) {
            return None;
        }
        self.eptp = tables.eptp;
        Some(tables)
    }

    /// Takes note of a `VMLAUNCH` that left `flags` in RFLAGS.  On success
    /// the VMCS is launched.  On failure with an error number, the number is
    /// what the image of the VMCS holds in the VM-instruction error field.
    pub fn run_vm(&mut self, flags: u64) -> (result: Result<(), LaunchFailure>)
        requires
            old(self).vmcs_region.spec_state() == VmcsState::Current,
        ensures
            result == match spec_check_vmx_error(flags) {
                Ok(()) => Ok::<(), LaunchFailure>(()),
                Err(VmxError::InvalidPointer) => Err(LaunchFailure::InvalidPointer),
                Err(VmxError::VmInstructionError) => Err(
                    LaunchFailure::VmInstructionError {
                        code: old(self).vmcs_region.spec_read(VmcsField::VmInstructionError),
                    },
                ),
            },
            final(self).eptp == old(self).eptp,
            final(self).vmxon_region == old(self).vmxon_region,
            final(self).vmcs_region@ == old(self).vmcs_region@,
            final(self).vmcs_region.dirty() == old(self).vmcs_region.dirty(),
            final(self).vmcs_region.spec_vaddr() == old(self).vmcs_region.spec_vaddr(),
            final(self).vmcs_region.spec_revision_id() == old(self).vmcs_region.spec_revision_id(),
            final(self).vmcs_region.spec_state() == if result.is_ok() {
                VmcsState::Launched
            } else {
                VmcsState::Current
            },
    {
        match self.vmcs_region.launch(flags) {
            Ok(()) => Ok(()),
            Err(e) => match e {
                VmxError::InvalidPointer => Err(LaunchFailure::InvalidPointer),
                VmxError::VmInstructionError => {
                    let error_code = self.vmcs_region.read(VmcsField::VmInstructionError);
                    Err(LaunchFailure::VmInstructionError { code: error_code })
                },
            },
        }
    }
}

/// Handles the VM exit that the image of the VMCS of `cpu` describes: reads
/// the exit reason and the exit qualification from it and dispatches.
/// `gpr` are the guest's saved registers, `cpuid` what the host's `CPUID`
/// gives for the guest's RAX and RCX, and `mem` the guest's memory.
pub fn resume_vm<M: Memory>(
    cpu: &mut IntelCpu,
    gpr: &mut VmExitGeneralPurposeRegister,
    cpuid: &CpuidResult,
    mem: &M,
) -> (outcome: VmExitOutcome)
    ensures
        vmexit_handled(
            old(cpu).vmcs_region.spec_read(VmcsField::VmExitReason),
            old(cpu).vmcs_region.spec_read(VmcsField::ExitQualification),
            *old(gpr),
            *final(gpr),
            &old(cpu).vmcs_region,
            &final(cpu).vmcs_region,
            *cpuid,
            mem,
            outcome,
        ),
        final(cpu).eptp == old(cpu).eptp,
        final(cpu).vmxon_region == old(cpu).vmxon_region,
{
    let exit_reason = cpu.vmcs_region.read(VmcsField::VmExitReason);
    let exit_qual = cpu.vmcs_region.read(VmcsField::ExitQualification);
    handle_vmexit(exit_reason, exit_qual, gpr, &mut cpu.vmcs_region, cpuid, mem)
}

} // verus!
