use htvmm::arch::intel::ept::EPT_LEAF_FLAGS;
use htvmm::arch::intel::vmcs::{VmcsField, VmcsSetup, VmcsState};
use htvmm::arch::intel::vmx::{VmExitGeneralPurposeRegister, VmExitOutcome, HaltCause, VmxCapabilities};
use htvmm::arch::intel::{resume_vm, IntelCpu, LaunchFailure, CPUID_1_ECX_VMX};
use htvmm::common::BootArgs;
use htvmm::cpu::{CpuError, CpuState, CpuidResult, DescriptorTablePointer, FirmwareContext};
use htvmm::memory::MemoryImage;

fn boot_args() -> BootArgs {
    let mut args = BootArgs::new();
    args.memory_size = 0x1_0000_0000;
    args.vmm_phys_offset = 0x2000_0000 - 0x1_0000_0000;
    args
}

fn new_cpu() -> IntelCpu {
    IntelCpu::new(0x1_0800_0000, 0x1_0800_1000, 0x00da_0400_0000_0004).unwrap()
}

fn current_cpu() -> IntelCpu {
    let mut cpu = new_cpu();
    assert_eq!(cpu.vmcs_region.clear(0x2), Ok(()));
    assert_eq!(cpu.vmcs_region.load(0x2), Ok(()));
    cpu
}

fn caps() -> VmxCapabilities {
    VmxCapabilities {
        feature_control: 0x5,
        basic: 0x00da_0400_0000_0004,
        pinbased_ctls: 0x0000_007f_0000_0016,
        procbased_ctls: 0xfff9_fffe_0401_e172,
        procbased_ctls2: 0x0000_00ff_0000_0000,
        exit_ctls: 0x01ff_ffff_0003_6dff,
        entry_ctls: 0x0000_ffff_0000_11ff,
        cr0_fixed0: 0x8000_0021,
        cr0_fixed1: 0xffff_ffff,
        cr4_fixed0: 0x2000,
        cr4_fixed1: 0x0077_27ff,
    }
}

fn inputs() -> VmcsSetup {
    let table = DescriptorTablePointer { limit: 0x37, base: 0x5000 };
    VmcsSetup {
        firmware: FirmwareContext {
            cs: 0x38,
            ds: 0x30,
            es: 0x30,
            fs: 0x30,
            gs: 0x30,
            ss: 0x30,
            ldtr: 0,
            tr: 0,
            gdtr: table,
            idtr: table,
            rsp: 0x7fe8_9f28,
        },
        cpu: CpuState {
            cr0: 0x8001_0033,
            cr3: 0x7fc0_1000,
            cr4: 0x2668,
            dr7: 0x400,
            rflags: 0x246,
            cs: 0x8,
            ds: 0x10,
            es: 0x10,
            fs: 0x10,
            gs: 0x10,
            ss: 0x10,
            tr: 0x28,
            gdtr: table,
            idtr: table,
            fs_base: 0,
            gs_base: 0,
            sysenter_cs: 0,
            sysenter_esp: 0,
            sysenter_eip: 0,
            efer: 0xd01,
            pat: 0x0007_0406_0007_0406,
        },
        caps: caps(),
        entry_ret: 0x1_0000_2468,
        host_stack: 0x1_0900_0000,
    }
}

fn pages(count: usize) -> Vec<u64> {
    let mut pages = Vec::new();
    let mut k = 0;
    while k < count {
        pages.push(0x1_0810_0000 + 4096 * k as u64);
        k += 1;
    }
    pages
}

fn zeroed() -> VmExitGeneralPurposeRegister {
    VmExitGeneralPurposeRegister {
        r15: 0,
        r14: 0,
        r13: 0,
        r12: 0,
        r11: 0,
        r10: 0,
        r9: 0,
        r8: 0,
        rsi: 0,
        rdi: 0,
        rdx: 0,
        rcx: 0,
        rbx: 0,
        rax: 0,
        rbp: 0,
    }
}

#[test]
fn cpu_owns_aligned_regions() {
    assert!(IntelCpu::new(0x1_0800_0010, 0x1_0800_1000, 4).is_none());
    assert!(IntelCpu::new(0x1_0800_0000, 0x1_0800_1800, 4).is_none());
    let cpu = IntelCpu::new(0x1_0800_0000, 0x1_0800_1000, 0xffff_ffff_ffff_ffff).unwrap();
    assert_eq!(cpu.vmxon_region.as_mut_ptr(), 0x1_0800_0000);
    assert_eq!(cpu.vmcs_region.as_mut_ptr(), 0x1_0800_1000);
    assert_eq!(cpu.vmxon_region.revision_id(), 0x7fff_ffff);
    assert_eq!(cpu.vmcs_region.revision_id(), 0x7fff_ffff);
    assert_eq!(cpu.vmcs_region.state(), VmcsState::Uninitialized);
    assert_eq!(cpu.eptp.as_u64(), 0);
}

#[test]
fn vmx_support_is_bit_5_of_ecx() {
    assert_eq!(CPUID_1_ECX_VMX, 1 << 5);
    let mut cpuid = CpuidResult { eax: 0x000a_0671, ebx: 0, ecx: 0, edx: 0xffff_ffff };
    assert!(!IntelCpu::is_vmx_supported(&cpuid));
    cpuid.ecx = 0x20;
    assert!(IntelCpu::is_vmx_supported(&cpuid));
    cpuid.ecx = 0xffff_ffdf;
    assert!(!IntelCpu::is_vmx_supported(&cpuid));
    cpuid.ecx = 0x7ffa_fbff;
    assert!(IntelCpu::is_vmx_supported(&cpuid));
}

#[test]
fn enabling_virtualization() {
    let cpu = new_cpu();
    let without = CpuidResult { eax: 0, ebx: 0, ecx: 0x1, edx: 0 };
    let with = CpuidResult { eax: 0, ebx: 0, ecx: 0x21, edx: 0 };
    let result = cpu.enable_virtualization(&without, &boot_args(), &caps(), 0x33, 0x668);
    assert_eq!(result.err(), Some(CpuError::NotSupported));

    let request = cpu.enable_virtualization(&with, &boot_args(), &caps(), 0x33, 0x668).unwrap();
    assert_eq!(request.cr4, 0x2668);
    assert_eq!(request.cr0, 0x8000_0033);
    assert_eq!(request.feature_control, None);
    assert_eq!(request.region.as_u64(), 0x2800_0000);

    let mut args = boot_args();
    args.vmm_phys_offset = -0x2_0000_0000;
    let result = cpu.enable_virtualization(&with, &args, &caps(), 0x33, 0x668);
    assert_eq!(result.err(), Some(CpuError::VmxRelated));
    assert_eq!(cpu.vmxon(&args, &caps(), 0, 0).err(), Some(CpuError::VmxRelated));
    // without VMX, the region is not even looked at
    let result = cpu.enable_virtualization(&without, &args, &caps(), 0x33, 0x668);
    assert_eq!(result.err(), Some(CpuError::NotSupported));

    assert_eq!(IntelCpu::vmxon_result(0x2), Ok(()));
    assert_eq!(IntelCpu::vmxon_result(0x1), Err(CpuError::VmxRelated));
    assert_eq!(IntelCpu::vmxon_result(0x40), Err(CpuError::VmxRelated));
}

#[test]
fn bootstrap_processor_is_made_ready() {
    let mut cpu = current_cpu();
    let mut mem = MemoryImage::new();
    mem.store_u64(0x5000 + 5 * 8, 0x5500_8b66_7788_ffff);
    mem.store_u64(0x5000 + 6 * 8, 0x1122_3344);
    let tables = cpu.init_as_bsp(&boot_args(), &pages(6), &inputs(), 0x1_0000_4000, &mem).unwrap();
    assert_eq!(tables.pdts.len(), 4);
    assert_eq!(tables.pdts[3].index(511).as_u64(), (0x1_0000_0000 - 0x20_0000) | EPT_LEAF_FLAGS);
    assert_eq!(tables.eptp.as_u64(), 0x2810_001e);
    assert_eq!(cpu.eptp, tables.eptp);
    assert_eq!(cpu.vmcs_region.read(VmcsField::EptPointer), 0x2810_001e);
    // the guest continues where the firmware was
    assert_eq!(cpu.vmcs_region.read(VmcsField::GuestRip), 0x1_0000_2468);
    assert_eq!(cpu.vmcs_region.read(VmcsField::GuestRsp), 0x7fe8_9f28);
    assert_eq!(cpu.vmcs_region.read(VmcsField::HostRip), 0x1_0000_4000);
    assert_eq!(cpu.vmcs_region.read(VmcsField::HostTrBase), 0x1122_3344_5566_7788);
    assert_eq!(cpu.vmcs_region.state(), VmcsState::Current);
    assert_eq!(cpu.vmcs_region.take_dirty().len(), 99);
}

#[test]
fn bootstrap_processor_needs_a_current_vmcs() {
    let mut mem = MemoryImage::new();
    mem.store_u64(0x5000 + 6 * 8, 0x1122_3344);
    let mut cpu = new_cpu();
    assert!(cpu.init_as_bsp(&boot_args(), &pages(6), &inputs(), 0, &mem).is_none());
    assert_eq!(cpu.vmcs_region.clear(0), Ok(()));
    assert!(cpu.init_as_bsp(&boot_args(), &pages(6), &inputs(), 0, &mem).is_none());
    assert_eq!(cpu.vmcs_region.load(0), Ok(()));
    // too few pages
    assert!(cpu.init_as_bsp(&boot_args(), &pages(5), &inputs(), 0, &mem).is_none());
    // a task register outside the descriptor table
    let mut bad = inputs();
    bad.cpu.tr = 0x1b8;
    assert!(cpu.init_as_bsp(&boot_args(), &pages(6), &bad, 0, &mem).is_none());
    assert_eq!(cpu.eptp.as_u64(), 0);
    assert!(cpu.vmcs_region.take_dirty().is_empty());
    assert!(cpu.init_as_bsp(&boot_args(), &pages(6), &inputs(), 0, &mem).is_some());
}

#[test]
fn launch_outcomes() {
    let mut cpu = current_cpu();
    assert_eq!(cpu.run_vm(0x1), Err(LaunchFailure::InvalidPointer));
    assert_eq!(cpu.vmcs_region.state(), VmcsState::Current);
    // the processor rejects the VMCS: the error number is reported
    cpu.vmcs_region.refresh(VmcsField::VmInstructionError, 7);
    assert_eq!(cpu.run_vm(0x40), Err(LaunchFailure::VmInstructionError { code: 7 }));
    assert_eq!(cpu.vmcs_region.state(), VmcsState::Current);
    assert_eq!(cpu.run_vm(0x2), Ok(()));
    assert_eq!(cpu.vmcs_region.state(), VmcsState::Launched);
}

#[test]
fn resume_reads_reason_and_qualification_from_the_vmcs() {
    let mut cpu = current_cpu();
    let mut mem = MemoryImage::new();
    mem.store_bytes(0x9000, &[0x0f, 0x22, 0xdb]);
    cpu.vmcs_region.refresh(VmcsField::VmExitReason, 28);
    cpu.vmcs_region.refresh(VmcsField::ExitQualification, 0x303);
    cpu.vmcs_region.refresh(VmcsField::GuestRip, 0x9000);
    let mut gpr = zeroed();
    gpr.rbx = 0x1234_0000;
    let cpuid = CpuidResult { eax: 0, ebx: 0, ecx: 0, edx: 0 };
    let outcome = resume_vm(&mut cpu, &mut gpr, &cpuid, &mem);
    assert!(matches!(outcome, VmExitOutcome::Resume));
    assert_eq!(cpu.vmcs_region.read(VmcsField::GuestCr3), 0x1234_0000);
    assert_eq!(cpu.vmcs_region.read(VmcsField::GuestRip), 0x9003);

    cpu.vmcs_region.refresh(VmcsField::VmExitReason, 12);
    let outcome = resume_vm(&mut cpu, &mut gpr, &cpuid, &mem);
    assert!(matches!(outcome, VmExitOutcome::Halt(HaltCause::Unhandled)));
}
