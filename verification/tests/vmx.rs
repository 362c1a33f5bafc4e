use htvmm::arch::intel::vmx::{
    apply_fixed_bits, check_vmx_error, region_image, revision_id, vmread, vmxon,
    VmExitGeneralPurposeRegister, VmxCapabilities, VmxError, VmxonRegion, CR4_VMXE,
    FEATURE_CONTROL_LOCK, FEATURE_CONTROL_LOCKED_VMX,
};
use htvmm::arch::intel::vmexit_reason::VmExitReason;
use htvmm::common::constants::{
    MSR_EFER, MSR_IA32_CR_PAT, MSR_IA32_FEATURE_CONTROL, MSR_IA32_SYSENTER_CS,
    MSR_IA32_SYSENTER_EIP, MSR_IA32_SYSENTER_ESP, MSR_IA32_VMX_BASIC, MSR_IA32_VMX_CR0_FIXED0,
    MSR_IA32_VMX_CR0_FIXED1, MSR_IA32_VMX_CR4_FIXED0, MSR_IA32_VMX_CR4_FIXED1,
    MSR_IA32_VMX_ENTRY_CTLS, MSR_IA32_VMX_EXIT_CTLS, MSR_IA32_VMX_PINBASED_CTLS,
    MSR_IA32_VMX_PROCBASED_CTLS, MSR_IA32_VMX_PROCBASED_CTLS2,
};
use htvmm::common::BootArgs;

fn vmx_caps() -> VmxCapabilities {
    VmxCapabilities {
        feature_control: 0,
        basic: 0x00da_0400_0000_0004,
        pinbased_ctls: 0,
        procbased_ctls: 0,
        procbased_ctls2: 0,
        exit_ctls: 0,
        entry_ctls: 0,
        cr0_fixed0: 0x8000_0021,
        cr0_fixed1: 0xffff_ffff,
        cr4_fixed0: 0x2000,
        cr4_fixed1: 0x0077_27ff,
    }
}

fn zero_registers() -> VmExitGeneralPurposeRegister {
    VmExitGeneralPurposeRegister {
        r15: 0,
        r14: 0,
        r13: 0,
        r12: 0,
        r11: 0,
        r10: 0,
        r9: 0,
        r8: 0,
        rsi: 0,
        rdi: 0,
        rdx: 0,
        rcx: 0,
        rbx: 0,
        rax: 0,
        rbp: 0,
    }
}

#[test]
fn msr_numbers() {
    assert_eq!(MSR_IA32_FEATURE_CONTROL, 0x3a);
    assert_eq!(MSR_IA32_SYSENTER_CS, 0x174);
    assert_eq!(MSR_IA32_SYSENTER_ESP, 0x175);
    assert_eq!(MSR_IA32_SYSENTER_EIP, 0x176);
    assert_eq!(MSR_IA32_CR_PAT, 0x277);
    assert_eq!(MSR_IA32_VMX_BASIC, 0x480);
    assert_eq!(MSR_IA32_VMX_PINBASED_CTLS, 0x481);
    assert_eq!(MSR_IA32_VMX_PROCBASED_CTLS, 0x482);
    assert_eq!(MSR_IA32_VMX_EXIT_CTLS, 0x483);
    assert_eq!(MSR_IA32_VMX_ENTRY_CTLS, 0x484);
    assert_eq!(MSR_IA32_VMX_CR0_FIXED0, 0x486);
    assert_eq!(MSR_IA32_VMX_CR0_FIXED1, 0x487);
    assert_eq!(MSR_IA32_VMX_CR4_FIXED0, 0x488);
    assert_eq!(MSR_IA32_VMX_CR4_FIXED1, 0x489);
    assert_eq!(MSR_IA32_VMX_PROCBASED_CTLS2, 0x48b);
    assert_eq!(MSR_EFER, 0xc000_0080);
}

#[test]
fn flags_classify_the_outcome() {
    assert_eq!(check_vmx_error(0), Ok(()));
    assert_eq!(check_vmx_error(0x2), Ok(()));
    assert_eq!(check_vmx_error(0x1), Err(VmxError::InvalidPointer));
    assert_eq!(check_vmx_error(0x40), Err(VmxError::VmInstructionError));
    // the carry flag wins
    assert_eq!(check_vmx_error(0x41), Err(VmxError::InvalidPointer));
    assert_eq!(check_vmx_error(0x246), Err(VmxError::VmInstructionError));
    assert_eq!(check_vmx_error(!0x41u64), Ok(()));
    assert_eq!(check_vmx_error(u64::MAX), Err(VmxError::InvalidPointer));
}

#[test]
fn vmread_gives_the_value_on_success() {
    assert_eq!(vmread(0x2, 0x1234), Ok(0x1234));
    assert_eq!(vmread(0x1, 0x1234), Err(VmxError::InvalidPointer));
    assert_eq!(vmread(0x40, 0x1234), Err(VmxError::VmInstructionError));
}

#[test]
fn revision_identifier_is_31_bits() {
    assert_eq!(revision_id(0x00da_0400_0000_0004), 4);
    assert_eq!(revision_id(u64::MAX), 0x7fff_ffff);
    assert_eq!(revision_id(0x8000_0000), 0);
    assert_eq!(revision_id(0x1_1234_5678), 0x1234_5678);
}

#[test]
fn region_image_layout() {
    let image = region_image(0x1234_5678);
    assert_eq!(image.len(), 4096);
    assert_eq!(&image[0..5], &[0x78, 0x56, 0x34, 0x12, 0]);
    assert!(image[4..].iter().all(|b| *b == 0));
    assert!(region_image(0).iter().all(|b| *b == 0));
}

#[test]
fn vmxon_region_starts_with_the_revision_identifier() {
    assert!(VmxonRegion::new(0x1_0800_0001, 4).is_none());
    let region = VmxonRegion::new(0x1_0800_0000, 0x00da_0400_8000_0011).unwrap();
    assert_eq!(region.revision_id(), 0x11);
    assert_eq!(region.as_mut_ptr(), 0x1_0800_0000);
    assert_eq!(region.as_mut_ptr() % 4096, 0);
    let image = region.page_image();
    assert_eq!(image.len(), 4096);
    assert_eq!(u32::from_le_bytes([image[0], image[1], image[2], image[3]]), 0x11);
    let mut args = BootArgs::new();
    args.vmm_phys_offset = -0x1_0000_0000;
    assert_eq!(region.paddr(&args).map(|p| p.as_u64()), Some(0x0800_0000));
}

#[test]
fn fixed_bits() {
    assert_eq!(apply_fixed_bits(0, 0x8000_0021, 0xffff_ffff), 0x8000_0021);
    assert_eq!(apply_fixed_bits(0x1_0000_0012, 0x8000_0021, 0xffff_ffff), 0x8000_0033);
    assert_eq!(apply_fixed_bits(u64::MAX, 0x2000, 0x0077_27ff), 0x0077_27ff);
    assert_eq!(apply_fixed_bits(0x668, 0x2000, 0x0077_27ff), 0x2668);
    // a bit that must be one is one even where it may not be
    assert_eq!(apply_fixed_bits(0, 0x3, 0x1), 0x3);
}

#[test]
fn vmxon_request() {
    assert_eq!(CR4_VMXE, 1 << 13);
    assert_eq!(FEATURE_CONTROL_LOCK, 1);
    assert_eq!(FEATURE_CONTROL_LOCKED_VMX, 5);
    let region = VmxonRegion::new(0x1_0800_0000, 4).unwrap();
    let mut args = BootArgs::new();
    args.vmm_phys_offset = 0x2000_0000 - 0x1_0000_0000;
    let mut caps = vmx_caps();
    caps.cr4_fixed0 = 0;
    let request = vmxon(&region, &args, &caps, 0x12, 0x1_0000_0668).unwrap();
    assert_eq!(request.cr4, 0x2668);
    assert_eq!(request.cr0, 0x8000_0033);
    assert_eq!(request.feature_control, Some(5));
    assert_eq!(request.region.as_u64(), 0x2800_0000);

    caps.feature_control = 0x1;
    let request = vmxon(&region, &args, &caps, 0, 0).unwrap();
    assert_eq!(request.feature_control, None);
    assert_eq!(request.cr4, 0x2000);
    caps.feature_control = 0x4;
    assert_eq!(vmxon(&region, &args, &caps, 0, 0).unwrap().feature_control, Some(5));
    caps.feature_control = 0xff00;
    assert_eq!(vmxon(&region, &args, &caps, 0, 0).unwrap().feature_control, Some(0xff05));
    caps.feature_control = 0x5;
    assert_eq!(vmxon(&region, &args, &caps, 0, 0).unwrap().feature_control, None);

    args.vmm_phys_offset = -0x2_0000_0000;
    assert!(vmxon(&region, &args, &caps, 0, 0).is_none());
}

#[test]
fn registers_by_number() {
    let mut gpr = zero_registers();
    let mut index = 0;
    while index < 16 {
        gpr.set(index, 0x100 + index);
        index += 1;
    }
    assert_eq!(gpr.rax, 0x100);
    assert_eq!(gpr.rcx, 0x101);
    assert_eq!(gpr.rdx, 0x102);
    assert_eq!(gpr.rbx, 0x103);
    assert_eq!(gpr.rbp, 0x105);
    assert_eq!(gpr.rsi, 0x106);
    assert_eq!(gpr.rdi, 0x107);
    assert_eq!(gpr.r8, 0x108);
    assert_eq!(gpr.r9, 0x109);
    assert_eq!(gpr.r10, 0x10a);
    assert_eq!(gpr.r11, 0x10b);
    assert_eq!(gpr.r12, 0x10c);
    assert_eq!(gpr.r13, 0x10d);
    assert_eq!(gpr.r14, 0x10e);
    assert_eq!(gpr.r15, 0x10f);
    let mut index = 0;
    while index < 16 {
        let expected = if index == 4 { 0 } else { 0x100 + index };
        assert_eq!(gpr.get(index), expected);
        index += 1;
    }
    // the stack pointer and numbers that name no register
    let before = gpr;
    gpr.set(4, 7);
    gpr.set(16, 7);
    gpr.set(u64::MAX, 7);
    assert_eq!(gpr, before);
    assert_eq!(gpr.get(16), 0);
}

#[test]
fn exit_reasons_by_number() {
    assert_eq!(VmExitReason::from_number(0), Some(VmExitReason::ExceptionOrNmi));
    assert_eq!(VmExitReason::from_number(2), Some(VmExitReason::TripleFault));
    assert_eq!(VmExitReason::from_number(3), Some(VmExitReason::InitSignal));
    assert_eq!(VmExitReason::from_number(10), Some(VmExitReason::Cpuid));
    assert_eq!(VmExitReason::from_number(12), Some(VmExitReason::Hlt));
    assert_eq!(VmExitReason::from_number(28), Some(VmExitReason::CrAccess));
    assert_eq!(VmExitReason::from_number(48), Some(VmExitReason::EptViolation));
    assert_eq!(VmExitReason::from_number(69), Some(VmExitReason::Loadiwkey));
    for unused in [35u64, 38, 42, 70, 0xffff, 0x1_0000, u64::MAX] {
        assert_eq!(VmExitReason::from_number(unused), None);
    }
    let mut known = 0;
    let mut n = 0;
    while n < 100 {
        if let Some(reason) = VmExitReason::from_number(n) {
            assert_eq!(reason.number(), n);
            known += 1;
        }
        n += 1;
    }
    assert_eq!(known, 67);
}

#[test]
fn exit_reason_is_the_low_16_bits_of_the_field() {
    assert_eq!(VmExitReason::from_field(12), Some(VmExitReason::Hlt));
    assert_eq!(VmExitReason::from_field(0x8000_0021), Some(VmExitReason::VmentryFailInvalidGuestState));
    assert_eq!(VmExitReason::from_field(0xffff_ffff_0001_001c), Some(VmExitReason::CrAccess));
    assert_eq!(VmExitReason::from_field(0x23), None);
    assert_eq!(VmExitReason::from_field(0xffff), None);
}
