use htvmm::arch::intel::ept::EptPointer;
use htvmm::arch::intel::vmcs::{
    base_controls, guest_rflags, host_cr0, host_cr4, VmcsField, VmcsRegion, VmcsSetup, VmcsState,
    CR0_WP, CR4_CET, CR4_FSGSBASE, CR4_PAE, RFLAGS_IF, RFLAGS_RESERVED_1, RFLAGS_VM,
    VMCS_FIELD_COUNT, VMCS_PROC_BASED_VMEXEC_CTLS2_ENABLE_EPT,
    VMCS_PROC_BASED_VMEXEC_CTLS_ACTIVE_SECOND_CTLS, VMCS_PROC_BASED_VMEXEC_CTLS_HLTEXIT,
    VMCS_VMENTRY_CTLS_IA32E_MODE_GUEST, VMCS_VMEXIT_CTLS_HOST_ADDR_SPACE_SIZE,
};
use htvmm::arch::intel::vmx::{VmxCapabilities, VmxError};
use htvmm::addr::PhysAddr;
use htvmm::common::BootArgs;
use htvmm::cpu::{CpuState, DescriptorTablePointer, FirmwareContext};
use htvmm::memory::MemoryImage;

fn firmware() -> FirmwareContext {
    FirmwareContext {
        cs: 0x38,
        ds: 0x30,
        es: 0x31,
        fs: 0x32,
        gs: 0x33,
        ss: 0x34,
        ldtr: 0,
        tr: 0x40,
        gdtr: DescriptorTablePointer { limit: 0x47, base: 0x7f9e_c000 },
        idtr: DescriptorTablePointer { limit: 0xfff, base: 0x7f2d_3018 },
        rsp: 0x7fe8_9f28,
    }
}

fn cpu_state() -> CpuState {
    CpuState {
        cr0: 0x8001_0033,
        cr3: 0x7fc0_1018,
        cr4: 0x2668,
        dr7: 0x400,
        rflags: 0x0002_0246,
        cs: 0x8,
        ds: 0x10,
        es: 0x11,
        fs: 0x12,
        gs: 0x13,
        ss: 0x14,
        tr: 0x28,
        gdtr: DescriptorTablePointer { limit: 0x37, base: 0x5000 },
        idtr: DescriptorTablePointer { limit: 0xfff, base: 0x6000 },
        fs_base: 0x1111,
        gs_base: 0x2222,
        sysenter_cs: 0x3333,
        sysenter_esp: 0x4444,
        sysenter_eip: 0x5555,
        efer: 0xd01,
        pat: 0x0007_0406_0007_0406,
    }
}

fn capabilities() -> VmxCapabilities {
    VmxCapabilities {
        feature_control: 0x5,
        basic: 0x00da_0400_0000_0004,
        pinbased_ctls: 0x0000_007f_0000_0016,
        procbased_ctls: 0xfff9_fffe_0401_e172,
        procbased_ctls2: 0x0000_00ff_0000_0000,
        exit_ctls: 0x01ff_ffff_0003_6dff,
        entry_ctls: 0x0000_ffff_0000_11ff,
        cr0_fixed0: 0x8000_0021,
        cr0_fixed1: 0xffff_ffff,
        cr4_fixed0: 0x2000,
        cr4_fixed1: 0x0077_27ff,
    }
}

fn setup_inputs() -> VmcsSetup {
    VmcsSetup {
        firmware: firmware(),
        cpu: cpu_state(),
        caps: capabilities(),
        entry_ret: 0x1_0000_2468,
        host_stack: 0x1_0900_0000,
    }
}

fn memory_with_tss() -> MemoryImage {
    let mut mem = MemoryImage::new();
    mem.store_u64(0x5000 + 5 * 8, 0x5500_8b66_7788_ffff);
    mem.store_u64(0x5000 + 6 * 8, 0x0000_0000_1122_3344);
    mem
}

fn eptp_value(raw_addr: u64) -> EptPointer {
    let mut eptp = EptPointer::new();
    eptp.set_addr(PhysAddr::new(raw_addr));
    eptp
}

fn fresh_region() -> VmcsRegion {
    VmcsRegion::new(0x1_0800_1000, 0x00da_0400_0000_0004).unwrap()
}

#[test]
fn field_encodings() {
    assert_eq!(VmcsField::GuestEsSelector.encoding(), 0x0800);
    assert_eq!(VmcsField::HostTrSelector.encoding(), 0x0c0c);
    assert_eq!(VmcsField::EptPointer.encoding(), 0x201a);
    assert_eq!(VmcsField::VmcsLinkPointer.encoding(), 0x2800);
    assert_eq!(VmcsField::PinBasedVmExecControls.encoding(), 0x4000);
    assert_eq!(VmcsField::ProcBasedVmExecControls2.encoding(), 0x401e);
    assert_eq!(VmcsField::VmInstructionError.encoding(), 0x4400);
    assert_eq!(VmcsField::VmExitReason.encoding(), 0x4402);
    assert_eq!(VmcsField::VmExitInstructionLen.encoding(), 0x440c);
    assert_eq!(VmcsField::ExitQualification.encoding(), 0x6400);
    assert_eq!(VmcsField::GuestCr3.encoding(), 0x6802);
    assert_eq!(VmcsField::GuestRsp.encoding(), 0x681c);
    assert_eq!(VmcsField::GuestRip.encoding(), 0x681e);
    assert_eq!(VmcsField::GuestRflags.encoding(), 0x6820);
    assert_eq!(VmcsField::HostCr0.encoding(), 0x6c00);
    assert_eq!(VmcsField::HostRsp.encoding(), 0x6c14);
    assert_eq!(VmcsField::HostRip.encoding(), 0x6c16);
}

#[test]
fn field_is_found_again_from_its_encoding() {
    assert_eq!(VMCS_FIELD_COUNT, 137);
    let mut seen = Vec::new();
    let mut i = 0;
    while i < VMCS_FIELD_COUNT {
        let field = VmcsField::from_index(i).unwrap();
        assert_eq!(field.index(), i);
        assert_eq!(VmcsField::from_encoding(field.encoding()), Some(field));
        assert!(!seen.contains(&field.encoding()));
        seen.push(field.encoding());
        i += 1;
    }
    assert_eq!(VmcsField::from_index(VMCS_FIELD_COUNT), None);
    assert_eq!(VmcsField::from_encoding(0x0801), None);
    assert_eq!(VmcsField::from_encoding(0xffff_ffff), None);
    assert_eq!(VmcsField::from_encoding(0x681e), Some(VmcsField::GuestRip));
}

#[test]
fn region_starts_with_the_revision_identifier() {
    let region = VmcsRegion::new(0x1_0800_1000, 0xffff_ffff_8765_4321).unwrap();
    assert_eq!(region.revision_id(), 0x0765_4321);
    let image = region.page_image();
    assert_eq!(image.len(), 4096);
    assert_eq!(&image[0..4], &[0x21, 0x43, 0x65, 0x07]);
    assert_eq!(u32::from_le_bytes([image[0], image[1], image[2], image[3]]), 0x0765_4321);
    assert!(image[4..].iter().all(|b| *b == 0));
}

#[test]
fn region_is_page_aligned() {
    assert!(VmcsRegion::new(0x1_0800_1008, 4).is_none());
    assert!(VmcsRegion::new(0xfff, 4).is_none());
    let region = fresh_region();
    assert_eq!(region.as_mut_ptr(), 0x1_0800_1000);
    assert_eq!(region.as_mut_ptr() % 4096, 0);
    let mut args = BootArgs::new();
    args.vmm_phys_offset = 0x2000_0000 - 0x1_0000_0000;
    assert_eq!(region.paddr(&args).map(|p| p.as_u64()), Some(0x2800_1000));
    args.vmm_phys_offset = -0x2_0000_0000;
    assert!(region.paddr(&args).is_none());
}

#[test]
fn region_follows_the_launch_protocol() {
    let mut region = fresh_region();
    assert_eq!(region.state(), VmcsState::Uninitialized);
    // a failed VMCLEAR changes nothing
    assert_eq!(region.clear(0x1), Err(VmxError::InvalidPointer));
    assert_eq!(region.state(), VmcsState::Uninitialized);
    assert_eq!(region.clear(0x2), Ok(()));
    assert_eq!(region.state(), VmcsState::Cleared);
    assert_eq!(region.load(0x40), Err(VmxError::VmInstructionError));
    assert_eq!(region.state(), VmcsState::Cleared);
    assert_eq!(region.load(0x2), Ok(()));
    assert_eq!(region.state(), VmcsState::Current);
    assert_eq!(region.launch(0x41), Err(VmxError::InvalidPointer));
    assert_eq!(region.state(), VmcsState::Current);
    assert_eq!(region.launch(0x202), Ok(()));
    assert_eq!(region.state(), VmcsState::Launched);
    // an explicit VMCLEAR takes the region back
    assert_eq!(region.clear(0), Ok(()));
    assert_eq!(region.state(), VmcsState::Cleared);
    assert_eq!(region.revision_id(), 4);
    assert_eq!(region.as_mut_ptr(), 0x1_0800_1000);
}

#[test]
fn image_keeps_what_is_written() {
    let mut region = fresh_region();
    assert_eq!(region.read(VmcsField::GuestRip), 0);
    assert!(region.take_dirty().is_empty());
    region.write(VmcsField::GuestRip, 0x1000);
    region.write(VmcsField::GuestRsp, 0x2000);
    region.write(VmcsField::GuestRip, 0x3000);
    assert_eq!(region.read(VmcsField::GuestRip), 0x3000);
    assert_eq!(region.read(VmcsField::GuestRsp), 0x2000);
    assert_eq!(region.read(VmcsField::GuestCr3), 0);
    let mut writes = region.take_dirty();
    writes.sort_by_key(|w| w.0.encoding());
    assert_eq!(writes, vec![(VmcsField::GuestRsp, 0x2000), (VmcsField::GuestRip, 0x3000)]);
    // handed out once
    assert!(region.take_dirty().is_empty());
    assert_eq!(region.read(VmcsField::GuestRip), 0x3000);
}

#[test]
fn refreshed_fields_are_not_pending() {
    let mut region = fresh_region();
    region.refresh(VmcsField::VmExitReason, 28);
    region.write(VmcsField::GuestCr3, 0x5000);
    region.write(VmcsField::GuestRip, 0x1000);
    region.refresh(VmcsField::GuestRip, 0x1003);
    assert_eq!(region.read(VmcsField::VmExitReason), 28);
    assert_eq!(region.read(VmcsField::GuestRip), 0x1003);
    assert_eq!(region.take_dirty(), vec![(VmcsField::GuestCr3, 0x5000)]);
    assert_eq!(region.state(), VmcsState::Uninitialized);
}

#[test]
fn helper_values() {
    assert_eq!(VMCS_PROC_BASED_VMEXEC_CTLS_HLTEXIT, 1 << 7);
    assert_eq!(VMCS_PROC_BASED_VMEXEC_CTLS_ACTIVE_SECOND_CTLS, 1 << 31);
    assert_eq!(VMCS_PROC_BASED_VMEXEC_CTLS2_ENABLE_EPT, 1 << 1);
    assert_eq!(VMCS_VMEXIT_CTLS_HOST_ADDR_SPACE_SIZE, 1 << 9);
    assert_eq!(VMCS_VMENTRY_CTLS_IA32E_MODE_GUEST, 1 << 9);
    assert_eq!(CR4_PAE, 1 << 5);
    assert_eq!(CR4_FSGSBASE, 1 << 16);
    assert_eq!(CR4_CET, 1 << 23);
    assert_eq!(CR0_WP, 1 << 16);
    assert_eq!(RFLAGS_RESERVED_1, 1 << 1);
    assert_eq!(RFLAGS_IF, 1 << 9);
    assert_eq!(RFLAGS_VM, 1 << 17);
}

#[test]
fn base_controls_are_the_must_be_one_bits() {
    assert_eq!(base_controls(0x0000_007f_0000_0016), 0x16);
    assert_eq!(base_controls(0xfff9_fffe_0401_e172), 0x0401_e172);
    assert_eq!(base_controls(0), 0);
    assert_eq!(base_controls(u64::MAX), 0xffff_ffff);
    // a bit that must be one but may not be is left out
    assert_eq!(base_controls(0x0000_0006_0000_0007), 0x6);
}

#[test]
fn host_control_registers() {
    assert_eq!(host_cr4(0), 0x1_0020);
    assert_eq!(host_cr4(0x2668), 0x1_2668);
    assert_eq!(host_cr0(0x8000_0031, 0x1_2668), 0x8000_0031);
    assert_eq!(host_cr0(0x8000_0031, 0x81_2668), 0x8001_0031);
    assert_eq!(host_cr0(0x8001_0031, 0x81_2668), 0x8001_0031);
    assert_eq!(host_cr0(0, 1 << 23), 1 << 16);
    assert_eq!(host_cr0(0, !(1u64 << 23)), 0);
}

#[test]
fn guest_flags() {
    assert_eq!(guest_rflags(0x0002_0246), 0x46);
    assert_eq!(guest_rflags(0), 0x2);
    assert_eq!(guest_rflags(u64::MAX), u64::MAX & !(1 << 17) & !(1 << 9));
    assert_eq!(guest_rflags(0x202), 0x2);
}

#[test]
fn setup_guest_state() {
    let mut region = fresh_region();
    region.setup_guest_state_area(&firmware(), &cpu_state(), 0x1_0000_2468);
    let expected = [
        (VmcsField::GuestCsSelector, 0x38),
        (VmcsField::GuestDsSelector, 0x30),
        (VmcsField::GuestEsSelector, 0x31),
        (VmcsField::GuestFsSelector, 0x32),
        (VmcsField::GuestGsSelector, 0x33),
        (VmcsField::GuestSsSelector, 0x34),
        (VmcsField::GuestLdtrSelector, 0),
        (VmcsField::GuestTrSelector, 0x40),
        (VmcsField::GuestCsLimit, 0xffff_ffff),
        (VmcsField::GuestDsLimit, 0xffff_ffff),
        (VmcsField::GuestEsLimit, 0xffff_ffff),
        (VmcsField::GuestFsLimit, 0xffff_ffff),
        (VmcsField::GuestGsLimit, 0xffff_ffff),
        (VmcsField::GuestSsLimit, 0xffff_ffff),
        (VmcsField::GuestLdtrLimit, 0xffff),
        (VmcsField::GuestTrLimit, 0xffff),
        (VmcsField::GuestGdtrLimit, 0x47),
        (VmcsField::GuestIdtrLimit, 0xfff),
        (VmcsField::GuestCsAccessRights, 0xa09b),
        (VmcsField::GuestDsAccessRights, 0xc093),
        (VmcsField::GuestEsAccessRights, 0xc093),
        (VmcsField::GuestFsAccessRights, 0xc093),
        (VmcsField::GuestGsAccessRights, 0xc093),
        (VmcsField::GuestSsAccessRights, 0xc093),
        (VmcsField::GuestLdtrAccessRights, 0x0082),
        (VmcsField::GuestTrAccessRights, 0x008b),
        (VmcsField::GuestInterruptibilityState, 0),
        (VmcsField::GuestActivityState, 0),
        (VmcsField::GuestPendingDbgExceptions, 0),
        (VmcsField::GuestIa32SysenterCs, 0x3333),
        (VmcsField::VmcsLinkPointer, 0xffff_ffff_ffff_ffff),
        (VmcsField::GuestIa32Debugctl, 0),
        (VmcsField::GuestIa32Efer, 0xd01),
        (VmcsField::GuestCr0, 0x8001_0033),
        (VmcsField::GuestCr3, 0x7fc0_1018),
        (VmcsField::GuestCr4, 0x2668),
        (VmcsField::GuestCsBase, 0),
        (VmcsField::GuestDsBase, 0),
        (VmcsField::GuestEsBase, 0),
        (VmcsField::GuestFsBase, 0),
        (VmcsField::GuestGsBase, 0),
        (VmcsField::GuestSsBase, 0),
        (VmcsField::GuestLdtrBase, 0),
        (VmcsField::GuestTrBase, 0),
        (VmcsField::GuestGdtrBase, 0x7f9e_c000),
        (VmcsField::GuestIdtrBase, 0x7f2d_3018),
        (VmcsField::GuestDr7, 0x400),
        (VmcsField::GuestRsp, 0x7fe8_9f28),
        (VmcsField::GuestRip, 0x1_0000_2468),
        (VmcsField::GuestRflags, 0x46),
        (VmcsField::GuestSysenterEsp, 0x4444),
        (VmcsField::GuestSysenterEip, 0x5555),
    ];
    let mut writes = region.take_dirty();
    assert_eq!(writes.len(), expected.len());
    for (field, value) in expected {
        assert_eq!(region.read(field), value, "{:?}", field);
        let at = writes.iter().position(|w| w.0 == field).unwrap();
        assert_eq!(writes.remove(at), (field, value));
    }
    assert!(writes.is_empty());
}

#[test]
fn setup_host_state() {
    let mut region = fresh_region();
    region.write(VmcsField::GuestRip, 0x77);
    region.setup_host_state_area(0x1_0000_4000, &cpu_state(), 0x1122_3344_5566_7788, 0x1_0900_0ff0);
    let expected = [
        (VmcsField::HostCsSelector, 0x8),
        (VmcsField::HostDsSelector, 0x10),
        (VmcsField::HostEsSelector, 0x11),
        (VmcsField::HostFsSelector, 0x12),
        (VmcsField::HostGsSelector, 0x13),
        (VmcsField::HostSsSelector, 0x14),
        (VmcsField::HostTrSelector, 0x28),
        (VmcsField::HostIa32SysenterCs, 0x3333),
        (VmcsField::HostCr0, 0x8001_0033),
        (VmcsField::HostCr3, 0x7fc0_1018),
        (VmcsField::HostCr4, 0x1_2668),
        (VmcsField::HostFsBase, 0x1111),
        (VmcsField::HostGsBase, 0x2222),
        (VmcsField::HostTrBase, 0x1122_3344_5566_7788),
        (VmcsField::HostGdtrBase, 0x5000),
        (VmcsField::HostIdtrBase, 0x6000),
        (VmcsField::HostIa32SysenterEsp, 0x4444),
        (VmcsField::HostIa32SysenterEip, 0x5555),
        (VmcsField::HostRsp, 0x1_0900_0ff0),
        (VmcsField::HostRip, 0x1_0000_4000),
        (VmcsField::HostIa32Efer, 0xd01),
        (VmcsField::HostIa32Pat, 0x0007_0406_0007_0406),
    ];
    for (field, value) in expected {
        assert_eq!(region.read(field), value, "{:?}", field);
    }
    assert_eq!(region.read(VmcsField::GuestRip), 0x77);
    assert_eq!(region.take_dirty().len(), expected.len() + 1);
}

#[test]
fn host_state_is_consistent() {
    let mut cpu = cpu_state();
    cpu.cr4 = 0x80_2000;
    cpu.cr0 = 0x8000_0031;
    let mut region = fresh_region();
    region.setup_host_state_area(0, &cpu, 0, 0);
    let cr4 = region.read(VmcsField::HostCr4);
    let cr0 = region.read(VmcsField::HostCr0);
    assert_eq!(cr4, 0x81_2020);
    assert_eq!(cr0, 0x8001_0031);
    assert_eq!((cr4 >> 5) & 1, 1);
    assert_eq!((cr0 >> 16) & 1, 1);

    cpu.cr4 = 0;
    cpu.cr0 = 0x8000_0031;
    region.setup_host_state_area(0, &cpu, 0, 0);
    assert_eq!(region.read(VmcsField::HostCr4), 0x1_0020);
    assert_eq!(region.read(VmcsField::HostCr0), 0x8000_0031);

    region.setup_guest_state_area(&firmware(), &cpu, 0);
    assert_eq!((region.read(VmcsField::GuestRflags) >> 17) & 1, 0);
    assert_eq!((region.read(VmcsField::GuestRflags) >> 9) & 1, 0);
    assert_eq!((region.read(VmcsField::GuestRflags) >> 1) & 1, 1);
}

#[test]
fn setup_control_fields() {
    let mut region = fresh_region();
    let caps = capabilities();
    region.setup_vm_control_fields(eptp_value(0x2800_0000), &caps);
    let expected = [
        (VmcsField::PinBasedVmExecControls, 0x16),
        (VmcsField::ProcBasedVmExecControls, 0x8401_e1f2),
        (VmcsField::ProcBasedVmExecControls2, 0x2),
        (VmcsField::ExceptionBitmap, 0),
        (VmcsField::PageFaultErrorCodeMask, 0),
        (VmcsField::PageFaultErrorCodeMatch, 0),
        (VmcsField::Cr3TargetCount, 0),
        (VmcsField::VmExitControls, 0x0003_6fff),
        (VmcsField::VmExitMsrStoreCount, 0),
        (VmcsField::VmExitMsrLoadCount, 0),
        (VmcsField::VmEntryControls, 0x13ff),
        (VmcsField::VmEntryMsrLoadCount, 0),
        (VmcsField::VmEntryIntrInfoField, 0),
        (VmcsField::VmEntryExceptionErrorCode, 0),
        (VmcsField::VmEntryInstructionLen, 0),
        (VmcsField::TprThreshold, 0),
        (VmcsField::VmExitMsrLoadAddr, 0),
        (VmcsField::VmExitMsrStoreAddr, 0),
        (VmcsField::VmEntryMsrLoadAddr, 0),
        (VmcsField::TscOffset, 0),
        (VmcsField::EptPointer, 0x2800_0000),
        (VmcsField::Cr0GuestHostMask, 0),
        (VmcsField::Cr4GuestHostMask, 0),
        (VmcsField::Cr0ReadShadow, 0),
        (VmcsField::Cr4ReadShadow, 0),
    ];
    for (field, value) in expected {
        assert_eq!(region.read(field), value, "{:?}", field);
    }
    assert_eq!(region.take_dirty().len(), expected.len());
}

#[test]
fn control_fields_are_legal() {
    let mut region = fresh_region();
    let caps = capabilities();
    region.setup_vm_control_fields(eptp_value(0), &caps);
    for (field, msr) in [
        (VmcsField::PinBasedVmExecControls, caps.pinbased_ctls),
        (VmcsField::ProcBasedVmExecControls, caps.procbased_ctls),
        (VmcsField::ProcBasedVmExecControls2, caps.procbased_ctls2),
        (VmcsField::VmExitControls, caps.exit_ctls),
        (VmcsField::VmEntryControls, caps.entry_ctls),
    ] {
        let value = region.read(field);
        let low = msr & 0xffff_ffff;
        let high = msr >> 32;
        assert_eq!(value & low, low, "{:?}", field);
        assert_eq!(value & !high, 0, "{:?}", field);
    }
}

#[test]
fn control_fields_where_the_processor_does_not_allow_them() {
    // a processor without secondary controls: bit 31 may not be one
    let mut caps = capabilities();
    caps.procbased_ctls = 0x7ff9_fffe_0401_e172;
    let mut region = fresh_region();
    region.setup_vm_control_fields(eptp_value(0), &caps);
    let value = region.read(VmcsField::ProcBasedVmExecControls);
    assert_eq!(value, 0x8401_e1f2);
    assert_ne!(value & !(caps.procbased_ctls >> 32), 0);
}

#[test]
fn setup_fills_all_three_areas() {
    let mut region = fresh_region();
    let mem = memory_with_tss();
    let inputs = setup_inputs();
    assert!(region.setup(eptp_value(0x2800_0000), 0x1_0000_4000, &inputs, &mem));
    assert_eq!(region.read(VmcsField::GuestRip), 0x1_0000_2468);
    assert_eq!(region.read(VmcsField::GuestRsp), 0x7fe8_9f28);
    assert_eq!(region.read(VmcsField::HostRip), 0x1_0000_4000);
    assert_eq!(region.read(VmcsField::HostRsp), 0x1_0900_0000 + 4096 - 16);
    assert_eq!(region.read(VmcsField::HostTrBase), 0x1122_3344_5566_7788);
    assert_eq!(region.read(VmcsField::EptPointer), 0x2800_0000);
    assert_eq!(region.read(VmcsField::VmcsLinkPointer), u64::MAX);
    assert_eq!(region.read(VmcsField::VmExitReason), 0);
    let writes = region.take_dirty();
    assert_eq!(writes.len(), 52 + 22 + 25);
    assert!(writes.iter().all(|w| w.1 == region.read(w.0)));
    assert_eq!(region.state(), VmcsState::Uninitialized);
}

#[test]
fn setup_needs_usable_inputs() {
    let mem = memory_with_tss();
    // the task register selects a descriptor outside the table
    let mut inputs = setup_inputs();
    inputs.cpu.tr = 0x1b8;
    let mut region = fresh_region();
    region.write(VmcsField::GuestRip, 5);
    assert!(!region.setup(eptp_value(0), 0, &inputs, &mem));
    assert_eq!(region.take_dirty(), vec![(VmcsField::GuestRip, 5)]);
    // the host stack reaches past the last address
    let mut inputs = setup_inputs();
    inputs.host_stack = u64::MAX - 4079;
    assert!(!region.setup(eptp_value(0), 0, &inputs, &mem));
    assert!(region.take_dirty().is_empty());
    inputs.host_stack = u64::MAX - 4080;
    assert!(region.setup(eptp_value(0), 0, &inputs, &mem));
    assert_eq!(region.read(VmcsField::HostRsp), u64::MAX);
}
