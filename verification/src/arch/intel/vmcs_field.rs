//! Field encodings of the virtual-machine control structure.

use vstd::prelude::*;

verus! {

/// A field of the VMCS.  Each stands for one 32-bit encoding, the operand of
/// `VMREAD` and `VMWRITE`.
#[derive(Clone, Copy, Debug, PartialEq, Eq, Structural)]
pub enum VmcsField {
    GuestEsSelector,
    GuestCsSelector,
    GuestSsSelector,
    GuestDsSelector,
    GuestFsSelector,
    GuestGsSelector,
    GuestLdtrSelector,
    GuestTrSelector,
    HostEsSelector,
    HostCsSelector,
    HostSsSelector,
    HostDsSelector,
    HostFsSelector,
    HostGsSelector,
    HostTrSelector,
    IoBitmapA,
    IoBitmapAHigh,
    IoBitmapB,
    IoBitmapBHigh,
    MsrBitmap,
    MsrBitmapHigh,
    VmExitMsrStoreAddr,
    VmExitMsrStoreAddrHigh,
    VmExitMsrLoadAddr,
    VmExitMsrLoadAddrHigh,
    VmEntryMsrLoadAddr,
    VmEntryMsrLoadAddrHigh,
    ExecVmcsPointer,
    TscOffset,
    TscOffsetHigh,
    VirtualApicPageAddr,
    VirtualApicPageAddrHigh,
    VmfuncControls,
    VmfuncControlsHigh,
    EptPointer,
    EptPointerHigh,
    EptpList,
    EptpListHigh,
    GuestPhysicalAddress,
    GuestPhysicalAddressHigh,
    VmcsLinkPointer,
    VmcsLinkPointerHigh,
    GuestIa32Debugctl,
    GuestIa32DebugctlHigh,
    GuestIa32Efer,
    HostIa32Pat,
    HostIa32Efer,
    HostIa32EferHigh,
    PinBasedVmExecControls,
    ProcBasedVmExecControls,
    ExceptionBitmap,
    PageFaultErrorCodeMask,
    PageFaultErrorCodeMatch,
    Cr3TargetCount,
    VmExitControls,
    VmExitMsrStoreCount,
    VmExitMsrLoadCount,
    VmEntryControls,
    VmEntryMsrLoadCount,
    VmEntryIntrInfoField,
    VmEntryExceptionErrorCode,
    VmEntryInstructionLen,
    TprThreshold,
    ProcBasedVmExecControls2,
    VmInstructionError,
    VmExitReason,
    VmExitIntrInfo,
    VmExitIntrErrorCode,
    IdtVectoringInfoField,
    IdtVectoringErrorCode,
    VmExitInstructionLen,
    VmxInstructionInfo,
    GuestEsLimit,
    GuestCsLimit,
    GuestSsLimit,
    GuestDsLimit,
    GuestFsLimit,
    GuestGsLimit,
    GuestLdtrLimit,
    GuestTrLimit,
    GuestGdtrLimit,
    GuestIdtrLimit,
    GuestEsAccessRights,
    GuestCsAccessRights,
    GuestSsAccessRights,
    GuestDsAccessRights,
    GuestFsAccessRights,
    GuestGsAccessRights,
    GuestLdtrAccessRights,
    GuestTrAccessRights,
    GuestInterruptibilityState,
    GuestActivityState,
    GuestSmBase,
    GuestIa32SysenterCs,
    HostIa32SysenterCs,
    Cr0GuestHostMask,
    Cr4GuestHostMask,
    Cr0ReadShadow,
    Cr4ReadShadow,
    Cr3TargetValue0,
    Cr3TargetValue1,
    Cr3TargetValue2,
    Cr3TargetValue3,
    ExitQualification,
    GuestLinearAddress,
    GuestCr0,
    GuestCr3,
    GuestCr4,
    GuestEsBase,
    GuestCsBase,
    GuestSsBase,
    GuestDsBase,
    GuestFsBase,
    GuestGsBase,
    GuestLdtrBase,
    GuestTrBase,
    GuestGdtrBase,
    GuestIdtrBase,
    GuestDr7,
    GuestRsp,
    GuestRip,
    GuestRflags,
    GuestPendingDbgExceptions,
    GuestSysenterEsp,
    GuestSysenterEip,
    HostCr0,
    HostCr3,
    HostCr4,
    HostFsBase,
    HostGsBase,
    HostTrBase,
    HostGdtrBase,
    HostIdtrBase,
    HostIa32SysenterEsp,
    HostIa32SysenterEip,
    HostRsp,
    HostRip,
}

/// Number of fields.
pub const VMCS_FIELD_COUNT: usize = 137;

impl VmcsField {
    /// The 32-bit encoding of the field.
    pub open spec fn spec_encoding(self) -> u32 {
        match self {
            VmcsField::GuestEsSelector => 0x00000800,
            VmcsField::GuestCsSelector => 0x00000802,
            VmcsField::GuestSsSelector => 0x00000804,
            VmcsField::GuestDsSelector => 0x00000806,
            VmcsField::GuestFsSelector => 0x00000808,
            VmcsField::GuestGsSelector => 0x0000080a,
            VmcsField::GuestLdtrSelector => 0x0000080c,
            VmcsField::GuestTrSelector => 0x0000080e,
            VmcsField::HostEsSelector => 0x00000c00,
            VmcsField::HostCsSelector => 0x00000c02,
            VmcsField::HostSsSelector => 0x00000c04,
            VmcsField::HostDsSelector => 0x00000c06,
            VmcsField::HostFsSelector => 0x00000c08,
            VmcsField::HostGsSelector => 0x00000c0a,
            VmcsField::HostTrSelector => 0x00000c0c,
            VmcsField::IoBitmapA => 0x00002000,
            VmcsField::IoBitmapAHigh => 0x00002001,
            VmcsField::IoBitmapB => 0x00002002,
            VmcsField::IoBitmapBHigh => 0x00002003,
            VmcsField::MsrBitmap => 0x00002004,
            VmcsField::MsrBitmapHigh => 0x00002005,
            VmcsField::VmExitMsrStoreAddr => 0x00002006,
            VmcsField::VmExitMsrStoreAddrHigh => 0x00002007,
            VmcsField::VmExitMsrLoadAddr => 0x00002008,
            VmcsField::VmExitMsrLoadAddrHigh => 0x00002009,
            VmcsField::VmEntryMsrLoadAddr => 0x0000200a,
            VmcsField::VmEntryMsrLoadAddrHigh => 0x0000200b,
            VmcsField::ExecVmcsPointer => 0x0000200c,
            VmcsField::TscOffset => 0x00002010,
            VmcsField::TscOffsetHigh => 0x00002011,
            VmcsField::VirtualApicPageAddr => 0x00002012,
            VmcsField::VirtualApicPageAddrHigh => 0x00002013,
            VmcsField::VmfuncControls => 0x00002018,
            VmcsField::VmfuncControlsHigh => 0x00002019,
            VmcsField::EptPointer => 0x0000201a,
            VmcsField::EptPointerHigh => 0x0000201b,
            VmcsField::EptpList => 0x00002024,
            VmcsField::EptpListHigh => 0x00002025,
            VmcsField::GuestPhysicalAddress => 0x00002400,
            VmcsField::GuestPhysicalAddressHigh => 0x00002401,
            VmcsField::VmcsLinkPointer => 0x00002800,
            VmcsField::VmcsLinkPointerHigh => 0x00002801,
            VmcsField::GuestIa32Debugctl => 0x00002802,
            VmcsField::GuestIa32DebugctlHigh => 0x00002803,
            VmcsField::GuestIa32Efer => 0x00002806,
            VmcsField::HostIa32Pat => 0x00002c00,
            VmcsField::HostIa32Efer => 0x00002c02,
            VmcsField::HostIa32EferHigh => 0x00002c03,
            VmcsField::PinBasedVmExecControls => 0x00004000,
            VmcsField::ProcBasedVmExecControls => 0x00004002,
            VmcsField::ExceptionBitmap => 0x00004004,
            VmcsField::PageFaultErrorCodeMask => 0x00004006,
            VmcsField::PageFaultErrorCodeMatch => 0x00004008,
            VmcsField::Cr3TargetCount => 0x0000400a,
            VmcsField::VmExitControls => 0x0000400c,
            VmcsField::VmExitMsrStoreCount => 0x0000400e,
            VmcsField::VmExitMsrLoadCount => 0x00004010,
            VmcsField::VmEntryControls => 0x00004012,
            VmcsField::VmEntryMsrLoadCount => 0x00004014,
            VmcsField::VmEntryIntrInfoField => 0x00004016,
            VmcsField::VmEntryExceptionErrorCode => 0x00004018,
            VmcsField::VmEntryInstructionLen => 0x0000401a,
            VmcsField::TprThreshold => 0x0000401c,
            VmcsField::ProcBasedVmExecControls2 => 0x0000401e,
            VmcsField::VmInstructionError => 0x00004400,
            VmcsField::VmExitReason => 0x00004402,
            VmcsField::VmExitIntrInfo => 0x00004404,
            VmcsField::VmExitIntrErrorCode => 0x00004406,
            VmcsField::IdtVectoringInfoField => 0x00004408,
            VmcsField::IdtVectoringErrorCode => 0x0000440a,
            VmcsField::VmExitInstructionLen => 0x0000440c,
            VmcsField::VmxInstructionInfo => 0x0000440e,
            VmcsField::GuestEsLimit => 0x00004800,
            VmcsField::GuestCsLimit => 0x00004802,
            VmcsField::GuestSsLimit => 0x00004804,
            VmcsField::GuestDsLimit => 0x00004806,
            VmcsField::GuestFsLimit => 0x00004808,
            VmcsField::GuestGsLimit => 0x0000480a,
            VmcsField::GuestLdtrLimit => 0x0000480c,
            VmcsField::GuestTrLimit => 0x0000480e,
            VmcsField::GuestGdtrLimit => 0x00004810,
            VmcsField::GuestIdtrLimit => 0x00004812,
            VmcsField::GuestEsAccessRights => 0x00004814,
            VmcsField::GuestCsAccessRights => 0x00004816,
            VmcsField::GuestSsAccessRights => 0x00004818,
            VmcsField::GuestDsAccessRights => 0x0000481a,
            VmcsField::GuestFsAccessRights => 0x0000481c,
            VmcsField::GuestGsAccessRights => 0x0000481e,
            VmcsField::GuestLdtrAccessRights => 0x00004820,
            VmcsField::GuestTrAccessRights => 0x00004822,
            VmcsField::GuestInterruptibilityState => 0x00004824,
            VmcsField::GuestActivityState => 0x00004826,
            VmcsField::GuestSmBase => 0x00004828,
            VmcsField::GuestIa32SysenterCs => 0x0000482a,
            VmcsField::HostIa32SysenterCs => 0x00004c00,
            VmcsField::Cr0GuestHostMask => 0x00006000,
            VmcsField::Cr4GuestHostMask => 0x00006002,
            VmcsField::Cr0ReadShadow => 0x00006004,
            VmcsField::Cr4ReadShadow => 0x00006006,
            VmcsField::Cr3TargetValue0 => 0x00006008,
            VmcsField::Cr3TargetValue1 => 0x0000600a,
            VmcsField::Cr3TargetValue2 => 0x0000600c,
            VmcsField::Cr3TargetValue3 => 0x0000600e,
            VmcsField::ExitQualification => 0x00006400,
            VmcsField::GuestLinearAddress => 0x0000640a,
            VmcsField::GuestCr0 => 0x00006800,
            VmcsField::GuestCr3 => 0x00006802,
            VmcsField::GuestCr4 => 0x00006804,
            VmcsField::GuestEsBase => 0x00006806,
            VmcsField::GuestCsBase => 0x00006808,
            VmcsField::GuestSsBase => 0x0000680a,
            VmcsField::GuestDsBase => 0x0000680c,
            VmcsField::GuestFsBase => 0x0000680e,
            VmcsField::GuestGsBase => 0x00006810,
            VmcsField::GuestLdtrBase => 0x00006812,
            VmcsField::GuestTrBase => 0x00006814,
            VmcsField::GuestGdtrBase => 0x00006816,
            VmcsField::GuestIdtrBase => 0x00006818,
            VmcsField::GuestDr7 => 0x0000681a,
            VmcsField::GuestRsp => 0x0000681c,
            VmcsField::GuestRip => 0x0000681e,
            VmcsField::GuestRflags => 0x00006820,
            VmcsField::GuestPendingDbgExceptions => 0x00006822,
            VmcsField::GuestSysenterEsp => 0x00006824,
            VmcsField::GuestSysenterEip => 0x00006826,
            VmcsField::HostCr0 => 0x00006c00,
            VmcsField::HostCr3 => 0x00006c02,
            VmcsField::HostCr4 => 0x00006c04,
            VmcsField::HostFsBase => 0x00006c06,
            VmcsField::HostGsBase => 0x00006c08,
            VmcsField::HostTrBase => 0x00006c0a,
            VmcsField::HostGdtrBase => 0x00006c0c,
            VmcsField::HostIdtrBase => 0x00006c0e,
            VmcsField::HostIa32SysenterEsp => 0x00006c10,
            VmcsField::HostIa32SysenterEip => 0x00006c12,
            VmcsField::HostRsp => 0x00006c14,
            VmcsField::HostRip => 0x00006c16,
        }
    }

    /// The 32-bit encoding of the field.
    #[verifier::when_used_as_spec(spec_encoding)]
    pub fn encoding(self) -> (e: u32)
        ensures
            e == self.spec_encoding(),
    {
        match self {
            VmcsField::GuestEsSelector => 0x00000800,
            VmcsField::GuestCsSelector => 0x00000802,
            VmcsField::GuestSsSelector => 0x00000804,
            VmcsField::GuestDsSelector => 0x00000806,
            VmcsField::GuestFsSelector => 0x00000808,
            VmcsField::GuestGsSelector => 0x0000080a,
            VmcsField::GuestLdtrSelector => 0x0000080c,
            VmcsField::GuestTrSelector => 0x0000080e,
            VmcsField::HostEsSelector => 0x00000c00,
            VmcsField::HostCsSelector => 0x00000c02,
            VmcsField::HostSsSelector => 0x00000c04,
            VmcsField::HostDsSelector => 0x00000c06,
            VmcsField::HostFsSelector => 0x00000c08,
            VmcsField::HostGsSelector => 0x00000c0a,
            VmcsField::HostTrSelector => 0x00000c0c,
            VmcsField::IoBitmapA => 0x00002000,
            VmcsField::IoBitmapAHigh => 0x00002001,
            VmcsField::IoBitmapB => 0x00002002,
            VmcsField::IoBitmapBHigh => 0x00002003,
            VmcsField::MsrBitmap => 0x00002004,
            VmcsField::MsrBitmapHigh => 0x00002005,
            VmcsField::VmExitMsrStoreAddr => 0x00002006,
            VmcsField::VmExitMsrStoreAddrHigh => 0x00002007,
            VmcsField::VmExitMsrLoadAddr => 0x00002008,
            VmcsField::VmExitMsrLoadAddrHigh => 0x00002009,
            VmcsField::VmEntryMsrLoadAddr => 0x0000200a,
            VmcsField::VmEntryMsrLoadAddrHigh => 0x0000200b,
            VmcsField::ExecVmcsPointer => 0x0000200c,
            VmcsField::TscOffset => 0x00002010,
            VmcsField::TscOffsetHigh => 0x00002011,
            VmcsField::VirtualApicPageAddr => 0x00002012,
            VmcsField::VirtualApicPageAddrHigh => 0x00002013,
            VmcsField::VmfuncControls => 0x00002018,
            VmcsField::VmfuncControlsHigh => 0x00002019,
            VmcsField::EptPointer => 0x0000201a,
            VmcsField::EptPointerHigh => 0x0000201b,
            VmcsField::EptpList => 0x00002024,
            VmcsField::EptpListHigh => 0x00002025,
            VmcsField::GuestPhysicalAddress => 0x00002400,
            VmcsField::GuestPhysicalAddressHigh => 0x00002401,
            VmcsField::VmcsLinkPointer => 0x00002800,
            VmcsField::VmcsLinkPointerHigh => 0x00002801,
            VmcsField::GuestIa32Debugctl => 0x00002802,
            VmcsField::GuestIa32DebugctlHigh => 0x00002803,
            VmcsField::GuestIa32Efer => 0x00002806,
            VmcsField::HostIa32Pat => 0x00002c00,
            VmcsField::HostIa32Efer => 0x00002c02,
            VmcsField::HostIa32EferHigh => 0x00002c03,
            VmcsField::PinBasedVmExecControls => 0x00004000,
            VmcsField::ProcBasedVmExecControls => 0x00004002,
            VmcsField::ExceptionBitmap => 0x00004004,
            VmcsField::PageFaultErrorCodeMask => 0x00004006,
            VmcsField::PageFaultErrorCodeMatch => 0x00004008,
            VmcsField::Cr3TargetCount => 0x0000400a,
            VmcsField::VmExitControls => 0x0000400c,
            VmcsField::VmExitMsrStoreCount => 0x0000400e,
            VmcsField::VmExitMsrLoadCount => 0x00004010,
            VmcsField::VmEntryControls => 0x00004012,
            VmcsField::VmEntryMsrLoadCount => 0x00004014,
            VmcsField::VmEntryIntrInfoField => 0x00004016,
            VmcsField::VmEntryExceptionErrorCode => 0x00004018,
            VmcsField::VmEntryInstructionLen => 0x0000401a,
            VmcsField::TprThreshold => 0x0000401c,
            VmcsField::ProcBasedVmExecControls2 => 0x0000401e,
            VmcsField::VmInstructionError => 0x00004400,
            VmcsField::VmExitReason => 0x00004402,
            VmcsField::VmExitIntrInfo => 0x00004404,
            VmcsField::VmExitIntrErrorCode => 0x00004406,
            VmcsField::IdtVectoringInfoField => 0x00004408,
            VmcsField::IdtVectoringErrorCode => 0x0000440a,
            VmcsField::VmExitInstructionLen => 0x0000440c,
            VmcsField::VmxInstructionInfo => 0x0000440e,
            VmcsField::GuestEsLimit => 0x00004800,
            VmcsField::GuestCsLimit => 0x00004802,
            VmcsField::GuestSsLimit => 0x00004804,
            VmcsField::GuestDsLimit => 0x00004806,
            VmcsField::GuestFsLimit => 0x00004808,
            VmcsField::GuestGsLimit => 0x0000480a,
            VmcsField::GuestLdtrLimit => 0x0000480c,
            VmcsField::GuestTrLimit => 0x0000480e,
            VmcsField::GuestGdtrLimit => 0x00004810,
            VmcsField::GuestIdtrLimit => 0x00004812,
            VmcsField::GuestEsAccessRights => 0x00004814,
            VmcsField::GuestCsAccessRights => 0x00004816,
            VmcsField::GuestSsAccessRights => 0x00004818,
            VmcsField::GuestDsAccessRights => 0x0000481a,
            VmcsField::GuestFsAccessRights => 0x0000481c,
            VmcsField::GuestGsAccessRights => 0x0000481e,
            VmcsField::GuestLdtrAccessRights => 0x00004820,
            VmcsField::GuestTrAccessRights => 0x00004822,
            VmcsField::GuestInterruptibilityState => 0x00004824,
            VmcsField::GuestActivityState => 0x00004826,
            VmcsField::GuestSmBase => 0x00004828,
            VmcsField::GuestIa32SysenterCs => 0x0000482a,
            VmcsField::HostIa32SysenterCs => 0x00004c00,
            VmcsField::Cr0GuestHostMask => 0x00006000,
            VmcsField::Cr4GuestHostMask => 0x00006002,
            VmcsField::Cr0ReadShadow => 0x00006004,
            VmcsField::Cr4ReadShadow => 0x00006006,
            VmcsField::Cr3TargetValue0 => 0x00006008,
            VmcsField::Cr3TargetValue1 => 0x0000600a,
            VmcsField::Cr3TargetValue2 => 0x0000600c,
            VmcsField::Cr3TargetValue3 => 0x0000600e,
            VmcsField::ExitQualification => 0x00006400,
            VmcsField::GuestLinearAddress => 0x0000640a,
            VmcsField::GuestCr0 => 0x00006800,
            VmcsField::GuestCr3 => 0x00006802,
            VmcsField::GuestCr4 => 0x00006804,
            VmcsField::GuestEsBase => 0x00006806,
            VmcsField::GuestCsBase => 0x00006808,
            VmcsField::GuestSsBase => 0x0000680a,
            VmcsField::GuestDsBase => 0x0000680c,
            VmcsField::GuestFsBase => 0x0000680e,
            VmcsField::GuestGsBase => 0x00006810,
            VmcsField::GuestLdtrBase => 0x00006812,
            VmcsField::GuestTrBase => 0x00006814,
            VmcsField::GuestGdtrBase => 0x00006816,
            VmcsField::GuestIdtrBase => 0x00006818,
            VmcsField::GuestDr7 => 0x0000681a,
            VmcsField::GuestRsp => 0x0000681c,
            VmcsField::GuestRip => 0x0000681e,
            VmcsField::GuestRflags => 0x00006820,
            VmcsField::GuestPendingDbgExceptions => 0x00006822,
            VmcsField::GuestSysenterEsp => 0x00006824,
            VmcsField::GuestSysenterEip => 0x00006826,
            VmcsField::HostCr0 => 0x00006c00,
            VmcsField::HostCr3 => 0x00006c02,
            VmcsField::HostCr4 => 0x00006c04,
            VmcsField::HostFsBase => 0x00006c06,
            VmcsField::HostGsBase => 0x00006c08,
            VmcsField::HostTrBase => 0x00006c0a,
            VmcsField::HostGdtrBase => 0x00006c0c,
            VmcsField::HostIdtrBase => 0x00006c0e,
            VmcsField::HostIa32SysenterEsp => 0x00006c10,
            VmcsField::HostIa32SysenterEip => 0x00006c12,
            VmcsField::HostRsp => 0x00006c14,
            VmcsField::HostRip => 0x00006c16,
        }
    }

    /// The field that `encoding` stands for, if it stands for one.
    pub open spec fn spec_from_encoding(encoding: u32) -> Option<VmcsField> {
        match encoding {
            0x00000800 => Some(VmcsField::GuestEsSelector),
            0x00000802 => Some(VmcsField::GuestCsSelector),
            0x00000804 => Some(VmcsField::GuestSsSelector),
            0x00000806 => Some(VmcsField::GuestDsSelector),
            0x00000808 => Some(VmcsField::GuestFsSelector),
            0x0000080a => Some(VmcsField::GuestGsSelector),
            0x0000080c => Some(VmcsField::GuestLdtrSelector),
            0x0000080e => Some(VmcsField::GuestTrSelector),
            0x00000c00 => Some(VmcsField::HostEsSelector),
            0x00000c02 => Some(VmcsField::HostCsSelector),
            0x00000c04 => Some(VmcsField::HostSsSelector),
            0x00000c06 => Some(VmcsField::HostDsSelector),
            0x00000c08 => Some(VmcsField::HostFsSelector),
            0x00000c0a => Some(VmcsField::HostGsSelector),
            0x00000c0c => Some(VmcsField::HostTrSelector),
            0x00002000 => Some(VmcsField::IoBitmapA),
            0x00002001 => Some(VmcsField::IoBitmapAHigh),
            0x00002002 => Some(VmcsField::IoBitmapB),
            0x00002003 => Some(VmcsField::IoBitmapBHigh),
            0x00002004 => Some(VmcsField::MsrBitmap),
            0x00002005 => Some(VmcsField::MsrBitmapHigh),
            0x00002006 => Some(VmcsField::VmExitMsrStoreAddr),
            0x00002007 => Some(VmcsField::VmExitMsrStoreAddrHigh),
            0x00002008 => Some(VmcsField::VmExitMsrLoadAddr),
            0x00002009 => Some(VmcsField::VmExitMsrLoadAddrHigh),
            0x0000200a => Some(VmcsField::VmEntryMsrLoadAddr),
            0x0000200b => Some(VmcsField::VmEntryMsrLoadAddrHigh),
            0x0000200c => Some(VmcsField::ExecVmcsPointer),
            0x00002010 => Some(VmcsField::TscOffset),
            0x00002011 => Some(VmcsField::TscOffsetHigh),
            0x00002012 => Some(VmcsField::VirtualApicPageAddr),
            0x00002013 => Some(VmcsField::VirtualApicPageAddrHigh),
            0x00002018 => Some(VmcsField::VmfuncControls),
            0x00002019 => Some(VmcsField::VmfuncControlsHigh),
            0x0000201a => Some(VmcsField::EptPointer),
            0x0000201b => Some(VmcsField::EptPointerHigh),
            0x00002024 => Some(VmcsField::EptpList),
            0x00002025 => Some(VmcsField::EptpListHigh),
            0x00002400 => Some(VmcsField::GuestPhysicalAddress),
            0x00002401 => Some(VmcsField::GuestPhysicalAddressHigh),
            0x00002800 => Some(VmcsField::VmcsLinkPointer),
            0x00002801 => Some(VmcsField::VmcsLinkPointerHigh),
            0x00002802 => Some(VmcsField::GuestIa32Debugctl),
            0x00002803 => Some(VmcsField::GuestIa32DebugctlHigh),
            0x00002806 => Some(VmcsField::GuestIa32Efer),
            0x00002c00 => Some(VmcsField::HostIa32Pat),
            0x00002c02 => Some(VmcsField::HostIa32Efer),
            0x00002c03 => Some(VmcsField::HostIa32EferHigh),
            0x00004000 => Some(VmcsField::PinBasedVmExecControls),
            0x00004002 => Some(VmcsField::ProcBasedVmExecControls),
            0x00004004 => Some(VmcsField::ExceptionBitmap),
            0x00004006 => Some(VmcsField::PageFaultErrorCodeMask),
            0x00004008 => Some(VmcsField::PageFaultErrorCodeMatch),
            0x0000400a => Some(VmcsField::Cr3TargetCount),
            0x0000400c => Some(VmcsField::VmExitControls),
            0x0000400e => Some(VmcsField::VmExitMsrStoreCount),
            0x00004010 => Some(VmcsField::VmExitMsrLoadCount),
            0x00004012 => Some(VmcsField::VmEntryControls),
            0x00004014 => Some(VmcsField::VmEntryMsrLoadCount),
            0x00004016 => Some(VmcsField::VmEntryIntrInfoField),
            0x00004018 => Some(VmcsField::VmEntryExceptionErrorCode),
            0x0000401a => Some(VmcsField::VmEntryInstructionLen),
            0x0000401c => Some(VmcsField::TprThreshold),
            0x0000401e => Some(VmcsField::ProcBasedVmExecControls2),
            0x00004400 => Some(VmcsField::VmInstructionError),
            0x00004402 => Some(VmcsField::VmExitReason),
            0x00004404 => Some(VmcsField::VmExitIntrInfo),
            0x00004406 => Some(VmcsField::VmExitIntrErrorCode),
            0x00004408 => Some(VmcsField::IdtVectoringInfoField),
            0x0000440a => Some(VmcsField::IdtVectoringErrorCode),
            0x0000440c => Some(VmcsField::VmExitInstructionLen),
            0x0000440e => Some(VmcsField::VmxInstructionInfo),
            0x00004800 => Some(VmcsField::GuestEsLimit),
            0x00004802 => Some(VmcsField::GuestCsLimit),
            0x00004804 => Some(VmcsField::GuestSsLimit),
            0x00004806 => Some(VmcsField::GuestDsLimit),
            0x00004808 => Some(VmcsField::GuestFsLimit),
            0x0000480a => Some(VmcsField::GuestGsLimit),
            0x0000480c => Some(VmcsField::GuestLdtrLimit),
            0x0000480e => Some(VmcsField::GuestTrLimit),
            0x00004810 => Some(VmcsField::GuestGdtrLimit),
            0x00004812 => Some(VmcsField::GuestIdtrLimit),
            0x00004814 => Some(VmcsField::GuestEsAccessRights),
            0x00004816 => Some(VmcsField::GuestCsAccessRights),
            0x00004818 => Some(VmcsField::GuestSsAccessRights),
            0x0000481a => Some(VmcsField::GuestDsAccessRights),
            0x0000481c => Some(VmcsField::GuestFsAccessRights),
            0x0000481e => Some(VmcsField::GuestGsAccessRights),
            0x00004820 => Some(VmcsField::GuestLdtrAccessRights),
            0x00004822 => Some(VmcsField::GuestTrAccessRights),
            0x00004824 => Some(VmcsField::GuestInterruptibilityState),
            0x00004826 => Some(VmcsField::GuestActivityState),
            0x00004828 => Some(VmcsField::GuestSmBase),
            0x0000482a => Some(VmcsField::GuestIa32SysenterCs),
            0x00004c00 => Some(VmcsField::HostIa32SysenterCs),
            0x00006000 => Some(VmcsField::Cr0GuestHostMask),
            0x00006002 => Some(VmcsField::Cr4GuestHostMask),
            0x00006004 => Some(VmcsField::Cr0ReadShadow),
            0x00006006 => Some(VmcsField::Cr4ReadShadow),
            0x00006008 => Some(VmcsField::Cr3TargetValue0),
            0x0000600a => Some(VmcsField::Cr3TargetValue1),
            0x0000600c => Some(VmcsField::Cr3TargetValue2),
            0x0000600e => Some(VmcsField::Cr3TargetValue3),
            0x00006400 => Some(VmcsField::ExitQualification),
            0x0000640a => Some(VmcsField::GuestLinearAddress),
            0x00006800 => Some(VmcsField::GuestCr0),
            0x00006802 => Some(VmcsField::GuestCr3),
            0x00006804 => Some(VmcsField::GuestCr4),
            0x00006806 => Some(VmcsField::GuestEsBase),
            0x00006808 => Some(VmcsField::GuestCsBase),
            0x0000680a => Some(VmcsField::GuestSsBase),
            0x0000680c => Some(VmcsField::GuestDsBase),
            0x0000680e => Some(VmcsField::GuestFsBase),
            0x00006810 => Some(VmcsField::GuestGsBase),
            0x00006812 => Some(VmcsField::GuestLdtrBase),
            0x00006814 => Some(VmcsField::GuestTrBase),
            0x00006816 => Some(VmcsField::GuestGdtrBase),
            0x00006818 => Some(VmcsField::GuestIdtrBase),
            0x0000681a => Some(VmcsField::GuestDr7),
            0x0000681c => Some(VmcsField::GuestRsp),
            0x0000681e => Some(VmcsField::GuestRip),
            0x00006820 => Some(VmcsField::GuestRflags),
            0x00006822 => Some(VmcsField::GuestPendingDbgExceptions),
            0x00006824 => Some(VmcsField::GuestSysenterEsp),
            0x00006826 => Some(VmcsField::GuestSysenterEip),
            0x00006c00 => Some(VmcsField::HostCr0),
            0x00006c02 => Some(VmcsField::HostCr3),
            0x00006c04 => Some(VmcsField::HostCr4),
            0x00006c06 => Some(VmcsField::HostFsBase),
            0x00006c08 => Some(VmcsField::HostGsBase),
            0x00006c0a => Some(VmcsField::HostTrBase),
            0x00006c0c => Some(VmcsField::HostGdtrBase),
            0x00006c0e => Some(VmcsField::HostIdtrBase),
            0x00006c10 => Some(VmcsField::HostIa32SysenterEsp),
            0x00006c12 => Some(VmcsField::HostIa32SysenterEip),
            0x00006c14 => Some(VmcsField::HostRsp),
            0x00006c16 => Some(VmcsField::HostRip),
            _ => None,
        }
    }

    /// The field that `encoding` stands for, if it stands for one.
    #[verifier::when_used_as_spec(spec_from_encoding)]
    pub fn from_encoding(encoding: u32) -> (f: Option<VmcsField>)
        ensures
            f == Self::spec_from_encoding(encoding),
    {
        match encoding {
            0x00000800 => Some(VmcsField::GuestEsSelector),
            0x00000802 => Some(VmcsField::GuestCsSelector),
            0x00000804 => Some(VmcsField::GuestSsSelector),
            0x00000806 => Some(VmcsField::GuestDsSelector),
            0x00000808 => Some(VmcsField::GuestFsSelector),
            0x0000080a => Some(VmcsField::GuestGsSelector),
            0x0000080c => Some(VmcsField::GuestLdtrSelector),
            0x0000080e => Some(VmcsField::GuestTrSelector),
            0x00000c00 => Some(VmcsField::HostEsSelector),
            0x00000c02 => Some(VmcsField::HostCsSelector),
            0x00000c04 => Some(VmcsField::HostSsSelector),
            0x00000c06 => Some(VmcsField::HostDsSelector),
            0x00000c08 => Some(VmcsField::HostFsSelector),
            0x00000c0a => Some(VmcsField::HostGsSelector),
            0x00000c0c => Some(VmcsField::HostTrSelector),
            0x00002000 => Some(VmcsField::IoBitmapA),
            0x00002001 => Some(VmcsField::IoBitmapAHigh),
            0x00002002 => Some(VmcsField::IoBitmapB),
            0x00002003 => Some(VmcsField::IoBitmapBHigh),
            0x00002004 => Some(VmcsField::MsrBitmap),
            0x00002005 => Some(VmcsField::MsrBitmapHigh),
            0x00002006 => Some(VmcsField::VmExitMsrStoreAddr),
            0x00002007 => Some(VmcsField::VmExitMsrStoreAddrHigh),
            0x00002008 => Some(VmcsField::VmExitMsrLoadAddr),
            0x00002009 => Some(VmcsField::VmExitMsrLoadAddrHigh),
            0x0000200a => Some(VmcsField::VmEntryMsrLoadAddr),
            0x0000200b => Some(VmcsField::VmEntryMsrLoadAddrHigh),
            0x0000200c => Some(VmcsField::ExecVmcsPointer),
            0x00002010 => Some(VmcsField::TscOffset),
            0x00002011 => Some(VmcsField::TscOffsetHigh),
            0x00002012 => Some(VmcsField::VirtualApicPageAddr),
            0x00002013 => Some(VmcsField::VirtualApicPageAddrHigh),
            0x00002018 => Some(VmcsField::VmfuncControls),
            0x00002019 => Some(VmcsField::VmfuncControlsHigh),
            0x0000201a => Some(VmcsField::EptPointer),
            0x0000201b => Some(VmcsField::EptPointerHigh),
            0x00002024 => Some(VmcsField::EptpList),
            0x00002025 => Some(VmcsField::EptpListHigh),
            0x00002400 => Some(VmcsField::GuestPhysicalAddress),
            0x00002401 => Some(VmcsField::GuestPhysicalAddressHigh),
            0x00002800 => Some(VmcsField::VmcsLinkPointer),
            0x00002801 => Some(VmcsField::VmcsLinkPointerHigh),
            0x00002802 => Some(VmcsField::GuestIa32Debugctl),
            0x00002803 => Some(VmcsField::GuestIa32DebugctlHigh),
            0x00002806 => Some(VmcsField::GuestIa32Efer),
            0x00002c00 => Some(VmcsField::HostIa32Pat),
            0x00002c02 => Some(VmcsField::HostIa32Efer),
            0x00002c03 => Some(VmcsField::HostIa32EferHigh),
            0x00004000 => Some(VmcsField::PinBasedVmExecControls),
            0x00004002 => Some(VmcsField::ProcBasedVmExecControls),
            0x00004004 => Some(VmcsField::ExceptionBitmap),
            0x00004006 => Some(VmcsField::PageFaultErrorCodeMask),
            0x00004008 => Some(VmcsField::PageFaultErrorCodeMatch),
            0x0000400a => Some(VmcsField::Cr3TargetCount),
            0x0000400c => Some(VmcsField::VmExitControls),
            0x0000400e => Some(VmcsField::VmExitMsrStoreCount),
            0x00004010 => Some(VmcsField::VmExitMsrLoadCount),
            0x00004012 => Some(VmcsField::VmEntryControls),
            0x00004014 => Some(VmcsField::VmEntryMsrLoadCount),
            0x00004016 => Some(VmcsField::VmEntryIntrInfoField),
            0x00004018 => Some(VmcsField::VmEntryExceptionErrorCode),
            0x0000401a => Some(VmcsField::VmEntryInstructionLen),
            0x0000401c => Some(VmcsField::TprThreshold),
            0x0000401e => Some(VmcsField::ProcBasedVmExecControls2),
            0x00004400 => Some(VmcsField::VmInstructionError),
            0x00004402 => Some(VmcsField::VmExitReason),
            0x00004404 => Some(VmcsField::VmExitIntrInfo),
            0x00004406 => Some(VmcsField::VmExitIntrErrorCode),
            0x00004408 => Some(VmcsField::IdtVectoringInfoField),
            0x0000440a => Some(VmcsField::IdtVectoringErrorCode),
            0x0000440c => Some(VmcsField::VmExitInstructionLen),
            0x0000440e => Some(VmcsField::VmxInstructionInfo),
            0x00004800 => Some(VmcsField::GuestEsLimit),
            0x00004802 => Some(VmcsField::GuestCsLimit),
            0x00004804 => Some(VmcsField::GuestSsLimit),
            0x00004806 => Some(VmcsField::GuestDsLimit),
            0x00004808 => Some(VmcsField::GuestFsLimit),
            0x0000480a => Some(VmcsField::GuestGsLimit),
            0x0000480c => Some(VmcsField::GuestLdtrLimit),
            0x0000480e => Some(VmcsField::GuestTrLimit),
            0x00004810 => Some(VmcsField::GuestGdtrLimit),
            0x00004812 => Some(VmcsField::GuestIdtrLimit),
            0x00004814 => Some(VmcsField::GuestEsAccessRights),
            0x00004816 => Some(VmcsField::GuestCsAccessRights),
            0x00004818 => Some(VmcsField::GuestSsAccessRights),
            0x0000481a => Some(VmcsField::GuestDsAccessRights),
            0x0000481c => Some(VmcsField::GuestFsAccessRights),
            0x0000481e => Some(VmcsField::GuestGsAccessRights),
            0x00004820 => Some(VmcsField::GuestLdtrAccessRights),
            0x00004822 => Some(VmcsField::GuestTrAccessRights),
            0x00004824 => Some(VmcsField::GuestInterruptibilityState),
            0x00004826 => Some(VmcsField::GuestActivityState),
            0x00004828 => Some(VmcsField::GuestSmBase),
            0x0000482a => Some(VmcsField::GuestIa32SysenterCs),
            0x00004c00 => Some(VmcsField::HostIa32SysenterCs),
            0x00006000 => Some(VmcsField::Cr0GuestHostMask),
            0x00006002 => Some(VmcsField::Cr4GuestHostMask),
            0x00006004 => Some(VmcsField::Cr0ReadShadow),
            0x00006006 => Some(VmcsField::Cr4ReadShadow),
            0x00006008 => Some(VmcsField::Cr3TargetValue0),
            0x0000600a => Some(VmcsField::Cr3TargetValue1),
            0x0000600c => Some(VmcsField::Cr3TargetValue2),
            0x0000600e => Some(VmcsField::Cr3TargetValue3),
            0x00006400 => Some(VmcsField::ExitQualification),
            0x0000640a => Some(VmcsField::GuestLinearAddress),
            0x00006800 => Some(VmcsField::GuestCr0),
            0x00006802 => Some(VmcsField::GuestCr3),
            0x00006804 => Some(VmcsField::GuestCr4),
            0x00006806 => Some(VmcsField::GuestEsBase),
            0x00006808 => Some(VmcsField::GuestCsBase),
            0x0000680a => Some(VmcsField::GuestSsBase),
            0x0000680c => Some(VmcsField::GuestDsBase),
            0x0000680e => Some(VmcsField::GuestFsBase),
            0x00006810 => Some(VmcsField::GuestGsBase),
            0x00006812 => Some(VmcsField::GuestLdtrBase),
            0x00006814 => Some(VmcsField::GuestTrBase),
            0x00006816 => Some(VmcsField::GuestGdtrBase),
            0x00006818 => Some(VmcsField::GuestIdtrBase),
            0x0000681a => Some(VmcsField::GuestDr7),
            0x0000681c => Some(VmcsField::GuestRsp),
            0x0000681e => Some(VmcsField::GuestRip),
            0x00006820 => Some(VmcsField::GuestRflags),
            0x00006822 => Some(VmcsField::GuestPendingDbgExceptions),
            0x00006824 => Some(VmcsField::GuestSysenterEsp),
            0x00006826 => Some(VmcsField::GuestSysenterEip),
            0x00006c00 => Some(VmcsField::HostCr0),
            0x00006c02 => Some(VmcsField::HostCr3),
            0x00006c04 => Some(VmcsField::HostCr4),
            0x00006c06 => Some(VmcsField::HostFsBase),
            0x00006c08 => Some(VmcsField::HostGsBase),
            0x00006c0a => Some(VmcsField::HostTrBase),
            0x00006c0c => Some(VmcsField::HostGdtrBase),
            0x00006c0e => Some(VmcsField::HostIdtrBase),
            0x00006c10 => Some(VmcsField::HostIa32SysenterEsp),
            0x00006c12 => Some(VmcsField::HostIa32SysenterEip),
            0x00006c14 => Some(VmcsField::HostRsp),
            0x00006c16 => Some(VmcsField::HostRip),
            _ => None,
        }
    }

    /// The place of the field in the list of fields, from 0.
    pub open spec fn spec_index(self) -> usize {
        match self {
            VmcsField::GuestEsSelector => 0,
            VmcsField::GuestCsSelector => 1,
            VmcsField::GuestSsSelector => 2,
            VmcsField::GuestDsSelector => 3,
            VmcsField::GuestFsSelector => 4,
            VmcsField::GuestGsSelector => 5,
            VmcsField::GuestLdtrSelector => 6,
            VmcsField::GuestTrSelector => 7,
            VmcsField::HostEsSelector => 8,
            VmcsField::HostCsSelector => 9,
            VmcsField::HostSsSelector => 10,
            VmcsField::HostDsSelector => 11,
            VmcsField::HostFsSelector => 12,
            VmcsField::HostGsSelector => 13,
            VmcsField::HostTrSelector => 14,
            VmcsField::IoBitmapA => 15,
            VmcsField::IoBitmapAHigh => 16,
            VmcsField::IoBitmapB => 17,
            VmcsField::IoBitmapBHigh => 18,
            VmcsField::MsrBitmap => 19,
            VmcsField::MsrBitmapHigh => 20,
            VmcsField::VmExitMsrStoreAddr => 21,
            VmcsField::VmExitMsrStoreAddrHigh => 22,
            VmcsField::VmExitMsrLoadAddr => 23,
            VmcsField::VmExitMsrLoadAddrHigh => 24,
            VmcsField::VmEntryMsrLoadAddr => 25,
            VmcsField::VmEntryMsrLoadAddrHigh => 26,
            VmcsField::ExecVmcsPointer => 27,
            VmcsField::TscOffset => 28,
            VmcsField::TscOffsetHigh => 29,
            VmcsField::VirtualApicPageAddr => 30,
            VmcsField::VirtualApicPageAddrHigh => 31,
            VmcsField::VmfuncControls => 32,
            VmcsField::VmfuncControlsHigh => 33,
            VmcsField::EptPointer => 34,
            VmcsField::EptPointerHigh => 35,
            VmcsField::EptpList => 36,
            VmcsField::EptpListHigh => 37,
            VmcsField::GuestPhysicalAddress => 38,
            VmcsField::GuestPhysicalAddressHigh => 39,
            VmcsField::VmcsLinkPointer => 40,
            VmcsField::VmcsLinkPointerHigh => 41,
            VmcsField::GuestIa32Debugctl => 42,
            VmcsField::GuestIa32DebugctlHigh => 43,
            VmcsField::GuestIa32Efer => 44,
            VmcsField::HostIa32Pat => 45,
            VmcsField::HostIa32Efer => 46,
            VmcsField::HostIa32EferHigh => 47,
            VmcsField::PinBasedVmExecControls => 48,
            VmcsField::ProcBasedVmExecControls => 49,
            VmcsField::ExceptionBitmap => 50,
            VmcsField::PageFaultErrorCodeMask => 51,
            VmcsField::PageFaultErrorCodeMatch => 52,
            VmcsField::Cr3TargetCount => 53,
            VmcsField::VmExitControls => 54,
            VmcsField::VmExitMsrStoreCount => 55,
            VmcsField::VmExitMsrLoadCount => 56,
            VmcsField::VmEntryControls => 57,
            VmcsField::VmEntryMsrLoadCount => 58,
            VmcsField::VmEntryIntrInfoField => 59,
            VmcsField::VmEntryExceptionErrorCode => 60,
            VmcsField::VmEntryInstructionLen => 61,
            VmcsField::TprThreshold => 62,
            VmcsField::ProcBasedVmExecControls2 => 63,
            VmcsField::VmInstructionError => 64,
            VmcsField::VmExitReason => 65,
            VmcsField::VmExitIntrInfo => 66,
            VmcsField::VmExitIntrErrorCode => 67,
            VmcsField::IdtVectoringInfoField => 68,
            VmcsField::IdtVectoringErrorCode => 69,
            VmcsField::VmExitInstructionLen => 70,
            VmcsField::VmxInstructionInfo => 71,
            VmcsField::GuestEsLimit => 72,
            VmcsField::GuestCsLimit => 73,
            VmcsField::GuestSsLimit => 74,
            VmcsField::GuestDsLimit => 75,
            VmcsField::GuestFsLimit => 76,
            VmcsField::GuestGsLimit => 77,
            VmcsField::GuestLdtrLimit => 78,
            VmcsField::GuestTrLimit => 79,
            VmcsField::GuestGdtrLimit => 80,
            VmcsField::GuestIdtrLimit => 81,
            VmcsField::GuestEsAccessRights => 82,
            VmcsField::GuestCsAccessRights => 83,
            VmcsField::GuestSsAccessRights => 84,
            VmcsField::GuestDsAccessRights => 85,
            VmcsField::GuestFsAccessRights => 86,
            VmcsField::GuestGsAccessRights => 87,
            VmcsField::GuestLdtrAccessRights => 88,
            VmcsField::GuestTrAccessRights => 89,
            VmcsField::GuestInterruptibilityState => 90,
            VmcsField::GuestActivityState => 91,
            VmcsField::GuestSmBase => 92,
            VmcsField::GuestIa32SysenterCs => 93,
            VmcsField::HostIa32SysenterCs => 94,
            VmcsField::Cr0GuestHostMask => 95,
            VmcsField::Cr4GuestHostMask => 96,
            VmcsField::Cr0ReadShadow => 97,
            VmcsField::Cr4ReadShadow => 98,
            VmcsField::Cr3TargetValue0 => 99,
            VmcsField::Cr3TargetValue1 => 100,
            VmcsField::Cr3TargetValue2 => 101,
            VmcsField::Cr3TargetValue3 => 102,
            VmcsField::ExitQualification => 103,
            VmcsField::GuestLinearAddress => 104,
            VmcsField::GuestCr0 => 105,
            VmcsField::GuestCr3 => 106,
            VmcsField::GuestCr4 => 107,
            VmcsField::GuestEsBase => 108,
            VmcsField::GuestCsBase => 109,
            VmcsField::GuestSsBase => 110,
            VmcsField::GuestDsBase => 111,
            VmcsField::GuestFsBase => 112,
            VmcsField::GuestGsBase => 113,
            VmcsField::GuestLdtrBase => 114,
            VmcsField::GuestTrBase => 115,
            VmcsField::GuestGdtrBase => 116,
            VmcsField::GuestIdtrBase => 117,
            VmcsField::GuestDr7 => 118,
            VmcsField::GuestRsp => 119,
            VmcsField::GuestRip => 120,
            VmcsField::GuestRflags => 121,
            VmcsField::GuestPendingDbgExceptions => 122,
            VmcsField::GuestSysenterEsp => 123,
            VmcsField::GuestSysenterEip => 124,
            VmcsField::HostCr0 => 125,
            VmcsField::HostCr3 => 126,
            VmcsField::HostCr4 => 127,
            VmcsField::HostFsBase => 128,
            VmcsField::HostGsBase => 129,
            VmcsField::HostTrBase => 130,
            VmcsField::HostGdtrBase => 131,
            VmcsField::HostIdtrBase => 132,
            VmcsField::HostIa32SysenterEsp => 133,
            VmcsField::HostIa32SysenterEip => 134,
            VmcsField::HostRsp => 135,
            VmcsField::HostRip => 136,
        }
    }

    /// The place of the field in the list of fields, from 0.
    #[verifier::when_used_as_spec(spec_index)]
    pub fn index(self) -> (i: usize)
        ensures
            i == self.spec_index(),
            i < VMCS_FIELD_COUNT,
    {
        match self {
            VmcsField::GuestEsSelector => 0,
            VmcsField::GuestCsSelector => 1,
            VmcsField::GuestSsSelector => 2,
            VmcsField::GuestDsSelector => 3,
            VmcsField::GuestFsSelector => 4,
            VmcsField::GuestGsSelector => 5,
            VmcsField::GuestLdtrSelector => 6,
            VmcsField::GuestTrSelector => 7,
            VmcsField::HostEsSelector => 8,
            VmcsField::HostCsSelector => 9,
            VmcsField::HostSsSelector => 10,
            VmcsField::HostDsSelector => 11,
            VmcsField::HostFsSelector => 12,
            VmcsField::HostGsSelector => 13,
            VmcsField::HostTrSelector => 14,
            VmcsField::IoBitmapA => 15,
            VmcsField::IoBitmapAHigh => 16,
            VmcsField::IoBitmapB => 17,
            VmcsField::IoBitmapBHigh => 18,
            VmcsField::MsrBitmap => 19,
            VmcsField::MsrBitmapHigh => 20,
            VmcsField::VmExitMsrStoreAddr => 21,
            VmcsField::VmExitMsrStoreAddrHigh => 22,
            VmcsField::VmExitMsrLoadAddr => 23,
            VmcsField::VmExitMsrLoadAddrHigh => 24,
            VmcsField::VmEntryMsrLoadAddr => 25,
            VmcsField::VmEntryMsrLoadAddrHigh => 26,
            VmcsField::ExecVmcsPointer => 27,
            VmcsField::TscOffset => 28,
            VmcsField::TscOffsetHigh => 29,
            VmcsField::VirtualApicPageAddr => 30,
            VmcsField::VirtualApicPageAddrHigh => 31,
            VmcsField::VmfuncControls => 32,
            VmcsField::VmfuncControlsHigh => 33,
            VmcsField::EptPointer => 34,
            VmcsField::EptPointerHigh => 35,
            VmcsField::EptpList => 36,
            VmcsField::EptpListHigh => 37,
            VmcsField::GuestPhysicalAddress => 38,
            VmcsField::GuestPhysicalAddressHigh => 39,
            VmcsField::VmcsLinkPointer => 40,
            VmcsField::VmcsLinkPointerHigh => 41,
            VmcsField::GuestIa32Debugctl => 42,
            VmcsField::GuestIa32DebugctlHigh => 43,
            VmcsField::GuestIa32Efer => 44,
            VmcsField::HostIa32Pat => 45,
            VmcsField::HostIa32Efer => 46,
            VmcsField::HostIa32EferHigh => 47,
            VmcsField::PinBasedVmExecControls => 48,
            VmcsField::ProcBasedVmExecControls => 49,
            VmcsField::ExceptionBitmap => 50,
            VmcsField::PageFaultErrorCodeMask => 51,
            VmcsField::PageFaultErrorCodeMatch => 52,
            VmcsField::Cr3TargetCount => 53,
            VmcsField::VmExitControls => 54,
            VmcsField::VmExitMsrStoreCount => 55,
            VmcsField::VmExitMsrLoadCount => 56,
            VmcsField::VmEntryControls => 57,
            VmcsField::VmEntryMsrLoadCount => 58,
            VmcsField::VmEntryIntrInfoField => 59,
            VmcsField::VmEntryExceptionErrorCode => 60,
            VmcsField::VmEntryInstructionLen => 61,
            VmcsField::TprThreshold => 62,
            VmcsField::ProcBasedVmExecControls2 => 63,
            VmcsField::VmInstructionError => 64,
            VmcsField::VmExitReason => 65,
            VmcsField::VmExitIntrInfo => 66,
            VmcsField::VmExitIntrErrorCode => 67,
            VmcsField::IdtVectoringInfoField => 68,
            VmcsField::IdtVectoringErrorCode => 69,
            VmcsField::VmExitInstructionLen => 70,
            VmcsField::VmxInstructionInfo => 71,
            VmcsField::GuestEsLimit => 72,
            VmcsField::GuestCsLimit => 73,
            VmcsField::GuestSsLimit => 74,
            VmcsField::GuestDsLimit => 75,
            VmcsField::GuestFsLimit => 76,
            VmcsField::GuestGsLimit => 77,
            VmcsField::GuestLdtrLimit => 78,
            VmcsField::GuestTrLimit => 79,
            VmcsField::GuestGdtrLimit => 80,
            VmcsField::GuestIdtrLimit => 81,
            VmcsField::GuestEsAccessRights => 82,
            VmcsField::GuestCsAccessRights => 83,
            VmcsField::GuestSsAccessRights => 84,
            VmcsField::GuestDsAccessRights => 85,
            VmcsField::GuestFsAccessRights => 86,
            VmcsField::GuestGsAccessRights => 87,
            VmcsField::GuestLdtrAccessRights => 88,
            VmcsField::GuestTrAccessRights => 89,
            VmcsField::GuestInterruptibilityState => 90,
            VmcsField::GuestActivityState => 91,
            VmcsField::GuestSmBase => 92,
            VmcsField::GuestIa32SysenterCs => 93,
            VmcsField::HostIa32SysenterCs => 94,
            VmcsField::Cr0GuestHostMask => 95,
            VmcsField::Cr4GuestHostMask => 96,
            VmcsField::Cr0ReadShadow => 97,
            VmcsField::Cr4ReadShadow => 98,
            VmcsField::Cr3TargetValue0 => 99,
            VmcsField::Cr3TargetValue1 => 100,
            VmcsField::Cr3TargetValue2 => 101,
            VmcsField::Cr3TargetValue3 => 102,
            VmcsField::ExitQualification => 103,
            VmcsField::GuestLinearAddress => 104,
            VmcsField::GuestCr0 => 105,
            VmcsField::GuestCr3 => 106,
            VmcsField::GuestCr4 => 107,
            VmcsField::GuestEsBase => 108,
            VmcsField::GuestCsBase => 109,
            VmcsField::GuestSsBase => 110,
            VmcsField::GuestDsBase => 111,
            VmcsField::GuestFsBase => 112,
            VmcsField::GuestGsBase => 113,
            VmcsField::GuestLdtrBase => 114,
            VmcsField::GuestTrBase => 115,
            VmcsField::GuestGdtrBase => 116,
            VmcsField::GuestIdtrBase => 117,
            VmcsField::GuestDr7 => 118,
            VmcsField::GuestRsp => 119,
            VmcsField::GuestRip => 120,
            VmcsField::GuestRflags => 121,
            VmcsField::GuestPendingDbgExceptions => 122,
            VmcsField::GuestSysenterEsp => 123,
            VmcsField::GuestSysenterEip => 124,
            VmcsField::HostCr0 => 125,
            VmcsField::HostCr3 => 126,
            VmcsField::HostCr4 => 127,
            VmcsField::HostFsBase => 128,
            VmcsField::HostGsBase => 129,
            VmcsField::HostTrBase => 130,
            VmcsField::HostGdtrBase => 131,
            VmcsField::HostIdtrBase => 132,
            VmcsField::HostIa32SysenterEsp => 133,
            VmcsField::HostIa32SysenterEip => 134,
            VmcsField::HostRsp => 135,
            VmcsField::HostRip => 136,
        }
    }

    /// The field at place `index` of the list of fields.
    pub open spec fn spec_from_index(index: usize) -> Option<VmcsField> {
        match index {
            0 => Some(VmcsField::GuestEsSelector),
            1 => Some(VmcsField::GuestCsSelector),
            2 => Some(VmcsField::GuestSsSelector),
            3 => Some(VmcsField::GuestDsSelector),
            4 => Some(VmcsField::GuestFsSelector),
            5 => Some(VmcsField::GuestGsSelector),
            6 => Some(VmcsField::GuestLdtrSelector),
            7 => Some(VmcsField::GuestTrSelector),
            8 => Some(VmcsField::HostEsSelector),
            9 => Some(VmcsField::HostCsSelector),
            10 => Some(VmcsField::HostSsSelector),
            11 => Some(VmcsField::HostDsSelector),
            12 => Some(VmcsField::HostFsSelector),
            13 => Some(VmcsField::HostGsSelector),
            14 => Some(VmcsField::HostTrSelector),
            15 => Some(VmcsField::IoBitmapA),
            16 => Some(VmcsField::IoBitmapAHigh),
            17 => Some(VmcsField::IoBitmapB),
            18 => Some(VmcsField::IoBitmapBHigh),
            19 => Some(VmcsField::MsrBitmap),
            20 => Some(VmcsField::MsrBitmapHigh),
            21 => Some(VmcsField::VmExitMsrStoreAddr),
            22 => Some(VmcsField::VmExitMsrStoreAddrHigh),
            23 => Some(VmcsField::VmExitMsrLoadAddr),
            24 => Some(VmcsField::VmExitMsrLoadAddrHigh),
            25 => Some(VmcsField::VmEntryMsrLoadAddr),
            26 => Some(VmcsField::VmEntryMsrLoadAddrHigh),
            27 => Some(VmcsField::ExecVmcsPointer),
            28 => Some(VmcsField::TscOffset),
            29 => Some(VmcsField::TscOffsetHigh),
            30 => Some(VmcsField::VirtualApicPageAddr),
            31 => Some(VmcsField::VirtualApicPageAddrHigh),
            32 => Some(VmcsField::VmfuncControls),
            33 => Some(VmcsField::VmfuncControlsHigh),
            34 => Some(VmcsField::EptPointer),
            35 => Some(VmcsField::EptPointerHigh),
            36 => Some(VmcsField::EptpList),
            37 => Some(VmcsField::EptpListHigh),
            38 => Some(VmcsField::GuestPhysicalAddress),
            39 => Some(VmcsField::GuestPhysicalAddressHigh),
            40 => Some(VmcsField::VmcsLinkPointer),
            41 => Some(VmcsField::VmcsLinkPointerHigh),
            42 => Some(VmcsField::GuestIa32Debugctl),
            43 => Some(VmcsField::GuestIa32DebugctlHigh),
            44 => Some(VmcsField::GuestIa32Efer),
            45 => Some(VmcsField::HostIa32Pat),
            46 => Some(VmcsField::HostIa32Efer),
            47 => Some(VmcsField::HostIa32EferHigh),
            48 => Some(VmcsField::PinBasedVmExecControls),
            49 => Some(VmcsField::ProcBasedVmExecControls),
            50 => Some(VmcsField::ExceptionBitmap),
            51 => Some(VmcsField::PageFaultErrorCodeMask),
            52 => Some(VmcsField::PageFaultErrorCodeMatch),
            53 => Some(VmcsField::Cr3TargetCount),
            54 => Some(VmcsField::VmExitControls),
            55 => Some(VmcsField::VmExitMsrStoreCount),
            56 => Some(VmcsField::VmExitMsrLoadCount),
            57 => Some(VmcsField::VmEntryControls),
            58 => Some(VmcsField::VmEntryMsrLoadCount),
            59 => Some(VmcsField::VmEntryIntrInfoField),
            60 => Some(VmcsField::VmEntryExceptionErrorCode),
            61 => Some(VmcsField::VmEntryInstructionLen),
            62 => Some(VmcsField::TprThreshold),
            63 => Some(VmcsField::ProcBasedVmExecControls2),
            64 => Some(VmcsField::VmInstructionError),
            65 => Some(VmcsField::VmExitReason),
            66 => Some(VmcsField::VmExitIntrInfo),
            67 => Some(VmcsField::VmExitIntrErrorCode),
            68 => Some(VmcsField::IdtVectoringInfoField),
            69 => Some(VmcsField::IdtVectoringErrorCode),
            70 => Some(VmcsField::VmExitInstructionLen),
            71 => Some(VmcsField::VmxInstructionInfo),
            72 => Some(VmcsField::GuestEsLimit),
            73 => Some(VmcsField::GuestCsLimit),
            74 => Some(VmcsField::GuestSsLimit),
            75 => Some(VmcsField::GuestDsLimit),
            76 => Some(VmcsField::GuestFsLimit),
            77 => Some(VmcsField::GuestGsLimit),
            78 => Some(VmcsField::GuestLdtrLimit),
            79 => Some(VmcsField::GuestTrLimit),
            80 => Some(VmcsField::GuestGdtrLimit),
            81 => Some(VmcsField::GuestIdtrLimit),
            82 => Some(VmcsField::GuestEsAccessRights),
            83 => Some(VmcsField::GuestCsAccessRights),
            84 => Some(VmcsField::GuestSsAccessRights),
            85 => Some(VmcsField::GuestDsAccessRights),
            86 => Some(VmcsField::GuestFsAccessRights),
            87 => Some(VmcsField::GuestGsAccessRights),
            88 => Some(VmcsField::GuestLdtrAccessRights),
            89 => Some(VmcsField::GuestTrAccessRights),
            90 => Some(VmcsField::GuestInterruptibilityState),
            91 => Some(VmcsField::GuestActivityState),
            92 => Some(VmcsField::GuestSmBase),
            93 => Some(VmcsField::GuestIa32SysenterCs),
            94 => Some(VmcsField::HostIa32SysenterCs),
            95 => Some(VmcsField::Cr0GuestHostMask),
            96 => Some(VmcsField::Cr4GuestHostMask),
            97 => Some(VmcsField::Cr0ReadShadow),
            98 => Some(VmcsField::Cr4ReadShadow),
            99 => Some(VmcsField::Cr3TargetValue0),
            100 => Some(VmcsField::Cr3TargetValue1),
            101 => Some(VmcsField::Cr3TargetValue2),
            102 => Some(VmcsField::Cr3TargetValue3),
            103 => Some(VmcsField::ExitQualification),
            104 => Some(VmcsField::GuestLinearAddress),
            105 => Some(VmcsField::GuestCr0),
            106 => Some(VmcsField::GuestCr3),
            107 => Some(VmcsField::GuestCr4),
            108 => Some(VmcsField::GuestEsBase),
            109 => Some(VmcsField::GuestCsBase),
            110 => Some(VmcsField::GuestSsBase),
            111 => Some(VmcsField::GuestDsBase),
            112 => Some(VmcsField::GuestFsBase),
            113 => Some(VmcsField::GuestGsBase),
            114 => Some(VmcsField::GuestLdtrBase),
            115 => Some(VmcsField::GuestTrBase),
            116 => Some(VmcsField::GuestGdtrBase),
            117 => Some(VmcsField::GuestIdtrBase),
            118 => Some(VmcsField::GuestDr7),
            119 => Some(VmcsField::GuestRsp),
            120 => Some(VmcsField::GuestRip),
            121 => Some(VmcsField::GuestRflags),
            122 => Some(VmcsField::GuestPendingDbgExceptions),
            123 => Some(VmcsField::GuestSysenterEsp),
            124 => Some(VmcsField::GuestSysenterEip),
            125 => Some(VmcsField::HostCr0),
            126 => Some(VmcsField::HostCr3),
            127 => Some(VmcsField::HostCr4),
            128 => Some(VmcsField::HostFsBase),
            129 => Some(VmcsField::HostGsBase),
            130 => Some(VmcsField::HostTrBase),
            131 => Some(VmcsField::HostGdtrBase),
            132 => Some(VmcsField::HostIdtrBase),
            133 => Some(VmcsField::HostIa32SysenterEsp),
            134 => Some(VmcsField::HostIa32SysenterEip),
            135 => Some(VmcsField::HostRsp),
            136 => Some(VmcsField::HostRip),
            _ => None,
        }
    }

    /// The field at place `index` of the list of fields.
    #[verifier::when_used_as_spec(spec_from_index)]
    pub fn from_index(index: usize) -> (f: Option<VmcsField>)
        ensures
            f == Self::spec_from_index(index),
            f.is_some() <==> index < VMCS_FIELD_COUNT,
            f matches Some(field) ==> field.spec_index() == index,
    {
        match index {
            0 => Some(VmcsField::GuestEsSelector),
            1 => Some(VmcsField::GuestCsSelector),
            2 => Some(VmcsField::GuestSsSelector),
            3 => Some(VmcsField::GuestDsSelector),
            4 => Some(VmcsField::GuestFsSelector),
            5 => Some(VmcsField::GuestGsSelector),
            6 => Some(VmcsField::GuestLdtrSelector),
            7 => Some(VmcsField::GuestTrSelector),
            8 => Some(VmcsField::HostEsSelector),
            9 => Some(VmcsField::HostCsSelector),
            10 => Some(VmcsField::HostSsSelector),
            11 => Some(VmcsField::HostDsSelector),
            12 => Some(VmcsField::HostFsSelector),
            13 => Some(VmcsField::HostGsSelector),
            14 => Some(VmcsField::HostTrSelector),
            15 => Some(VmcsField::IoBitmapA),
            16 => Some(VmcsField::IoBitmapAHigh),
            17 => Some(VmcsField::IoBitmapB),
            18 => Some(VmcsField::IoBitmapBHigh),
            19 => Some(VmcsField::MsrBitmap),
            20 => Some(VmcsField::MsrBitmapHigh),
            21 => Some(VmcsField::VmExitMsrStoreAddr),
            22 => Some(VmcsField::VmExitMsrStoreAddrHigh),
            23 => Some(VmcsField::VmExitMsrLoadAddr),
            24 => Some(VmcsField::VmExitMsrLoadAddrHigh),
            25 => Some(VmcsField::VmEntryMsrLoadAddr),
            26 => Some(VmcsField::VmEntryMsrLoadAddrHigh),
            27 => Some(VmcsField::ExecVmcsPointer),
            28 => Some(VmcsField::TscOffset),
            29 => Some(VmcsField::TscOffsetHigh),
            30 => Some(VmcsField::VirtualApicPageAddr),
            31 => Some(VmcsField::VirtualApicPageAddrHigh),
            32 => Some(VmcsField::VmfuncControls),
            33 => Some(VmcsField::VmfuncControlsHigh),
            34 => Some(VmcsField::EptPointer),
            35 => Some(VmcsField::EptPointerHigh),
            36 => Some(VmcsField::EptpList),
            37 => Some(VmcsField::EptpListHigh),
            38 => Some(VmcsField::GuestPhysicalAddress),
            39 => Some(VmcsField::GuestPhysicalAddressHigh),
            40 => Some(VmcsField::VmcsLinkPointer),
            41 => Some(VmcsField::VmcsLinkPointerHigh),
            42 => Some(VmcsField::GuestIa32Debugctl),
            43 => Some(VmcsField::GuestIa32DebugctlHigh),
            44 => Some(VmcsField::GuestIa32Efer),
            45 => Some(VmcsField::HostIa32Pat),
            46 => Some(VmcsField::HostIa32Efer),
            47 => Some(VmcsField::HostIa32EferHigh),
            48 => Some(VmcsField::PinBasedVmExecControls),
            49 => Some(VmcsField::ProcBasedVmExecControls),
            50 => Some(VmcsField::ExceptionBitmap),
            51 => Some(VmcsField::PageFaultErrorCodeMask),
            52 => Some(VmcsField::PageFaultErrorCodeMatch),
            53 => Some(VmcsField::Cr3TargetCount),
            54 => Some(VmcsField::VmExitControls),
            55 => Some(VmcsField::VmExitMsrStoreCount),
            56 => Some(VmcsField::VmExitMsrLoadCount),
            57 => Some(VmcsField::VmEntryControls),
            58 => Some(VmcsField::VmEntryMsrLoadCount),
            59 => Some(VmcsField::VmEntryIntrInfoField),
            60 => Some(VmcsField::VmEntryExceptionErrorCode),
            61 => Some(VmcsField::VmEntryInstructionLen),
            62 => Some(VmcsField::TprThreshold),
            63 => Some(VmcsField::ProcBasedVmExecControls2),
            64 => Some(VmcsField::VmInstructionError),
            65 => Some(VmcsField::VmExitReason),
            66 => Some(VmcsField::VmExitIntrInfo),
            67 => Some(VmcsField::VmExitIntrErrorCode),
            68 => Some(VmcsField::IdtVectoringInfoField),
            69 => Some(VmcsField::IdtVectoringErrorCode),
            70 => Some(VmcsField::VmExitInstructionLen),
            71 => Some(VmcsField::VmxInstructionInfo),
            72 => Some(VmcsField::GuestEsLimit),
            73 => Some(VmcsField::GuestCsLimit),
            74 => Some(VmcsField::GuestSsLimit),
            75 => Some(VmcsField::GuestDsLimit),
            76 => Some(VmcsField::GuestFsLimit),
            77 => Some(VmcsField::GuestGsLimit),
            78 => Some(VmcsField::GuestLdtrLimit),
            79 => Some(VmcsField::GuestTrLimit),
            80 => Some(VmcsField::GuestGdtrLimit),
            81 => Some(VmcsField::GuestIdtrLimit),
            82 => Some(VmcsField::GuestEsAccessRights),
            83 => Some(VmcsField::GuestCsAccessRights),
            84 => Some(VmcsField::GuestSsAccessRights),
            85 => Some(VmcsField::GuestDsAccessRights),
            86 => Some(VmcsField::GuestFsAccessRights),
            87 => Some(VmcsField::GuestGsAccessRights),
            88 => Some(VmcsField::GuestLdtrAccessRights),
            89 => Some(VmcsField::GuestTrAccessRights),
            90 => Some(VmcsField::GuestInterruptibilityState),
            91 => Some(VmcsField::GuestActivityState),
            92 => Some(VmcsField::GuestSmBase),
            93 => Some(VmcsField::GuestIa32SysenterCs),
            94 => Some(VmcsField::HostIa32SysenterCs),
            95 => Some(VmcsField::Cr0GuestHostMask),
            96 => Some(VmcsField::Cr4GuestHostMask),
            97 => Some(VmcsField::Cr0ReadShadow),
            98 => Some(VmcsField::Cr4ReadShadow),
            99 => Some(VmcsField::Cr3TargetValue0),
            100 => Some(VmcsField::Cr3TargetValue1),
            101 => Some(VmcsField::Cr3TargetValue2),
            102 => Some(VmcsField::Cr3TargetValue3),
            103 => Some(VmcsField::ExitQualification),
            104 => Some(VmcsField::GuestLinearAddress),
            105 => Some(VmcsField::GuestCr0),
            106 => Some(VmcsField::GuestCr3),
            107 => Some(VmcsField::GuestCr4),
            108 => Some(VmcsField::GuestEsBase),
            109 => Some(VmcsField::GuestCsBase),
            110 => Some(VmcsField::GuestSsBase),
            111 => Some(VmcsField::GuestDsBase),
            112 => Some(VmcsField::GuestFsBase),
            113 => Some(VmcsField::GuestGsBase),
            114 => Some(VmcsField::GuestLdtrBase),
            115 => Some(VmcsField::GuestTrBase),
            116 => Some(VmcsField::GuestGdtrBase),
            117 => Some(VmcsField::GuestIdtrBase),
            118 => Some(VmcsField::GuestDr7),
            119 => Some(VmcsField::GuestRsp),
            120 => Some(VmcsField::GuestRip),
            121 => Some(VmcsField::GuestRflags),
            122 => Some(VmcsField::GuestPendingDbgExceptions),
            123 => Some(VmcsField::GuestSysenterEsp),
            124 => Some(VmcsField::GuestSysenterEip),
            125 => Some(VmcsField::HostCr0),
            126 => Some(VmcsField::HostCr3),
            127 => Some(VmcsField::HostCr4),
            128 => Some(VmcsField::HostFsBase),
            129 => Some(VmcsField::HostGsBase),
            130 => Some(VmcsField::HostTrBase),
            131 => Some(VmcsField::HostGdtrBase),
            132 => Some(VmcsField::HostIdtrBase),
            133 => Some(VmcsField::HostIa32SysenterEsp),
            134 => Some(VmcsField::HostIa32SysenterEip),
            135 => Some(VmcsField::HostRsp),
            136 => Some(VmcsField::HostRip),
            _ => None,
        }
    }
}

/// A field is found again from its encoding, and an encoding that stands for
/// a field is the encoding of that field.
pub proof fn lemma_encoding_round_trip(field: VmcsField, encoding: u32)
    ensures
        VmcsField::spec_from_encoding(field.spec_encoding()) == Some(field),
        VmcsField::spec_from_encoding(encoding) matches Some(f) ==> f.spec_encoding() == encoding,
{
}

/// No two fields share an encoding.
pub proof fn lemma_encoding_injective(a: VmcsField, b: VmcsField)
    requires
        a.spec_encoding() == b.spec_encoding(),
    ensures
        a == b,
{
}

/// No two fields share a place in the list.
pub proof fn lemma_index_injective(a: VmcsField, b: VmcsField)
    requires
        a.spec_index() == b.spec_index(),
    ensures
        a == b,
{
}

} // verus!
