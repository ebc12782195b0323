use vstd::prelude::*;

verus! {

/// A field of the Virtual Machine Control Structure.
///
/// Each field is identified by the 16-bit encoding that the VMREAD and
/// VMWRITE instructions take; the library treats every field as a 64-bit
/// cell whatever its architectural width.
#[derive(Clone, Copy, Debug, PartialEq, Eq, Structural)]
pub enum VmcsField {
    VirtualProcessorId,
    PostedIntrNv,
    GuestEsSelector,
    GuestCsSelector,
    GuestSsSelector,
    GuestDsSelector,
    GuestFsSelector,
    GuestGsSelector,
    GuestLdtrSelector,
    GuestTrSelector,
    GuestIntrStatus,
    GuestPmlIndex,
    HostEsSelector,
    HostCsSelector,
    HostSsSelector,
    HostDsSelector,
    HostFsSelector,
    HostGsSelector,
    HostTrSelector,
    IoBitmapA,
    IoBitmapAHigh,
    IoBitmapB,
    IoBitmapBHigh,
    MsrBitmap,
    MsrBitmapHigh,
    VmExitMsrStoreAddr,
    VmExitMsrStoreAddrHigh,
    VmExitMsrLoadAddr,
    VmExitMsrLoadAddrHigh,
    VmEntryMsrLoadAddr,
    VmEntryMsrLoadAddrHigh,
    PmlAddress,
    PmlAddressHigh,
    TscOffset,
    TscOffsetHigh,
    VirtualApicPageAddr,
    VirtualApicPageAddrHigh,
    ApicAccessAddr,
    ApicAccessAddrHigh,
    PostedIntrDescAddr,
    PostedIntrDescAddrHigh,
    EptPointer,
    EptPointerHigh,
    EoiExitBitmap0,
    EoiExitBitmap0High,
    EoiExitBitmap1,
    EoiExitBitmap1High,
    EoiExitBitmap2,
    EoiExitBitmap2High,
    EoiExitBitmap3,
    EoiExitBitmap3High,
    VmreadBitmap,
    VmreadBitmapHigh,
    VmwriteBitmap,
    VmwriteBitmapHigh,
    XssExitBitmap,
    XssExitBitmapHigh,
    TscMultiplier,
    TscMultiplierHigh,
    GuestPhysicalAddress,
    GuestPhysicalAddressHigh,
    VmcsLinkPointer,
    VmcsLinkPointerHigh,
    GuestIa32Debugctl,
    GuestIa32DebugctlHigh,
    GuestIa32Pat,
    GuestIa32PatHigh,
    GuestIa32Efer,
    GuestIa32EferHigh,
    GuestIa32PerfGlobalCtrl,
    GuestIa32PerfGlobalCtrlHigh,
    GuestPdptr0,
    GuestPdptr0High,
    GuestPdptr1,
    GuestPdptr1High,
    GuestPdptr2,
    GuestPdptr2High,
    GuestPdptr3,
    GuestPdptr3High,
    GuestBndcfgs,
    GuestBndcfgsHigh,
    HostIa32Pat,
    HostIa32PatHigh,
    HostIa32Efer,
    HostIa32EferHigh,
    HostIa32PerfGlobalCtrl,
    HostIa32PerfGlobalCtrlHigh,
    PinBasedVmExecControl,
    CpuBasedVmExecControl,
    ExceptionBitmap,
    PageFaultErrorCodeMask,
    PageFaultErrorCodeMatch,
    Cr3TargetCount,
    VmExitControls,
    VmExitMsrStoreCount,
    VmExitMsrLoadCount,
    VmEntryControls,
    VmEntryMsrLoadCount,
    VmEntryIntrInfoField,
    VmEntryExceptionErrorCode,
    VmEntryInstructionLen,
    TprThreshold,
    SecondaryVmExecControl,
    PleGap,
    PleWindow,
    VmInstructionError,
    VmExitReason,
    VmExitIntrInfo,
    VmExitIntrErrorCode,
    IdtVectoringInfoField,
    IdtVectoringErrorCode,
    VmExitInstructionLen,
    VmxInstructionInfo,
    GuestEsLimit,
    GuestCsLimit,
    GuestSsLimit,
    GuestDsLimit,
    GuestFsLimit,
    GuestGsLimit,
    GuestLdtrLimit,
    GuestTrLimit,
    GuestGdtrLimit,
    GuestIdtrLimit,
    GuestEsArBytes,
    GuestCsArBytes,
    GuestSsArBytes,
    GuestDsArBytes,
    GuestFsArBytes,
    GuestGsArBytes,
    GuestLdtrArBytes,
    GuestTrArBytes,
    GuestInterruptibilityInfo,
    GuestActivityState,
    GuestSysenterCs,
    VmxPreemptionTimerValue,
    HostIa32SysenterCs,
    Cr0GuestHostMask,
    Cr4GuestHostMask,
    Cr0ReadShadow,
    Cr4ReadShadow,
    Cr3TargetValue0,
    Cr3TargetValue1,
    Cr3TargetValue2,
    Cr3TargetValue3,
    ExitQualification,
    GuestLinearAddress,
    GuestCr0,
    GuestCr3,
    GuestCr4,
    GuestEsBase,
    GuestCsBase,
    GuestSsBase,
    GuestDsBase,
    GuestFsBase,
    GuestGsBase,
    GuestLdtrBase,
    GuestTrBase,
    GuestGdtrBase,
    GuestIdtrBase,
    GuestDr7,
    GuestRsp,
    GuestRip,
    GuestRflags,
    GuestPendingDbgExceptions,
    GuestSysenterEsp,
    GuestSysenterEip,
    HostCr0,
    HostCr3,
    HostCr4,
    HostFsBase,
    HostGsBase,
    HostTrBase,
    HostGdtrBase,
    HostIdtrBase,
    HostIa32SysenterEsp,
    HostIa32SysenterEip,
    HostRsp,
    HostRip,
}

impl VmcsField {
    /// The processor-defined encoding of the field.
    pub open spec fn spec_encoding(self) -> u32 {
        match self {
            VmcsField::VirtualProcessorId => 0x0000,
            VmcsField::PostedIntrNv => 0x0002,
            VmcsField::GuestEsSelector => 0x0800,
            VmcsField::GuestCsSelector => 0x0802,
            VmcsField::GuestSsSelector => 0x0804,
            VmcsField::GuestDsSelector => 0x0806,
            VmcsField::GuestFsSelector => 0x0808,
            VmcsField::GuestGsSelector => 0x080a,
            VmcsField::GuestLdtrSelector => 0x080c,
            VmcsField::GuestTrSelector => 0x080e,
            VmcsField::GuestIntrStatus => 0x0810,
            VmcsField::GuestPmlIndex => 0x0812,
            VmcsField::HostEsSelector => 0x0c00,
            VmcsField::HostCsSelector => 0x0c02,
            VmcsField::HostSsSelector => 0x0c04,
            VmcsField::HostDsSelector => 0x0c06,
            VmcsField::HostFsSelector => 0x0c08,
            VmcsField::HostGsSelector => 0x0c0a,
            VmcsField::HostTrSelector => 0x0c0c,
            VmcsField::IoBitmapA => 0x2000,
            VmcsField::IoBitmapAHigh => 0x2001,
            VmcsField::IoBitmapB => 0x2002,
            VmcsField::IoBitmapBHigh => 0x2003,
            VmcsField::MsrBitmap => 0x2004,
            VmcsField::MsrBitmapHigh => 0x2005,
            VmcsField::VmExitMsrStoreAddr => 0x2006,
            VmcsField::VmExitMsrStoreAddrHigh => 0x2007,
            VmcsField::VmExitMsrLoadAddr => 0x2008,
            VmcsField::VmExitMsrLoadAddrHigh => 0x2009,
            VmcsField::VmEntryMsrLoadAddr => 0x200a,
            VmcsField::VmEntryMsrLoadAddrHigh => 0x200b,
            VmcsField::PmlAddress => 0x200e,
            VmcsField::PmlAddressHigh => 0x200f,
            VmcsField::TscOffset => 0x2010,
            VmcsField::TscOffsetHigh => 0x2011,
            VmcsField::VirtualApicPageAddr => 0x2012,
            VmcsField::VirtualApicPageAddrHigh => 0x2013,
            VmcsField::ApicAccessAddr => 0x2014,
            VmcsField::ApicAccessAddrHigh => 0x2015,
            VmcsField::PostedIntrDescAddr => 0x2016,
            VmcsField::PostedIntrDescAddrHigh => 0x2017,
            VmcsField::EptPointer => 0x201a,
            VmcsField::EptPointerHigh => 0x201b,
            VmcsField::EoiExitBitmap0 => 0x201c,
            VmcsField::EoiExitBitmap0High => 0x201d,
            VmcsField::EoiExitBitmap1 => 0x201e,
            VmcsField::EoiExitBitmap1High => 0x201f,
            VmcsField::EoiExitBitmap2 => 0x2020,
            VmcsField::EoiExitBitmap2High => 0x2021,
            VmcsField::EoiExitBitmap3 => 0x2022,
            VmcsField::EoiExitBitmap3High => 0x2023,
            VmcsField::VmreadBitmap => 0x2026,
            VmcsField::VmreadBitmapHigh => 0x2027,
            VmcsField::VmwriteBitmap => 0x2028,
            VmcsField::VmwriteBitmapHigh => 0x2029,
            VmcsField::XssExitBitmap => 0x202c,
            VmcsField::XssExitBitmapHigh => 0x202d,
            VmcsField::TscMultiplier => 0x2032,
            VmcsField::TscMultiplierHigh => 0x2033,
            VmcsField::GuestPhysicalAddress => 0x2400,
            VmcsField::GuestPhysicalAddressHigh => 0x2401,
            VmcsField::VmcsLinkPointer => 0x2800,
            VmcsField::VmcsLinkPointerHigh => 0x2801,
            VmcsField::GuestIa32Debugctl => 0x2802,
            VmcsField::GuestIa32DebugctlHigh => 0x2803,
            VmcsField::GuestIa32Pat => 0x2804,
            VmcsField::GuestIa32PatHigh => 0x2805,
            VmcsField::GuestIa32Efer => 0x2806,
            VmcsField::GuestIa32EferHigh => 0x2807,
            VmcsField::GuestIa32PerfGlobalCtrl => 0x2808,
            VmcsField::GuestIa32PerfGlobalCtrlHigh => 0x2809,
            VmcsField::GuestPdptr0 => 0x280a,
            VmcsField::GuestPdptr0High => 0x280b,
            VmcsField::GuestPdptr1 => 0x280c,
            VmcsField::GuestPdptr1High => 0x280d,
            VmcsField::GuestPdptr2 => 0x280e,
            VmcsField::GuestPdptr2High => 0x280f,
            VmcsField::GuestPdptr3 => 0x2810,
            VmcsField::GuestPdptr3High => 0x2811,
            VmcsField::GuestBndcfgs => 0x2812,
            VmcsField::GuestBndcfgsHigh => 0x2813,
            VmcsField::HostIa32Pat => 0x2c00,
            VmcsField::HostIa32PatHigh => 0x2c01,
            VmcsField::HostIa32Efer => 0x2c02,
            VmcsField::HostIa32EferHigh => 0x2c03,
            VmcsField::HostIa32PerfGlobalCtrl => 0x2c04,
            VmcsField::HostIa32PerfGlobalCtrlHigh => 0x2c05,
            VmcsField::PinBasedVmExecControl => 0x4000,
            VmcsField::CpuBasedVmExecControl => 0x4002,
            VmcsField::ExceptionBitmap => 0x4004,
            VmcsField::PageFaultErrorCodeMask => 0x4006,
            VmcsField::PageFaultErrorCodeMatch => 0x4008,
            VmcsField::Cr3TargetCount => 0x400a,
            VmcsField::VmExitControls => 0x400c,
            VmcsField::VmExitMsrStoreCount => 0x400e,
            VmcsField::VmExitMsrLoadCount => 0x4010,
            VmcsField::VmEntryControls => 0x4012,
            VmcsField::VmEntryMsrLoadCount => 0x4014,
            VmcsField::VmEntryIntrInfoField => 0x4016,
            VmcsField::VmEntryExceptionErrorCode => 0x4018,
            VmcsField::VmEntryInstructionLen => 0x401a,
            VmcsField::TprThreshold => 0x401c,
            VmcsField::SecondaryVmExecControl => 0x401e,
            VmcsField::PleGap => 0x4020,
            VmcsField::PleWindow => 0x4022,
            VmcsField::VmInstructionError => 0x4400,
            VmcsField::VmExitReason => 0x4402,
            VmcsField::VmExitIntrInfo => 0x4404,
            VmcsField::VmExitIntrErrorCode => 0x4406,
            VmcsField::IdtVectoringInfoField => 0x4408,
            VmcsField::IdtVectoringErrorCode => 0x440a,
            VmcsField::VmExitInstructionLen => 0x440c,
            VmcsField::VmxInstructionInfo => 0x440e,
            VmcsField::GuestEsLimit => 0x4800,
            VmcsField::GuestCsLimit => 0x4802,
            VmcsField::GuestSsLimit => 0x4804,
            VmcsField::GuestDsLimit => 0x4806,
            VmcsField::GuestFsLimit => 0x4808,
            VmcsField::GuestGsLimit => 0x480a,
            VmcsField::GuestLdtrLimit => 0x480c,
            VmcsField::GuestTrLimit => 0x480e,
            VmcsField::GuestGdtrLimit => 0x4810,
            VmcsField::GuestIdtrLimit => 0x4812,
            VmcsField::GuestEsArBytes => 0x4814,
            VmcsField::GuestCsArBytes => 0x4816,
            VmcsField::GuestSsArBytes => 0x4818,
            VmcsField::GuestDsArBytes => 0x481a,
            VmcsField::GuestFsArBytes => 0x481c,
            VmcsField::GuestGsArBytes => 0x481e,
            VmcsField::GuestLdtrArBytes => 0x4820,
            VmcsField::GuestTrArBytes => 0x4822,
            VmcsField::GuestInterruptibilityInfo => 0x4824,
            VmcsField::GuestActivityState => 0x4826,
            VmcsField::GuestSysenterCs => 0x482a,
            VmcsField::VmxPreemptionTimerValue => 0x482e,
            VmcsField::HostIa32SysenterCs => 0x4c00,
            VmcsField::Cr0GuestHostMask => 0x6000,
            VmcsField::Cr4GuestHostMask => 0x6002,
            VmcsField::Cr0ReadShadow => 0x6004,
            VmcsField::Cr4ReadShadow => 0x6006,
            VmcsField::Cr3TargetValue0 => 0x6008,
            VmcsField::Cr3TargetValue1 => 0x600a,
            VmcsField::Cr3TargetValue2 => 0x600c,
            VmcsField::Cr3TargetValue3 => 0x600e,
            VmcsField::ExitQualification => 0x6400,
            VmcsField::GuestLinearAddress => 0x640a,
            VmcsField::GuestCr0 => 0x6800,
            VmcsField::GuestCr3 => 0x6802,
            VmcsField::GuestCr4 => 0x6804,
            VmcsField::GuestEsBase => 0x6806,
            VmcsField::GuestCsBase => 0x6808,
            VmcsField::GuestSsBase => 0x680a,
            VmcsField::GuestDsBase => 0x680c,
            VmcsField::GuestFsBase => 0x680e,
            VmcsField::GuestGsBase => 0x6810,
            VmcsField::GuestLdtrBase => 0x6812,
            VmcsField::GuestTrBase => 0x6814,
            VmcsField::GuestGdtrBase => 0x6816,
            VmcsField::GuestIdtrBase => 0x6818,
            VmcsField::GuestDr7 => 0x681a,
            VmcsField::GuestRsp => 0x681c,
            VmcsField::GuestRip => 0x681e,
            VmcsField::GuestRflags => 0x6820,
            VmcsField::GuestPendingDbgExceptions => 0x6822,
            VmcsField::GuestSysenterEsp => 0x6824,
            VmcsField::GuestSysenterEip => 0x6826,
            VmcsField::HostCr0 => 0x6c00,
            VmcsField::HostCr3 => 0x6c02,
            VmcsField::HostCr4 => 0x6c04,
            VmcsField::HostFsBase => 0x6c06,
            VmcsField::HostGsBase => 0x6c08,
            VmcsField::HostTrBase => 0x6c0a,
            VmcsField::HostGdtrBase => 0x6c0c,
            VmcsField::HostIdtrBase => 0x6c0e,
            VmcsField::HostIa32SysenterEsp => 0x6c10,
            VmcsField::HostIa32SysenterEip => 0x6c12,
            VmcsField::HostRsp => 0x6c14,
            VmcsField::HostRip => 0x6c16,
        }
    }

    /// The encoding handed to VMREAD and VMWRITE for this field.
    #[verifier::when_used_as_spec(spec_encoding)]
    pub fn encoding(self) -> (r: u32)
        ensures
            r == self.spec_encoding(),
            r < 0x10000,
    {
        match self {
            VmcsField::VirtualProcessorId => 0x0000,
            VmcsField::PostedIntrNv => 0x0002,
            VmcsField::GuestEsSelector => 0x0800,
            VmcsField::GuestCsSelector => 0x0802,
            VmcsField::GuestSsSelector => 0x0804,
            VmcsField::GuestDsSelector => 0x0806,
            VmcsField::GuestFsSelector => 0x0808,
            VmcsField::GuestGsSelector => 0x080a,
            VmcsField::GuestLdtrSelector => 0x080c,
            VmcsField::GuestTrSelector => 0x080e,
            VmcsField::GuestIntrStatus => 0x0810,
            VmcsField::GuestPmlIndex => 0x0812,
            VmcsField::HostEsSelector => 0x0c00,
            VmcsField::HostCsSelector => 0x0c02,
            VmcsField::HostSsSelector => 0x0c04,
            VmcsField::HostDsSelector => 0x0c06,
            VmcsField::HostFsSelector => 0x0c08,
            VmcsField::HostGsSelector => 0x0c0a,
            VmcsField::HostTrSelector => 0x0c0c,
            VmcsField::IoBitmapA => 0x2000,
            VmcsField::IoBitmapAHigh => 0x2001,
            VmcsField::IoBitmapB => 0x2002,
            VmcsField::IoBitmapBHigh => 0x2003,
            VmcsField::MsrBitmap => 0x2004,
            VmcsField::MsrBitmapHigh => 0x2005,
            VmcsField::VmExitMsrStoreAddr => 0x2006,
            VmcsField::VmExitMsrStoreAddrHigh => 0x2007,
            VmcsField::VmExitMsrLoadAddr => 0x2008,
            VmcsField::VmExitMsrLoadAddrHigh => 0x2009,
            VmcsField::VmEntryMsrLoadAddr => 0x200a,
            VmcsField::VmEntryMsrLoadAddrHigh => 0x200b,
            VmcsField::PmlAddress => 0x200e,
            VmcsField::PmlAddressHigh => 0x200f,
            VmcsField::TscOffset => 0x2010,
            VmcsField::TscOffsetHigh => 0x2011,
            VmcsField::VirtualApicPageAddr => 0x2012,
            VmcsField::VirtualApicPageAddrHigh => 0x2013,
            VmcsField::ApicAccessAddr => 0x2014,
            VmcsField::ApicAccessAddrHigh => 0x2015,
            VmcsField::PostedIntrDescAddr => 0x2016,
            VmcsField::PostedIntrDescAddrHigh => 0x2017,
            VmcsField::EptPointer => 0x201a,
            VmcsField::EptPointerHigh => 0x201b,
            VmcsField::EoiExitBitmap0 => 0x201c,
            VmcsField::EoiExitBitmap0High => 0x201d,
            VmcsField::EoiExitBitmap1 => 0x201e,
            VmcsField::EoiExitBitmap1High => 0x201f,
            VmcsField::EoiExitBitmap2 => 0x2020,
            VmcsField::EoiExitBitmap2High => 0x2021,
            VmcsField::EoiExitBitmap3 => 0x2022,
            VmcsField::EoiExitBitmap3High => 0x2023,
            VmcsField::VmreadBitmap => 0x2026,
            VmcsField::VmreadBitmapHigh => 0x2027,
            VmcsField::VmwriteBitmap => 0x2028,
            VmcsField::VmwriteBitmapHigh => 0x2029,
            VmcsField::XssExitBitmap => 0x202c,
            VmcsField::XssExitBitmapHigh => 0x202d,
            VmcsField::TscMultiplier => 0x2032,
            VmcsField::TscMultiplierHigh => 0x2033,
            VmcsField::GuestPhysicalAddress => 0x2400,
            VmcsField::GuestPhysicalAddressHigh => 0x2401,
            VmcsField::VmcsLinkPointer => 0x2800,
            VmcsField::VmcsLinkPointerHigh => 0x2801,
            VmcsField::GuestIa32Debugctl => 0x2802,
            VmcsField::GuestIa32DebugctlHigh => 0x2803,
            VmcsField::GuestIa32Pat => 0x2804,
            VmcsField::GuestIa32PatHigh => 0x2805,
            VmcsField::GuestIa32Efer => 0x2806,
            VmcsField::GuestIa32EferHigh => 0x2807,
            VmcsField::GuestIa32PerfGlobalCtrl => 0x2808,
            VmcsField::GuestIa32PerfGlobalCtrlHigh => 0x2809,
            VmcsField::GuestPdptr0 => 0x280a,
            VmcsField::GuestPdptr0High => 0x280b,
            VmcsField::GuestPdptr1 => 0x280c,
            VmcsField::GuestPdptr1High => 0x280d,
            VmcsField::GuestPdptr2 => 0x280e,
            VmcsField::GuestPdptr2High => 0x280f,
            VmcsField::GuestPdptr3 => 0x2810,
            VmcsField::GuestPdptr3High => 0x2811,
            VmcsField::GuestBndcfgs => 0x2812,
            VmcsField::GuestBndcfgsHigh => 0x2813,
            VmcsField::HostIa32Pat => 0x2c00,
            VmcsField::HostIa32PatHigh => 0x2c01,
            VmcsField::HostIa32Efer => 0x2c02,
            VmcsField::HostIa32EferHigh => 0x2c03,
            VmcsField::HostIa32PerfGlobalCtrl => 0x2c04,
            VmcsField::HostIa32PerfGlobalCtrlHigh => 0x2c05,
            VmcsField::PinBasedVmExecControl => 0x4000,
            VmcsField::CpuBasedVmExecControl => 0x4002,
            VmcsField::ExceptionBitmap => 0x4004,
            VmcsField::PageFaultErrorCodeMask => 0x4006,
            VmcsField::PageFaultErrorCodeMatch => 0x4008,
            VmcsField::Cr3TargetCount => 0x400a,
            VmcsField::VmExitControls => 0x400c,
            VmcsField::VmExitMsrStoreCount => 0x400e,
            VmcsField::VmExitMsrLoadCount => 0x4010,
            VmcsField::VmEntryControls => 0x4012,
            VmcsField::VmEntryMsrLoadCount => 0x4014,
            VmcsField::VmEntryIntrInfoField => 0x4016,
            VmcsField::VmEntryExceptionErrorCode => 0x4018,
            VmcsField::VmEntryInstructionLen => 0x401a,
            VmcsField::TprThreshold => 0x401c,
            VmcsField::SecondaryVmExecControl => 0x401e,
            VmcsField::PleGap => 0x4020,
            VmcsField::PleWindow => 0x4022,
            VmcsField::VmInstructionError => 0x4400,
            VmcsField::VmExitReason => 0x4402,
            VmcsField::VmExitIntrInfo => 0x4404,
            VmcsField::VmExitIntrErrorCode => 0x4406,
            VmcsField::IdtVectoringInfoField => 0x4408,
            VmcsField::IdtVectoringErrorCode => 0x440a,
            VmcsField::VmExitInstructionLen => 0x440c,
            VmcsField::VmxInstructionInfo => 0x440e,
            VmcsField::GuestEsLimit => 0x4800,
            VmcsField::GuestCsLimit => 0x4802,
            VmcsField::GuestSsLimit => 0x4804,
            VmcsField::GuestDsLimit => 0x4806,
            VmcsField::GuestFsLimit => 0x4808,
            VmcsField::GuestGsLimit => 0x480a,
            VmcsField::GuestLdtrLimit => 0x480c,
            VmcsField::GuestTrLimit => 0x480e,
            VmcsField::GuestGdtrLimit => 0x4810,
            VmcsField::GuestIdtrLimit => 0x4812,
            VmcsField::GuestEsArBytes => 0x4814,
            VmcsField::GuestCsArBytes => 0x4816,
            VmcsField::GuestSsArBytes => 0x4818,
            VmcsField::GuestDsArBytes => 0x481a,
            VmcsField::GuestFsArBytes => 0x481c,
            VmcsField::GuestGsArBytes => 0x481e,
            VmcsField::GuestLdtrArBytes => 0x4820,
            VmcsField::GuestTrArBytes => 0x4822,
            VmcsField::GuestInterruptibilityInfo => 0x4824,
            VmcsField::GuestActivityState => 0x4826,
            VmcsField::GuestSysenterCs => 0x482a,
            VmcsField::VmxPreemptionTimerValue => 0x482e,
            VmcsField::HostIa32SysenterCs => 0x4c00,
            VmcsField::Cr0GuestHostMask => 0x6000,
            VmcsField::Cr4GuestHostMask => 0x6002,
            VmcsField::Cr0ReadShadow => 0x6004,
            VmcsField::Cr4ReadShadow => 0x6006,
            VmcsField::Cr3TargetValue0 => 0x6008,
            VmcsField::Cr3TargetValue1 => 0x600a,
            VmcsField::Cr3TargetValue2 => 0x600c,
            VmcsField::Cr3TargetValue3 => 0x600e,
            VmcsField::ExitQualification => 0x6400,
            VmcsField::GuestLinearAddress => 0x640a,
            VmcsField::GuestCr0 => 0x6800,
            VmcsField::GuestCr3 => 0x6802,
            VmcsField::GuestCr4 => 0x6804,
            VmcsField::GuestEsBase => 0x6806,
            VmcsField::GuestCsBase => 0x6808,
            VmcsField::GuestSsBase => 0x680a,
            VmcsField::GuestDsBase => 0x680c,
            VmcsField::GuestFsBase => 0x680e,
            VmcsField::GuestGsBase => 0x6810,
            VmcsField::GuestLdtrBase => 0x6812,
            VmcsField::GuestTrBase => 0x6814,
            VmcsField::GuestGdtrBase => 0x6816,
            VmcsField::GuestIdtrBase => 0x6818,
            VmcsField::GuestDr7 => 0x681a,
            VmcsField::GuestRsp => 0x681c,
            VmcsField::GuestRip => 0x681e,
            VmcsField::GuestRflags => 0x6820,
            VmcsField::GuestPendingDbgExceptions => 0x6822,
            VmcsField::GuestSysenterEsp => 0x6824,
            VmcsField::GuestSysenterEip => 0x6826,
            VmcsField::HostCr0 => 0x6c00,
            VmcsField::HostCr3 => 0x6c02,
            VmcsField::HostCr4 => 0x6c04,
            VmcsField::HostFsBase => 0x6c06,
            VmcsField::HostGsBase => 0x6c08,
            VmcsField::HostTrBase => 0x6c0a,
            VmcsField::HostGdtrBase => 0x6c0c,
            VmcsField::HostIdtrBase => 0x6c0e,
            VmcsField::HostIa32SysenterEsp => 0x6c10,
            VmcsField::HostIa32SysenterEip => 0x6c12,
            VmcsField::HostRsp => 0x6c14,
            VmcsField::HostRip => 0x6c16,
        }
    }
}

} // verus!
