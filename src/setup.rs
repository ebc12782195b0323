//! Programming a fresh VMCS for the first VM entry: host state, guest
//! power-on state and execution controls.
use vstd::prelude::*;
use crate::controls::{
    CPU_ACTIVATE_MSR_BITMAP, CPU_ACTIVATE_SECONDARY_CONTROLS, CPU_TPR_SHADOW, CPU_UNCOND_IO_EXITING,
    EXIT_ACK_INTR_ON_EXIT, EXIT_IA32E_MODE, EXIT_SAVE_GUEST_EFER, PIN_EXT_INTR_EXIT, SEC_ENABLE_EPT,
    SEC_ENABLE_INVPCID, SEC_ENABLE_RDTSCP, SEC_ENABLE_VPID, SEC_UNRESTRICTED_GUEST, SEC_VIRTUALIZE_APIC_ACCESSES,
};
use crate::error::Error;
use crate::field::VmcsField;
use crate::vmcs::{
    fixed_write_allowed, fixed_write_value, ActiveVmcs, Vmx, IA32_VMX_ENTRY_CTLS, IA32_VMX_EXIT_CTLS,
    IA32_VMX_PINBASED_CTLS, IA32_VMX_PROCBASED_CTLS, IA32_VMX_PROCBASED_CTLS2,
};

verus! {

/// The host state that a VM exit restores, as read on the core that will
/// run the VCPU.
#[derive(Clone, Copy, Debug, PartialEq, Eq, Structural)]
pub struct HostState {
    pub cr0: u64,
    pub cr3: u64,
    pub cr4: u64,
    /// The selector of the host's 64-bit code segment.
    pub code_selector: u64,
    /// The selector of the host's data segment, used for every other segment.
    pub data_selector: u64,
    pub idtr_base: u64,
    pub gdtr_base: u64,
    pub fs_base: u64,
    pub gs_base: u64,
    pub efer: u64,
    /// The address of the VM-exit entry point.
    pub exit_handler: u64,
}

/// The value of a host-state field after `initialize_host_vmcs`, for the
/// fields it programs.
pub open spec fn host_field(f: VmcsField, host: HostState, stack: u64) -> Option<u64> {
    match f {
        VmcsField::HostCr0 => Some(host.cr0),
        VmcsField::HostCr3 => Some(host.cr3),
        VmcsField::HostCr4 => Some(host.cr4),
        VmcsField::HostCsSelector => Some(host.code_selector),
        VmcsField::HostSsSelector => Some(host.data_selector),
        VmcsField::HostDsSelector => Some(host.data_selector),
        VmcsField::HostEsSelector => Some(host.data_selector),
        VmcsField::HostFsSelector => Some(host.data_selector),
        VmcsField::HostGsSelector => Some(host.data_selector),
        VmcsField::HostTrSelector => Some(host.data_selector),
        VmcsField::HostIa32SysenterCs => Some(0),
        VmcsField::HostIa32SysenterEsp => Some(0),
        VmcsField::HostIa32SysenterEip => Some(0),
        VmcsField::HostIdtrBase => Some(host.idtr_base),
        VmcsField::HostGdtrBase => Some(host.gdtr_base),
        VmcsField::HostFsBase => Some(host.fs_base),
        VmcsField::HostGsBase => Some(host.gs_base),
        VmcsField::HostRsp => Some(stack),
        VmcsField::HostIa32Efer => Some(host.efer),
        VmcsField::HostRip => Some(host.exit_handler),
        _ => None,
    }
}

/// The value of a field that held `before` once a programming step has run
/// that sets it to `value`, or leaves it alone when `value` is `None`.
pub open spec fn programmed(before: u64, value: Option<u64>) -> u64 {
    match value {
        Some(v) => v,
        None => before,
    }
}

/// Programs the host state that the processor loads on every VM exit;
/// `stack` is the host stack pointer.
pub fn initialize_host_vmcs(vmcs: &mut ActiveVmcs, stack: u64, host: HostState) -> (r: Result<(), Error>)
    ensures
        r is Ok,
        forall|f: VmcsField| #[trigger] final(vmcs).field(f) == programmed(old(vmcs).field(f), host_field(f, host, stack)),
        final(vmcs).spec_frame() == old(vmcs).spec_frame(),
        final(vmcs).spec_vmx() == old(vmcs).spec_vmx(),
{
    vmcs.write_field(VmcsField::HostCr0, host.cr0)?;
    vmcs.write_field(VmcsField::HostCr3, host.cr3)?;
    vmcs.write_field(VmcsField::HostCr4, host.cr4)?;
    vmcs.write_field(VmcsField::HostCsSelector, host.code_selector)?;
    vmcs.write_field(VmcsField::HostSsSelector, host.data_selector)?;
    vmcs.write_field(VmcsField::HostDsSelector, host.data_selector)?;
    vmcs.write_field(VmcsField::HostEsSelector, host.data_selector)?;
    vmcs.write_field(VmcsField::HostFsSelector, host.data_selector)?;
    vmcs.write_field(VmcsField::HostGsSelector, host.data_selector)?;
    vmcs.write_field(VmcsField::HostTrSelector, host.data_selector)?;
    vmcs.write_field(VmcsField::HostIa32SysenterCs, 0)?;
    vmcs.write_field(VmcsField::HostIa32SysenterEsp, 0)?;
    vmcs.write_field(VmcsField::HostIa32SysenterEip, 0)?;
    vmcs.write_field(VmcsField::HostIdtrBase, host.idtr_base)?;
    vmcs.write_field(VmcsField::HostGdtrBase, host.gdtr_base)?;
    vmcs.write_field(VmcsField::HostFsBase, host.fs_base)?;
    vmcs.write_field(VmcsField::HostGsBase, host.gs_base)?;
    vmcs.write_field(VmcsField::HostRsp, stack)?;
    vmcs.write_field(VmcsField::HostIa32Efer, host.efer)?;
    vmcs.write_field(VmcsField::HostRip, host.exit_handler)?;
    Ok(())
}

/// CR0.PE, protection enable.
pub const CR0_PE: u64 = 0x1;
/// CR0.PG, paging.
pub const CR0_PG: u64 = 0x8000_0000;

/// The CR0 that the guest starts with: the bits that VMX operation fixes to
/// 1, without protection and paging, which unrestricted guests may clear.
pub open spec fn guest_cr0(vmx: Vmx) -> u64 {
    vmx.cr0_fixed0 & !CR0_PE & !CR0_PG
}

/// The value of a guest-state field after `initialize_guest_vmcs`, for the
/// fields it programs: a real-mode power-on state that starts at
/// 0xFFFF_FFF0 (CS base 0xFFFF_0000, IP 0xFFF0).
pub open spec fn guest_field(f: VmcsField, vmx: Vmx) -> Option<u64> {
    match f {
        VmcsField::GuestEsSelector => Some(0),
        VmcsField::GuestCsSelector => Some(0xf000),
        VmcsField::GuestSsSelector => Some(0),
        VmcsField::GuestDsSelector => Some(0),
        VmcsField::GuestFsSelector => Some(0),
        VmcsField::GuestGsSelector => Some(0),
        VmcsField::GuestTrSelector => Some(0),
        VmcsField::GuestLdtrSelector => Some(0),
        VmcsField::GuestEsBase => Some(0),
        VmcsField::GuestCsBase => Some(0xffff_0000),
        VmcsField::GuestSsBase => Some(0),
        VmcsField::GuestDsBase => Some(0),
        VmcsField::GuestFsBase => Some(0),
        VmcsField::GuestGsBase => Some(0),
        VmcsField::GuestTrBase => Some(0),
        VmcsField::GuestLdtrBase => Some(0),
        VmcsField::GuestIdtrBase => Some(0),
        VmcsField::GuestGdtrBase => Some(0),
        VmcsField::GuestEsLimit => Some(0xffff),
        VmcsField::GuestCsLimit => Some(0xffff),
        VmcsField::GuestSsLimit => Some(0xffff),
        VmcsField::GuestDsLimit => Some(0xffff),
        VmcsField::GuestFsLimit => Some(0xffff),
        VmcsField::GuestGsLimit => Some(0xffff),
        VmcsField::GuestTrLimit => Some(0xffff),
        VmcsField::GuestLdtrLimit => Some(0xffff),
        VmcsField::GuestIdtrLimit => Some(0xffff),
        VmcsField::GuestGdtrLimit => Some(0xffff),
        VmcsField::GuestEsArBytes => Some(0x93),
        VmcsField::GuestSsArBytes => Some(0x93),
        VmcsField::GuestDsArBytes => Some(0x93),
        VmcsField::GuestFsArBytes => Some(0x93),
        VmcsField::GuestGsArBytes => Some(0x93),
        VmcsField::GuestCsArBytes => Some(0x9b),
        VmcsField::GuestLdtrArBytes => Some(0x82),
        VmcsField::GuestTrArBytes => Some(0x8b),
        VmcsField::GuestInterruptibilityInfo => Some(0),
        VmcsField::GuestActivityState => Some(0),
        VmcsField::GuestDr7 => Some(0),
        VmcsField::GuestRsp => Some(0),
        VmcsField::GuestRflags => Some(0x2),
        VmcsField::VmcsLinkPointer => Some(0xffff_ffff),
        VmcsField::VmcsLinkPointerHigh => Some(0xffff_ffff),
        VmcsField::GuestIa32Efer => Some(0),
        VmcsField::Cr0GuestHostMask => Some(guest_cr0(vmx) & 0xffff_ffff),
        VmcsField::Cr4GuestHostMask => Some(vmx.cr4_fixed0 & 0xffff_ffff),
        VmcsField::GuestCr0 => Some(guest_cr0(vmx)),
        VmcsField::GuestCr4 => Some(vmx.cr4_fixed0),
        VmcsField::Cr0ReadShadow => Some(0),
        VmcsField::Cr4ReadShadow => Some(0),
        VmcsField::GuestCr3 => Some(0),
        VmcsField::GuestRip => Some(0xfff0),
        _ => None,
    }
}

/// Programs the guest state for a real-mode power-on, with CR0 and CR4 and
/// their guest/host masks taken from the fixed-0 capability MSRs.
#[verifier::rlimit(50)]
pub fn initialize_guest_vmcs(vmcs: &mut ActiveVmcs) -> (r: Result<(), Error>)
    ensures
        r is Ok,
        forall|f: VmcsField| #[trigger] final(vmcs).field(f)
            == programmed(old(vmcs).field(f), guest_field(f, old(vmcs).spec_vmx())),
        final(vmcs).spec_frame() == old(vmcs).spec_frame(),
        final(vmcs).spec_vmx() == old(vmcs).spec_vmx(),
{
    vmcs.write_field(VmcsField::GuestEsSelector, 0x00)?;
    vmcs.write_field(VmcsField::GuestCsSelector, 0xf000)?;
    vmcs.write_field(VmcsField::GuestSsSelector, 0x00)?;
    vmcs.write_field(VmcsField::GuestDsSelector, 0x00)?;
    vmcs.write_field(VmcsField::GuestFsSelector, 0x00)?;
    vmcs.write_field(VmcsField::GuestGsSelector, 0x00)?;
    vmcs.write_field(VmcsField::GuestTrSelector, 0x00)?;
    vmcs.write_field(VmcsField::GuestLdtrSelector, 0x00)?;
    vmcs.write_field(VmcsField::GuestEsBase, 0x00)?;
    vmcs.write_field(VmcsField::GuestCsBase, 0xffff_0000)?;
    vmcs.write_field(VmcsField::GuestSsBase, 0x00)?;
    vmcs.write_field(VmcsField::GuestDsBase, 0x00)?;
    vmcs.write_field(VmcsField::GuestFsBase, 0x00)?;
    vmcs.write_field(VmcsField::GuestGsBase, 0x00)?;
    vmcs.write_field(VmcsField::GuestTrBase, 0x00)?;
    vmcs.write_field(VmcsField::GuestLdtrBase, 0x00)?;
    vmcs.write_field(VmcsField::GuestIdtrBase, 0x00)?;
    vmcs.write_field(VmcsField::GuestGdtrBase, 0x00)?;
    vmcs.write_field(VmcsField::GuestEsLimit, 0xffff)?;
    vmcs.write_field(VmcsField::GuestCsLimit, 0xffff)?;
    vmcs.write_field(VmcsField::GuestSsLimit, 0xffff)?;
    vmcs.write_field(VmcsField::GuestDsLimit, 0xffff)?;
    vmcs.write_field(VmcsField::GuestFsLimit, 0xffff)?;
    vmcs.write_field(VmcsField::GuestGsLimit, 0xffff)?;
    vmcs.write_field(VmcsField::GuestTrLimit, 0xffff)?;
    vmcs.write_field(VmcsField::GuestLdtrLimit, 0xffff)?;
    vmcs.write_field(VmcsField::GuestIdtrLimit, 0xffff)?;
    vmcs.write_field(VmcsField::GuestGdtrLimit, 0xffff)?;
    // Data segments read/write, code execute/read, LDT, busy TSS.
    vmcs.write_field(VmcsField::GuestEsArBytes, 0x0093)?;
    vmcs.write_field(VmcsField::GuestSsArBytes, 0x0093)?;
    vmcs.write_field(VmcsField::GuestDsArBytes, 0x0093)?;
    vmcs.write_field(VmcsField::GuestFsArBytes, 0x0093)?;
    vmcs.write_field(VmcsField::GuestGsArBytes, 0x0093)?;
    vmcs.write_field(VmcsField::GuestCsArBytes, 0x009b)?;
    vmcs.write_field(VmcsField::GuestLdtrArBytes, 0x0082)?;
    vmcs.write_field(VmcsField::GuestTrArBytes, 0x008b)?;
    vmcs.write_field(VmcsField::GuestInterruptibilityInfo, 0x00)?;
    vmcs.write_field(VmcsField::GuestActivityState, 0x00)?;
    vmcs.write_field(VmcsField::GuestDr7, 0x00)?;
    vmcs.write_field(VmcsField::GuestRsp, 0x00)?;
    // Only the reserved bit of RFLAGS.
    vmcs.write_field(VmcsField::GuestRflags, 0x2)?;
    vmcs.write_field(VmcsField::VmcsLinkPointer, 0xffff_ffff)?;
    vmcs.write_field(VmcsField::VmcsLinkPointerHigh, 0xffff_ffff)?;
    vmcs.write_field(VmcsField::GuestIa32Efer, 0x00)?;
    let vmx = vmcs.vmx();
    let cr0 = vmx.cr0_fixed0 & !CR0_PE & !CR0_PG;
    let cr4 = vmx.cr4_fixed0;
    vmcs.write_field(VmcsField::Cr0GuestHostMask, cr0 & 0xffff_ffff)?;
    vmcs.write_field(VmcsField::Cr4GuestHostMask, cr4 & 0xffff_ffff)?;
    vmcs.write_field(VmcsField::GuestCr0, cr0)?;
    vmcs.write_field(VmcsField::GuestCr4, cr4)?;
    vmcs.write_field(VmcsField::Cr0ReadShadow, 0x00)?;
    vmcs.write_field(VmcsField::Cr4ReadShadow, 0x00)?;
    vmcs.write_field(VmcsField::GuestCr3, 0x00)?;
    vmcs.write_field(VmcsField::GuestRip, 0xfff0)?;
    Ok(())
}

/// The primary processor-based controls requested: unconditional I/O
/// exiting, TPR shadow, MSR bitmap, secondary controls.
pub const PRIMARY_CONTROLS: u64 = 0x9120_0000;
/// The secondary controls requested: APIC-access virtualization, EPT,
/// RDTSCP, VPID, INVPCID, unrestricted guest.
pub const SECONDARY_CONTROLS: u64 = 0x10ab;
/// The pin-based controls requested: external-interrupt exiting.
pub const PIN_CONTROLS: u64 = 0x1;
/// The VM-exit controls requested: 64-bit host, acknowledge interrupt on
/// exit, save guest EFER.
pub const EXIT_CONTROLS: u64 = 0x0010_8200;
/// The VM-entry controls requested: none beyond those the processor fixes.
pub const ENTRY_CONTROLS: u64 = 0;

/// Whether every requested control setting is allowed by `vmx`.
pub open spec fn controls_allowed(vmx: Vmx) -> bool {
    &&& fixed_write_allowed(vmx, PRIMARY_CONTROLS, IA32_VMX_PROCBASED_CTLS)
    &&& fixed_write_allowed(vmx, SECONDARY_CONTROLS, IA32_VMX_PROCBASED_CTLS2)
    &&& fixed_write_allowed(vmx, PIN_CONTROLS, IA32_VMX_PINBASED_CTLS)
    &&& fixed_write_allowed(vmx, EXIT_CONTROLS, IA32_VMX_EXIT_CTLS)
    &&& fixed_write_allowed(vmx, ENTRY_CONTROLS, IA32_VMX_ENTRY_CTLS)
}

/// The value of an execution-control field after `initialize_ctrl_vmcs`,
/// for the fields it programs.
pub open spec fn control_field(f: VmcsField, vmx: Vmx, core_id: u32, msr_bitmap: u64) -> Option<u64> {
    match f {
        VmcsField::CpuBasedVmExecControl => Some(fixed_write_value(vmx, PRIMARY_CONTROLS, IA32_VMX_PROCBASED_CTLS)),
        VmcsField::SecondaryVmExecControl => Some(
            fixed_write_value(vmx, SECONDARY_CONTROLS, IA32_VMX_PROCBASED_CTLS2),
        ),
        VmcsField::VirtualProcessorId => Some((core_id + 1) as u64),
        VmcsField::PinBasedVmExecControl => Some(fixed_write_value(vmx, PIN_CONTROLS, IA32_VMX_PINBASED_CTLS)),
        VmcsField::VmExitControls => Some(fixed_write_value(vmx, EXIT_CONTROLS, IA32_VMX_EXIT_CTLS)),
        VmcsField::VmEntryControls => Some(fixed_write_value(vmx, ENTRY_CONTROLS, IA32_VMX_ENTRY_CTLS)),
        VmcsField::MsrBitmap => Some(msr_bitmap),
        VmcsField::ExceptionBitmap => Some(0),
        VmcsField::Cr3TargetCount => Some(0),
        VmcsField::TprThreshold => Some(0),
        _ => None,
    }
}

/// Programs the execution controls through the capability MSRs, the VPID
/// (`core_id + 1`, as 0 is reserved), the MSR bitmap at `msr_bitmap`, and
/// no exception exits. Fails with `Error::Vmcs` when the processor does not
/// allow a requested control.
#[verifier::rlimit(50)]
pub fn initialize_ctrl_vmcs(vmcs: &mut ActiveVmcs, core_id: u32, msr_bitmap: u64) -> (r: Result<(), Error>)
    ensures
        r is Ok <==> controls_allowed(old(vmcs).spec_vmx()),
        r is Err ==> r->Err_0 is Vmcs,
        r is Ok ==> forall|f: VmcsField| #[trigger] final(vmcs).field(f)
            == programmed(old(vmcs).field(f), control_field(f, old(vmcs).spec_vmx(), core_id, msr_bitmap)),
        final(vmcs).spec_frame() == old(vmcs).spec_frame(),
        final(vmcs).spec_vmx() == old(vmcs).spec_vmx(),
{
    assert(PRIMARY_CONTROLS == CPU_UNCOND_IO_EXITING | CPU_TPR_SHADOW | CPU_ACTIVATE_MSR_BITMAP
        | CPU_ACTIVATE_SECONDARY_CONTROLS) by (bit_vector);
    assert(SECONDARY_CONTROLS == SEC_VIRTUALIZE_APIC_ACCESSES | SEC_ENABLE_EPT | SEC_ENABLE_RDTSCP
        | SEC_ENABLE_VPID | SEC_ENABLE_INVPCID | SEC_UNRESTRICTED_GUEST) by (bit_vector);
    assert(PIN_CONTROLS == PIN_EXT_INTR_EXIT);
    assert(EXIT_CONTROLS == EXIT_IA32E_MODE | EXIT_ACK_INTR_ON_EXIT | EXIT_SAVE_GUEST_EFER) by (bit_vector);
    vmcs.write_with_fixed(VmcsField::CpuBasedVmExecControl, PRIMARY_CONTROLS, IA32_VMX_PROCBASED_CTLS)?;
    vmcs.write_with_fixed(VmcsField::SecondaryVmExecControl, SECONDARY_CONTROLS, IA32_VMX_PROCBASED_CTLS2)?;
    vmcs.write_field(VmcsField::VirtualProcessorId, core_id as u64 + 1)?;
    vmcs.write_with_fixed(VmcsField::PinBasedVmExecControl, PIN_CONTROLS, IA32_VMX_PINBASED_CTLS)?;
    vmcs.write_with_fixed(VmcsField::VmExitControls, EXIT_CONTROLS, IA32_VMX_EXIT_CTLS)?;
    vmcs.write_with_fixed(VmcsField::VmEntryControls, ENTRY_CONTROLS, IA32_VMX_ENTRY_CTLS)?;
    vmcs.write_field(VmcsField::MsrBitmap, msr_bitmap)?;
    vmcs.write_field(VmcsField::ExceptionBitmap, 0)?;
    vmcs.write_field(VmcsField::Cr3TargetCount, 0)?;
    vmcs.write_field(VmcsField::TprThreshold, 0)?;
    Ok(())
}

/// The size of the MSR bitmap page.
pub const MSR_BITMAP_SIZE: usize = 4096;

/// The MSR bitmap page: reads of `IA32_APIC_BASE` (MSR 0x1B, bit 3 of byte 3
/// of the read-low quarter) exit, every other access passes through.
pub fn msr_bitmap() -> (r: Vec<u8>)
    ensures
        r@.len() == MSR_BITMAP_SIZE,
        forall|i: int| 0 <= i < MSR_BITMAP_SIZE ==> #[trigger] r@[i] == if i == 3 { 0x08u8 } else { 0u8 },
{
    let mut page: Vec<u8> = Vec::new();
    let mut i: usize = 0;
    while i < MSR_BITMAP_SIZE
        invariant
            i <= MSR_BITMAP_SIZE,
            page@.len() == i,
            forall|k: int| 0 <= k < i ==> #[trigger] page@[k] == if k == 3 { 0x08u8 } else { 0u8 },
        decreases MSR_BITMAP_SIZE - i,
    {
        if i == 3 {
            assert(1u8 << 3u8 == 0x08u8) by (bit_vector);
            page.push(1u8 << 3u8);
        } else {
            page.push(0);
        }
        i += 1;
    }
    page
}

} // verus!
