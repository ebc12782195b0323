//! Bits of the VMX control fields and of related guest state.
use vstd::prelude::*;

verus! {

/// Pin-based control: external interrupts cause VM exits.
pub const PIN_EXT_INTR_EXIT: u64 = 0x0000_0001;
/// Pin-based control: NMIs cause VM exits.
pub const PIN_NMI_EXITING: u64 = 0x0000_0008;
/// Pin-based control: virtual NMIs.
pub const PIN_VIRTUAL_NMIS: u64 = 0x0000_0020;
/// Pin-based control: activate the VMX-preemption timer.
pub const PIN_PREEMPT_TIMER: u64 = 0x0000_0040;
/// Pin-based control: process posted interrupts.
pub const PIN_POSTED_INTERRUPT: u64 = 0x0000_0080;

/// Primary control: exit as soon as the guest can take an interrupt.
pub const CPU_INTERRUPT_WINDOW_EXITING: u64 = 0x0000_0004;
/// Primary control: use TSC offsetting.
pub const CPU_USE_TSC_OFFSETING: u64 = 0x0000_0008;
/// Primary control: HLT exits.
pub const CPU_HLT_EXITING: u64 = 0x0000_0080;
/// Primary control: INVLPG exits.
pub const CPU_INVLPG_EXITING: u64 = 0x0000_0200;
/// Primary control: MWAIT exits.
pub const CPU_MWAIT_EXITING: u64 = 0x0000_0400;
/// Primary control: RDPMC exits.
pub const CPU_RDPMC_EXITING: u64 = 0x0000_0800;
/// Primary control: RDTSC exits.
pub const CPU_RDTSC_EXITING: u64 = 0x0000_1000;
/// Primary control: MOV to CR3 exits.
pub const CPU_CR3_LOAD_EXITING: u64 = 0x0000_8000;
/// Primary control: MOV from CR3 exits.
pub const CPU_CR3_STORE_EXITING: u64 = 0x0001_0000;
/// Primary control: MOV to CR8 exits.
pub const CPU_CR8_LOAD_EXITING: u64 = 0x0008_0000;
/// Primary control: MOV from CR8 exits.
pub const CPU_CR8_STORE_EXITING: u64 = 0x0010_0000;
/// Primary control: use the TPR shadow.
pub const CPU_TPR_SHADOW: u64 = 0x0020_0000;
/// Primary control: exit as soon as the guest can take an NMI.
pub const CPU_VIRTUAL_NMI_PENDING: u64 = 0x0040_0000;
/// Primary control: MOV DR exits.
pub const CPU_MOV_DR_EXITING: u64 = 0x0080_0000;
/// Primary control: every I/O instruction exits.
pub const CPU_UNCOND_IO_EXITING: u64 = 0x0100_0000;
/// Primary control: use the I/O bitmaps.
pub const CPU_ACTIVATE_IO_BITMAP: u64 = 0x0200_0000;
/// Primary control: monitor trap flag.
pub const CPU_MONITOR_TRAP_FLAG: u64 = 0x0800_0000;
/// Primary control: use the MSR bitmap.
pub const CPU_ACTIVATE_MSR_BITMAP: u64 = 0x1000_0000;
/// Primary control: MONITOR exits.
pub const CPU_MONITOR_EXITING: u64 = 0x2000_0000;
/// Primary control: PAUSE exits.
pub const CPU_PAUSE_EXITING: u64 = 0x4000_0000;
/// Primary control: the secondary controls are in use.
pub const CPU_ACTIVATE_SECONDARY_CONTROLS: u64 = 0x8000_0000;

/// VM-exit control: save debug controls.
pub const EXIT_SAVE_DEBUG_CNTRLS: u64 = 0x0000_0004;
/// VM-exit control: the host runs in IA-32e mode after an exit.
pub const EXIT_IA32E_MODE: u64 = 0x0000_0200;
/// VM-exit control: load IA32_PERF_GLOBAL_CTRL.
pub const EXIT_LOAD_PERF_GLOBAL_CTRL: u64 = 0x0000_1000;
/// VM-exit control: acknowledge the interrupt on exit.
pub const EXIT_ACK_INTR_ON_EXIT: u64 = 0x0000_8000;
/// VM-exit control: save the guest PAT.
pub const EXIT_SAVE_GUEST_PAT: u64 = 0x0004_0000;
/// VM-exit control: load the host PAT.
pub const EXIT_LOAD_HOST_PAT: u64 = 0x0008_0000;
/// VM-exit control: save the guest EFER.
pub const EXIT_SAVE_GUEST_EFER: u64 = 0x0010_0000;
/// VM-exit control: load the host EFER.
pub const EXIT_LOAD_HOST_EFER: u64 = 0x0020_0000;
/// VM-exit control: save the preemption timer value.
pub const EXIT_SAVE_PREEMPT_TIMER: u64 = 0x0040_0000;
/// VM-exit control: clear IA32_BNDCFGS.
pub const EXIT_CLEAR_BNDCFGS: u64 = 0x0080_0000;

/// VM-entry control: the guest runs in IA-32e mode.
pub const ENTRY_IA32E_MODE: u64 = 0x0000_0200;
/// VM-entry control: entry to SMM.
pub const ENTRY_SMM: u64 = 0x0000_0400;
/// VM-entry control: deactivate the dual-monitor treatment.
pub const ENTRY_DEACT_DUAL_MONITOR: u64 = 0x0000_0800;
/// VM-entry control: load IA32_PERF_GLOBAL_CTRL.
pub const ENTRY_LOAD_PERF_GLOBAL_CTRL: u64 = 0x0000_2000;
/// VM-entry control: load the guest PAT.
pub const ENTRY_LOAD_GUEST_PAT: u64 = 0x0000_4000;
/// VM-entry control: load the guest EFER.
pub const ENTRY_LOAD_GUEST_EFER: u64 = 0x0000_8000;
/// VM-entry control: load IA32_BNDCFGS.
pub const ENTRY_LOAD_BNDCFGS: u64 = 0x0001_0000;

/// Secondary control: virtualize APIC accesses.
pub const SEC_VIRTUALIZE_APIC_ACCESSES: u64 = 0x0000_0001;
/// Secondary control: enable EPT.
pub const SEC_ENABLE_EPT: u64 = 0x0000_0002;
/// Secondary control: descriptor-table exiting.
pub const SEC_DESCRIPTOR_TABLE_EXITING: u64 = 0x0000_0004;
/// Secondary control: enable RDTSCP.
pub const SEC_ENABLE_RDTSCP: u64 = 0x0000_0008;
/// Secondary control: virtualize x2APIC mode.
pub const SEC_VIRTUALIZE_X2APIC_MODE: u64 = 0x0000_0010;
/// Secondary control: enable VPID.
pub const SEC_ENABLE_VPID: u64 = 0x0000_0020;
/// Secondary control: WBINVD exits.
pub const SEC_WBINVD_EXITING: u64 = 0x0000_0040;
/// Secondary control: unrestricted guest.
pub const SEC_UNRESTRICTED_GUEST: u64 = 0x0000_0080;
/// Secondary control: APIC-register virtualization.
pub const SEC_APIC_REGISTER_VIRT: u64 = 0x0000_0100;
/// Secondary control: virtual-interrupt delivery.
pub const SEC_VIRTUAL_INTR_DELIVERY: u64 = 0x0000_0200;
/// Secondary control: PAUSE-loop exiting.
pub const SEC_PAUSE_LOOP_EXITING: u64 = 0x0000_0400;
/// Secondary control: enable INVPCID.
pub const SEC_ENABLE_INVPCID: u64 = 0x0000_1000;
/// Secondary control: enable VM functions.
pub const SEC_ENABLE_VM_FUNCTIONS: u64 = 0x0000_2000;
/// Secondary control: VMCS shadowing.
pub const SEC_ENABLE_VMCS_SHADOWING: u64 = 0x0000_4000;
/// Secondary control: page-modification logging.
pub const SEC_ENABLE_PML: u64 = 0x0002_0000;
/// Secondary control: EPT-violation #VE.
pub const SEC_ENABLE_VIRT_EXCEPTIONS: u64 = 0x0004_0000;
/// Secondary control: enable XSAVES/XRSTORS.
pub const SEC_XSAVES: u64 = 0x0010_0000;
/// Secondary control: TSC scaling.
pub const SEC_TSC_SCALING: u64 = 0x0200_0000;

/// Guest interruptibility: blocking by STI.
pub const BLOCKING_BY_STI: u64 = 0x1;
/// Guest interruptibility: blocking by MOV SS.
pub const BLOCKING_BY_MOV_SS: u64 = 0x2;
/// Guest interruptibility: blocking by SMI.
pub const BLOCKING_BY_SMI: u64 = 0x4;
/// Guest interruptibility: blocking by NMI.
pub const BLOCKING_BY_NMI: u64 = 0x8;
/// Guest interruptibility: enclave interruption.
pub const ENCLAVE_INTERRUPTION: u64 = 0x10;
/// Every bit that the guest interruptibility field defines.
pub const INTERRUPTIBILITY_DEFINED: u64 = 0x1f;

/// The interrupt-enable flag of RFLAGS (bit 9).
pub const RFLAGS_IF: u64 = 0x200;

} // verus!
