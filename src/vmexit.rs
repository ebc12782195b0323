//! What a VM exit hands to the VCPU: the guest's registers and the reason
//! for the exit.
use vstd::prelude::*;
use crate::virtdev::Port;

verus! {

/// The general-purpose registers of the guest, saved on a VM exit and
/// restored before the next entry.
#[derive(Clone, Copy, Debug, Default, PartialEq, Eq, Structural)]
pub struct GuestCpuState {
    pub cr2: u64,
    pub r15: u64,
    pub r14: u64,
    pub r13: u64,
    pub r12: u64,
    pub r11: u64,
    pub r10: u64,
    pub r9: u64,
    pub r8: u64,
    pub rbp: u64,
    pub rdi: u64,
    pub rsi: u64,
    pub rdx: u64,
    pub rcx: u64,
    pub rbx: u64,
    pub rax: u64,
}

/// The exit qualification of an I/O instruction.
#[derive(Clone, Copy, Debug, PartialEq, Eq, Structural)]
pub struct IoInstructionInformation {
    /// The access width in bytes.
    pub size: u8,
    /// Whether the guest reads the port (`in`, `ins`).
    pub input: bool,
    /// Whether this is a string instruction (`ins`, `outs`).
    pub string: bool,
    /// Whether the instruction has a REP prefix.
    pub rep: bool,
    /// The port.
    pub port: Port,
}

/// The exit qualification of a control-register access.
#[derive(Clone, Copy, Debug, PartialEq, Eq, Structural)]
pub struct CrInformation {
    pub qualification: u64,
}

/// The exit qualification of an EPT violation and the addresses involved.
#[derive(Clone, Copy, Debug, PartialEq, Eq, Structural)]
pub struct EptInformation {
    pub qualification: u64,
    pub guest_physical_address: u64,
    pub guest_linear_address: u64,
}

/// The exit qualification of an APIC access.
#[derive(Clone, Copy, Debug, PartialEq, Eq, Structural)]
pub struct ApicAccessInformation {
    pub qualification: u64,
}

/// The interruption information of an external-interrupt exit.
#[derive(Clone, Copy, Debug, PartialEq, Eq, Structural)]
pub struct ExternalInterruptInformation {
    pub vector: u8,
}

/// Why the guest exited, with what the exit reports.
#[derive(Clone, Copy, Debug, PartialEq, Eq, Structural)]
pub enum ExitInformation {
    RdMsr,
    ApicAccess(ApicAccessInformation),
    CrAccess(CrInformation),
    CpuId,
    IoInstruction(IoInstructionInformation),
    EptViolation(EptInformation),
    InterruptWindow,
    ExternalInterrupt(ExternalInterruptInformation),
    /// Any other basic exit reason; the engine has no handler for it.
    Other(u32),
}

/// A VM exit.
#[derive(Clone, Copy, Debug, PartialEq, Eq, Structural)]
pub struct ExitReason {
    pub info: ExitInformation,
}

/// Basic exit reason: external interrupt.
pub const EXIT_EXTERNAL_INTERRUPT: u64 = 1;
/// Basic exit reason: interrupt window.
pub const EXIT_INTERRUPT_WINDOW: u64 = 7;
/// Basic exit reason: CPUID.
pub const EXIT_CPUID: u64 = 10;
/// Basic exit reason: control-register access.
pub const EXIT_CR_ACCESS: u64 = 28;
/// Basic exit reason: I/O instruction.
pub const EXIT_IO_INSTRUCTION: u64 = 30;
/// Basic exit reason: RDMSR.
pub const EXIT_RDMSR: u64 = 31;
/// Basic exit reason: APIC access.
pub const EXIT_APIC_ACCESS: u64 = 44;
/// Basic exit reason: EPT violation.
pub const EXIT_EPT_VIOLATION: u64 = 48;

/// The I/O instruction described by an exit qualification: bits 2:0 hold
/// the width less one, bit 3 the direction (1 for `in`), bit 4 the string
/// form, bit 5 the REP prefix and bits 31:16 the port.
pub open spec fn spec_io_information(qualification: u64) -> IoInstructionInformation {
    IoInstructionInformation {
        size: ((qualification & 7) + 1) as u8,
        input: qualification & 8 != 0,
        string: qualification & 0x10 != 0,
        rep: qualification & 0x20 != 0,
        port: ((qualification >> 16u64) & 0xffff) as u16,
    }
}

/// Decodes the exit qualification of an I/O instruction.
pub fn io_information(qualification: u64) -> (r: IoInstructionInformation)
    ensures
        r == spec_io_information(qualification),
{
    assert(qualification & 7 <= 7) by (bit_vector);
    assert((qualification >> 16u64) & 0xffff <= 0xffff) by (bit_vector);
    IoInstructionInformation {
        size: ((qualification & 7) + 1) as u8,
        input: qualification & 8 != 0,
        string: qualification & 0x10 != 0,
        rep: qualification & 0x20 != 0,
        port: ((qualification >> 16u64) & 0xffff) as u16,
    }
}

/// The exit described by the exit-reason field `reason` and the exit
/// information fields that the processor filled.
pub open spec fn spec_decode_exit(
    reason: u64,
    qualification: u64,
    intr_info: u64,
    guest_physical: u64,
    guest_linear: u64,
) -> ExitReason {
    let basic = reason & 0xffff;
    let info = if basic == EXIT_EXTERNAL_INTERRUPT {
        ExitInformation::ExternalInterrupt(ExternalInterruptInformation { vector: (intr_info & 0xff) as u8 })
    } else if basic == EXIT_INTERRUPT_WINDOW {
        ExitInformation::InterruptWindow
    } else if basic == EXIT_CPUID {
        ExitInformation::CpuId
    } else if basic == EXIT_CR_ACCESS {
        ExitInformation::CrAccess(CrInformation { qualification })
    } else if basic == EXIT_IO_INSTRUCTION {
        ExitInformation::IoInstruction(spec_io_information(qualification))
    } else if basic == EXIT_RDMSR {
        ExitInformation::RdMsr
    } else if basic == EXIT_APIC_ACCESS {
        ExitInformation::ApicAccess(ApicAccessInformation { qualification })
    } else if basic == EXIT_EPT_VIOLATION {
        ExitInformation::EptViolation(
            EptInformation { qualification, guest_physical_address: guest_physical, guest_linear_address: guest_linear },
        )
    } else {
        ExitInformation::Other(basic as u32)
    };
    ExitReason { info }
}

/// Decodes a VM exit from the exit-reason field (its basic reason is bits
/// 15:0), the exit qualification, the exit interruption information (whose
/// bits 7:0 hold the vector of an acknowledged external interrupt) and the
/// guest-physical and guest-linear addresses.
pub fn decode_exit(reason: u64, qualification: u64, intr_info: u64, guest_physical: u64, guest_linear: u64) -> (r:
    ExitReason)
    ensures
        r == spec_decode_exit(reason, qualification, intr_info, guest_physical, guest_linear),
{
    let basic = reason & 0xffff;
    assert(reason & 0xffff <= 0xffff) by (bit_vector);
    assert(intr_info & 0xff <= 0xff) by (bit_vector);
    let info = if basic == EXIT_EXTERNAL_INTERRUPT {
        ExitInformation::ExternalInterrupt(ExternalInterruptInformation { vector: (intr_info & 0xff) as u8 })
    } else if basic == EXIT_INTERRUPT_WINDOW {
        ExitInformation::InterruptWindow
    } else if basic == EXIT_CPUID {
        ExitInformation::CpuId
    } else if basic == EXIT_CR_ACCESS {
        ExitInformation::CrAccess(CrInformation { qualification })
    } else if basic == EXIT_IO_INSTRUCTION {
        ExitInformation::IoInstruction(io_information(qualification))
    } else if basic == EXIT_RDMSR {
        ExitInformation::RdMsr
    } else if basic == EXIT_APIC_ACCESS {
        ExitInformation::ApicAccess(ApicAccessInformation { qualification })
    } else if basic == EXIT_EPT_VIOLATION {
        ExitInformation::EptViolation(
            EptInformation { qualification, guest_physical_address: guest_physical, guest_linear_address: guest_linear },
        )
    } else {
        ExitInformation::Other(basic as u32)
    };
    ExitReason { info }
}

} // verus!
