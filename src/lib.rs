//! The virtual CPU engine of a VT-x hypervisor: VMCS programming, VM-exit
//! handling, port I/O emulation and guest interrupt injection.
pub mod controls;
pub mod error;
pub mod field;
pub mod interrupts;
pub mod portio;
pub mod setup;
pub mod vcpu;
pub mod virtdev;
pub mod vmcs;
pub mod vmexit;
