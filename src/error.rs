use vstd::prelude::*;

verus! {

/// The ways in which the VCPU engine can fail.
#[derive(Clone, Copy, Debug, PartialEq, Eq)]
pub enum Error {
    /// The processor rejected a VMX operation, or a requested control bit is
    /// not allowed by the capability MSRs.
    Vmcs(&'static str),
    /// No physical frame could be allocated.
    AllocError(&'static str),
    /// A field held a combination of bits that has no meaning.
    InvalidValue(&'static str),
    /// No emulated device owns the port or address.
    MissingDevice(&'static str),
    /// No message was pending, or no serial device was owned.
    NotFound,
    /// A device operation or an interrupt routing update failed.
    DeviceError(&'static str),
    /// The guest exited for a reason that the engine has no handler for.
    UnhandledExit(u32),
}

} // verus!
