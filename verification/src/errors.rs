//! The error taxonomy shared by the resource-management subsystems.

use vstd::prelude::*;

verus! {

/// Errors reported by the CPU, virtual-memory, interrupt and allocator
/// managers.
#[derive(Debug, Clone, Copy, PartialEq, Eq, Structural)]
pub enum KernelError {
    /// A lifecycle transition was requested that the subject is already in
    /// (starting a running core, re-enabling an interrupt at a different
    /// priority).
    AlreadyInState,
    /// A misaligned address, an out-of-range identifier or frequency, or a
    /// malformed request.
    InvalidParameter,
    /// An unmap was requested for an address with no resolved mapping.
    NotMapped,
    /// A bounded poll of a hardware status register exhausted its iteration
    /// budget.
    HardwareTimeout,
    /// The allocator could not satisfy a request even after compression.
    ResourceExhausted,
}

} // verus!
