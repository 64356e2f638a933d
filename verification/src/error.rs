//! Errors reported by the pulse-train driver.

use vstd::prelude::*;

verus! {

/// Why an operation of the driver failed.
#[derive(Clone, Copy, Debug, PartialEq, Eq, Structural)]
pub enum RmtError {
    /// A value lies outside its documented domain.
    InvalidArgument,
    /// Arithmetic left the representable range.
    Overflow,
    /// An index lies at or beyond the capacity of a buffer.
    IndexOutOfRange,
    /// The transmit engine refused a call; the field is its status code.
    EngineRejected(i32),
    /// The caller used a writer in a state that does not allow the operation.
    PreconditionViolation,
}

} // verus!
