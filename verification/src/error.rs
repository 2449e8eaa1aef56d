//! The error taxonomy of the driver core.
//!
//! Every error is local to one call and carries no retry state. Across the
//! capability interface each error is flattened to descriptive text; inside
//! the core the structured cases below stay available to direct callers.

use vstd::prelude::*;

verus! {

/// What can go wrong while building a request or decoding a response.
#[derive(Debug, Clone, Copy, PartialEq, Eq, Structural)]
pub enum DriverError {
    /// The collect key has no entry in the dispatch table.
    UnknownKey,
    /// A complete frame arrived, but for a different operation than the one
    /// the collect key calls for.
    UnexpectedFrameType,
    /// The integrity check carried by the frame does not match the check
    /// computed over the frame's bytes: corrupted or garbled transmission.
    IntegrityCheckFailed,
    /// The frame parsed, but its payload lacks the registers the scaling
    /// step needs.
    InsufficientRegisters,
    /// Scaling produced a value the reading cannot represent.
    NonFiniteValue,
}

/// The descriptive text each error is flattened to at the capability
/// interface.
pub open spec fn error_text(e: DriverError) -> Seq<char> {
    match e {
        DriverError::UnknownKey => "unknown collect key"@,
        DriverError::UnexpectedFrameType => "unexpected frame type"@,
        DriverError::IntegrityCheckFailed => "integrity check failed"@,
        DriverError::InsufficientRegisters => "insufficient registers in response"@,
        DriverError::NonFiniteValue => "reading value is not finite"@,
    }
}

impl DriverError {
    /// The human-readable text for this error.
    pub fn message(&self) -> (r: String)
        ensures
            r@ == error_text(*self),
    {
        match self {
            DriverError::UnknownKey => String::from_str("unknown collect key"),
            DriverError::UnexpectedFrameType => String::from_str("unexpected frame type"),
            DriverError::IntegrityCheckFailed => String::from_str("integrity check failed"),
            DriverError::InsufficientRegisters => String::from_str(
                "insufficient registers in response",
            ),
            DriverError::NonFiniteValue => String::from_str("reading value is not finite"),
        }
    }
}

} // verus!
