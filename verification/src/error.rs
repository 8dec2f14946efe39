//! Failure conditions surfaced by the protocol engine.

use vstd::prelude::*;

verus! {

/// An error reported by a protocol operation.
#[derive(Debug, Clone, Copy, PartialEq, Eq, Structural)]
pub enum Error {
    /// No correlated response arrived within the request deadline, or a read
    /// produced nothing before its timeout.
    Timeout,
    /// A response frame was too short for the payload expected at its offsets.
    ResponseTooShort,
    /// A light-configuration payload carried a discriminant outside its
    /// allowed range; treated as a protocol-desync signal for that call.
    InvalidLightConfig,
}

} // verus!
