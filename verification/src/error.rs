//! Error taxonomy of the bridging layer.

use vstd::prelude::*;

verus! {

/// Every failure this layer can report.
///
/// Local validation failures are detected before any balance movement or
/// invocation; external failures are passed through without reinterpretation.
#[derive(Clone, Copy, Debug, PartialEq, Eq, Structural)]
pub enum ErrorCode {
    /// The fee consumes or exceeds the whole amount (`fee >= amount`).
    InvalidFee,
    /// Reserved for local validation of the destination domain; not enforced
    /// before dispatch today — the external program validates it.
    InvalidDestinationDomain,
    /// Reserved for local validation of the recipient address; not enforced
    /// before dispatch today — the external program validates it.
    InvalidRecipient,
    /// An externally owned program rejected the call (failed transfer,
    /// denylist hit, paused state, malformed account, bad PDA bump, ...).
    CctpTransferFailed,
}

impl ErrorCode {
    /// A human-readable description of the error.
    pub fn message(&self) -> &'static str {
        match self {
            ErrorCode::InvalidFee => "Fee must be less than total amount",
            ErrorCode::InvalidDestinationDomain => "Invalid destination domain",
            ErrorCode::InvalidRecipient => "Invalid recipient address",
            ErrorCode::CctpTransferFailed => "CCTP transfer failed",
        }
    }
}

} // verus!
