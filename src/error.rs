use vstd::prelude::*;

verus! {

/// Why an instruction or a stored record could not be decoded.
#[derive(Debug, Clone, Copy, PartialEq, Eq, Structural)]
pub enum DecodeErrorKind {
    /// The instruction data holds no byte at all.
    Empty,
    /// The leading byte names no known operation.
    UnknownOpcode,
    /// The Initialize payload is shorter than its fixed width.
    Truncated,
    /// The number of accounts supplied differs from what the operation needs.
    AccountCount,
    /// The record storage is shorter than the fixed record width.
    RecordTooShort,
    /// A boolean or presence byte of the record is neither 0 nor 1.
    InvalidTag,
}

/// The error kinds an invocation can fail with.
#[derive(Debug, Clone, Copy, PartialEq, Eq, Structural)]
pub enum EscrowError {
    /// Malformed instruction data, accounts or stored record.
    Decoding(DecodeErrorKind),
    /// A required signer did not sign.
    Authorization,
    /// The record region does not meet the funding-exemption threshold.
    FundingPolicy,
    /// The freelancer slot is already taken.
    StateConflict,
    /// Owner or freelancer identity does not match the record, or no
    /// freelancer is assigned yet.
    AuthorizationMismatch,
    /// Release was attempted before the release time.
    Timing,
}

} // verus!
