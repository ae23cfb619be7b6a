//! Function identifier, result codes, and the hard-failure channel.

use vstd::prelude::*;

verus! {

/// The one function identifier this extension recognizes; every other
/// identifier is rejected with a hard failure.
pub const SNARCOS_STORE_KEY_FUNC_ID: u32 = 41;

/// Result code: the key was stored successfully.
pub const SNARCOS_STORE_KEY_OK: u32 = 10_000;

/// Result code: the key is longer than the configured maximum.
pub const SNARCOS_STORE_KEY_TOO_LONG_KEY: u32 = 10_001;

/// Result code: the identifier is already registered.
pub const SNARCOS_STORE_KEY_IN_USE: u32 = 10_002;

/// Result code: the storage collaborator failed for any other reason.
pub const SNARCOS_STORE_KEY_ERROR_UNKNOWN: u32 = 10_003;

/// Width in bytes of a verification key identifier: the fixed-width prefix
/// of the input buffer.
pub const VERIFICATION_KEY_IDENTIFIER_LENGTH: u32 = 8;

/// Byte counts as reported by the call environment.
pub type ByteCount = u32;

/// The hard-failure channel: a protocol violation that aborts the call
/// instead of converging on a result code.
#[derive(Clone, Copy, Debug, PartialEq, Eq, Structural)]
pub enum HardFailure {
    /// The caller asked for a function this extension does not expose.
    UnknownFuncId,
    /// The input buffer passed the length check but could not be decoded
    /// into store-key arguments.
    DecodeFailed,
}

impl HardFailure {
    /// The diagnostic message carried by the failure.
    pub fn message(&self) -> (r: &'static str)
        ensures
            *self is UnknownFuncId ==> r@ == "Unimplemented func_id"@,
            *self is DecodeFailed ==> r@ == "Failed to decode arguments"@,
    {
        match self {
            HardFailure::UnknownFuncId => "Unimplemented func_id",
            HardFailure::DecodeFailed => "Failed to decode arguments",
        }
    }
}

} // verus!
