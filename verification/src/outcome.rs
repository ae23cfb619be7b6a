//! The storage collaborator's outcome and its translation to result codes.

use vstd::prelude::*;

use crate::codes::SNARCOS_STORE_KEY_ERROR_UNKNOWN;
use crate::codes::SNARCOS_STORE_KEY_IN_USE;
use crate::codes::SNARCOS_STORE_KEY_OK;
use crate::codes::SNARCOS_STORE_KEY_TOO_LONG_KEY;

verus! {

/// The outcome the external key-storage collaborator reports for one
/// store-key request.
#[derive(Clone, Copy, Debug, PartialEq, Eq, Structural)]
pub enum StoreOutcome {
    /// The key was registered under the identifier.
    Stored,
    /// The collaborator rejected the key against its own length limit.
    VerificationKeyTooLong,
    /// The identifier is already registered.
    IdentifierAlreadyInUse,
    /// Any other domain error of the collaborator.
    UnknownError,
}

/// The result code each storage outcome translates to.
pub open spec fn result_code_spec(outcome: StoreOutcome) -> u32 {
    match outcome {
        StoreOutcome::Stored => SNARCOS_STORE_KEY_OK,
        StoreOutcome::VerificationKeyTooLong => SNARCOS_STORE_KEY_TOO_LONG_KEY,
        StoreOutcome::IdentifierAlreadyInUse => SNARCOS_STORE_KEY_IN_USE,
        StoreOutcome::UnknownError => SNARCOS_STORE_KEY_ERROR_UNKNOWN,
    }
}

/// Translates the storage collaborator's outcome into the numeric result
/// code returned to the caller.
pub fn store_key_result_code(outcome: StoreOutcome) -> (code: u32)
    ensures
        code == result_code_spec(outcome),
{
    match outcome {
        StoreOutcome::Stored => SNARCOS_STORE_KEY_OK,
        StoreOutcome::VerificationKeyTooLong => SNARCOS_STORE_KEY_TOO_LONG_KEY,
        StoreOutcome::IdentifierAlreadyInUse => SNARCOS_STORE_KEY_IN_USE,
        StoreOutcome::UnknownError => SNARCOS_STORE_KEY_ERROR_UNKNOWN,
    }
}

/// Model of the storage collaborator's documented behaviour, over the set
/// of identifiers it has already registered: a key over its limit is
/// rejected as too long, a registered identifier is rejected as in use,
/// and otherwise the key is stored.
pub open spec fn store_outcome_model(
    registered: Set<Seq<u8>>,
    identifier: Seq<u8>,
    key_length: nat,
    store_max_key_length: nat,
) -> StoreOutcome {
    if key_length > store_max_key_length {
        StoreOutcome::VerificationKeyTooLong
    } else if registered.contains(identifier) {
        StoreOutcome::IdentifierAlreadyInUse
    } else {
        StoreOutcome::Stored
    }
}

/// The identifiers registered after the collaborator handles one request:
/// the identifier is added exactly when the key was stored.
pub open spec fn store_registered_after(
    registered: Set<Seq<u8>>,
    identifier: Seq<u8>,
    key_length: nat,
    store_max_key_length: nat,
) -> Set<Seq<u8>> {
    if store_outcome_model(registered, identifier, key_length, store_max_key_length)
        is Stored {
        registered.insert(identifier)
    } else {
        registered
    }
}

/// Two sequential valid calls with the same identifier: the first, against
/// a store where the identifier is free and with a key within the limit,
/// converges on the OK code; the second, whatever its key, converges on the
/// identifier-in-use code.
pub proof fn lemma_repeated_identifier_reported_in_use(
    registered: Set<Seq<u8>>,
    identifier: Seq<u8>,
    key1_length: nat,
    key2_length: nat,
    store_max_key_length: nat,
)
    requires
        !registered.contains(identifier),
        key1_length <= store_max_key_length,
        key2_length <= store_max_key_length,
    ensures
        result_code_spec(
            store_outcome_model(registered, identifier, key1_length, store_max_key_length),
        ) == SNARCOS_STORE_KEY_OK,
        result_code_spec(
            store_outcome_model(
                store_registered_after(registered, identifier, key1_length, store_max_key_length),
                identifier,
                key2_length,
                store_max_key_length,
            ),
        ) == SNARCOS_STORE_KEY_IN_USE,
{
    assert(registered.insert(identifier).contains(identifier));
}

} // verus!
