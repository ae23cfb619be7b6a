use snarcos_chain_extension::CallState;
use snarcos_chain_extension::HardFailure;
use snarcos_chain_extension::SnarcosChainExtension;
use snarcos_chain_extension::StoreOutcome;
use snarcos_chain_extension::SNARCOS_STORE_KEY_ERROR_UNKNOWN;
use snarcos_chain_extension::SNARCOS_STORE_KEY_FUNC_ID;
use snarcos_chain_extension::SNARCOS_STORE_KEY_IN_USE;
use snarcos_chain_extension::SNARCOS_STORE_KEY_OK;
use snarcos_chain_extension::SNARCOS_STORE_KEY_TOO_LONG_KEY;
use snarcos_chain_extension::VERIFICATION_KEY_IDENTIFIER_LENGTH;
use snarcos_chain_extension::decode_store_key_args;
use snarcos_chain_extension::key_length_of_total;
use snarcos_chain_extension::store_key_result_code;

#[test]
fn protocol_constants_are_stable() {
    assert_eq!(SNARCOS_STORE_KEY_FUNC_ID, 41);
    assert_eq!(SNARCOS_STORE_KEY_OK, 10_000);
    assert_eq!(SNARCOS_STORE_KEY_TOO_LONG_KEY, 10_001);
    assert_eq!(SNARCOS_STORE_KEY_IN_USE, 10_002);
    assert_eq!(SNARCOS_STORE_KEY_ERROR_UNKNOWN, 10_003);
    assert_eq!(VERIFICATION_KEY_IDENTIFIER_LENGTH, 8);
}

#[test]
fn dispatch_known_identifier_opens_session() {
    let session = SnarcosChainExtension::call(SNARCOS_STORE_KEY_FUNC_ID, 1024).unwrap();
    assert_eq!(session.state, CallState::AwaitLength);
    assert_eq!(session.max_key_length, 1024);
}

#[test]
fn dispatch_unknown_identifier_hard_fails() {
    for func_id in [0, 1, 40, 42, u32::MAX] {
        let r = SnarcosChainExtension::call(func_id, 1024);
        assert_eq!(r, Err(HardFailure::UnknownFuncId));
    }
}

#[test]
fn hard_failure_messages() {
    assert_eq!(HardFailure::UnknownFuncId.message(), "Unimplemented func_id");
    assert_eq!(HardFailure::DecodeFailed.message(), "Failed to decode arguments");
}

#[test]
fn each_store_outcome_has_its_code() {
    assert_eq!(store_key_result_code(StoreOutcome::Stored), SNARCOS_STORE_KEY_OK);
    assert_eq!(
        store_key_result_code(StoreOutcome::VerificationKeyTooLong),
        SNARCOS_STORE_KEY_TOO_LONG_KEY
    );
    assert_eq!(
        store_key_result_code(StoreOutcome::IdentifierAlreadyInUse),
        SNARCOS_STORE_KEY_IN_USE
    );
    assert_eq!(
        store_key_result_code(StoreOutcome::UnknownError),
        SNARCOS_STORE_KEY_ERROR_UNKNOWN
    );
}

#[test]
fn key_length_saturates_below_identifier_width() {
    assert_eq!(key_length_of_total(0), 0);
    assert_eq!(key_length_of_total(3), 0);
    assert_eq!(key_length_of_total(7), 0);
    assert_eq!(key_length_of_total(8), 0);
    assert_eq!(key_length_of_total(9), 1);
    assert_eq!(key_length_of_total(20), 12);
    assert_eq!(key_length_of_total(u32::MAX), u32::MAX - 8);
}

#[test]
fn decode_splits_identifier_and_key() {
    let bytes: Vec<u8> = vec![1, 2, 3, 4, 5, 6, 7, 8, 9, 10, 11, 12];
    let args = decode_store_key_args(bytes).unwrap();
    assert_eq!(args.identifier, vec![1, 2, 3, 4, 5, 6, 7, 8]);
    assert_eq!(args.key, vec![9, 10, 11, 12]);
}

#[test]
fn decode_accepts_empty_key() {
    let bytes: Vec<u8> = vec![1, 2, 3, 4, 5, 6, 7, 8];
    let args = decode_store_key_args(bytes).unwrap();
    assert_eq!(args.identifier, vec![1, 2, 3, 4, 5, 6, 7, 8]);
    assert_eq!(args.key, Vec::<u8>::new());
}

#[test]
fn decode_rejects_short_buffer() {
    assert_eq!(decode_store_key_args(vec![1, 2, 3, 4, 5, 6, 7]), Err(HardFailure::DecodeFailed));
    assert_eq!(decode_store_key_args(Vec::new()), Err(HardFailure::DecodeFailed));
}
