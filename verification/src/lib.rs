//! A verified host-call bridge that lets sandboxed contract code register a
//! cryptographic verification key on its execution host.
//!
//! The library models one host call: a dispatcher routes a numeric function
//! identifier to the store-key handler, a bounds guard checks the declared
//! input length against the configured maximum key length, a meter charges
//! for the variable-length portion before any decoding, a decoder splits the
//! raw bytes into a fixed-width identifier and a variable-length key, and a
//! result translator maps the storage collaborator's outcome onto a stable
//! set of numeric result codes.
//!
//! The host environment itself (buffer transport, weight accounting, key
//! storage) is an external collaborator: a driver performs those effects and
//! feeds the resulting events to the verified call state machine,
//! [`StoreKeyCall`].

mod args;
mod codes;
mod laws;
mod outcome;
mod session;

pub use args::StoreKeyArgs;
pub use args::StoreKeyArgsView;
pub use args::decode_store_key_args;
pub use args::decoded_args;
pub use args::key_length_of;
pub use args::key_length_of_total;
pub use args::lemma_key_length_monotone;
pub use args::lemma_short_input_has_zero_key_length;
pub use codes::ByteCount;
pub use codes::HardFailure;
pub use codes::SNARCOS_STORE_KEY_ERROR_UNKNOWN;
pub use codes::SNARCOS_STORE_KEY_FUNC_ID;
pub use codes::SNARCOS_STORE_KEY_IN_USE;
pub use codes::SNARCOS_STORE_KEY_OK;
pub use codes::SNARCOS_STORE_KEY_TOO_LONG_KEY;
pub use codes::VERIFICATION_KEY_IDENTIFIER_LENGTH;
pub use laws::lemma_bounds_guard_is_inclusive;
pub use laws::lemma_charge_monotone;
pub use laws::lemma_failed_decode_was_charged;
pub use laws::lemma_oversized_key_rejected_before_any_work;
pub use laws::lemma_valid_call_runs_the_linear_flow;
pub use outcome::StoreOutcome;
pub use outcome::lemma_repeated_identifier_reported_in_use;
pub use outcome::result_code_spec;
pub use outcome::store_key_result_code;
pub use outcome::store_outcome_model;
pub use outcome::store_registered_after;
pub use session::CallAction;
pub use session::CallActionView;
pub use session::CallEvent;
pub use session::CallEventView;
pub use session::CallState;
pub use session::SnarcosChainExtension;
pub use session::StoreKeyCall;
pub use session::state_accepts;
pub use session::step_spec;
