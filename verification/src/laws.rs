//! Properties of the whole call path, stated over the transition function.

use vstd::prelude::*;

use crate::args::decoded_args;
use crate::args::key_length_of;
use crate::args::lemma_key_length_monotone;
use crate::codes::HardFailure;
use crate::codes::SNARCOS_STORE_KEY_TOO_LONG_KEY;
use crate::codes::VERIFICATION_KEY_IDENTIFIER_LENGTH;
use crate::session::CallActionView;
use crate::session::CallEventView;
use crate::session::CallState;
use crate::outcome::StoreOutcome;
use crate::outcome::result_code_spec;
use crate::session::state_accepts;
use crate::session::step_spec;

verus! {

/// A variable portion over the configured maximum converges on the
/// too-long code straight from the length check: no weight is charged, the
/// buffer is never read, and the terminal state accepts no further event,
/// so the storage collaborator is never invoked.
pub proof fn lemma_oversized_key_rejected_before_any_work(
    total_length: u32,
    max_key_length: u32,
    later: CallEventView,
)
    requires
        key_length_of(total_length) > max_key_length,
    ensures
        step_spec(
            CallState::AwaitLength,
            (CallEventView::LengthRead { total_length }),
            max_key_length,
        ) == (
            (CallState::Done { code: SNARCOS_STORE_KEY_TOO_LONG_KEY }),
            (CallActionView::Converge { code: SNARCOS_STORE_KEY_TOO_LONG_KEY }),
        ),
        !state_accepts((CallState::Done { code: SNARCOS_STORE_KEY_TOO_LONG_KEY }), later),
{
}

/// A buffer that passes the length check but cannot be decoded hard-fails,
/// and only after the charge: the one path from the length check to the
/// decode passes through the charge action for exactly the variable
/// portion, and the charge is never revisited.
pub proof fn lemma_failed_decode_was_charged(
    total_length: u32,
    max_key_length: u32,
    bytes: Seq<u8>,
)
    requires
        key_length_of(total_length) <= max_key_length,
        bytes.len() == total_length,
        bytes.len() < VERIFICATION_KEY_IDENTIFIER_LENGTH,
    ensures
        step_spec(
            CallState::AwaitLength,
            (CallEventView::LengthRead { total_length }),
            max_key_length,
        ) == (
            (CallState::AwaitCharge { total_length }),
            (CallActionView::ChargeWeight { key_length: key_length_of(total_length) }),
        ),
        step_spec(
            (CallState::AwaitCharge { total_length }),
            CallEventView::WeightCharged,
            max_key_length,
        ) == (
            (CallState::AwaitBytes { total_length }),
            (CallActionView::ReadBytes { byte_count: total_length }),
        ),
        step_spec(
            (CallState::AwaitBytes { total_length }),
            (CallEventView::BytesRead { bytes }),
            max_key_length,
        ) == (
            (CallState::Failed { failure: HardFailure::DecodeFailed }),
            (CallActionView::Fail { failure: HardFailure::DecodeFailed }),
        ),
{
}

/// A call that passes the bounds guard and decodes runs the linear flow in
/// order — charge for exactly the variable portion, the single read of the
/// declared byte count, the decoded arguments handed to storage, and the
/// translated outcome as the converging result — and the terminal state
/// accepts no further event.
pub proof fn lemma_valid_call_runs_the_linear_flow(
    total_length: u32,
    max_key_length: u32,
    bytes: Seq<u8>,
    outcome: StoreOutcome,
    later: CallEventView,
)
    requires
        key_length_of(total_length) <= max_key_length,
        bytes.len() == total_length,
        bytes.len() >= VERIFICATION_KEY_IDENTIFIER_LENGTH,
    ensures
        step_spec(
            CallState::AwaitLength,
            (CallEventView::LengthRead { total_length }),
            max_key_length,
        ) == (
            (CallState::AwaitCharge { total_length }),
            (CallActionView::ChargeWeight { key_length: key_length_of(total_length) }),
        ),
        step_spec(
            (CallState::AwaitCharge { total_length }),
            CallEventView::WeightCharged,
            max_key_length,
        ) == (
            (CallState::AwaitBytes { total_length }),
            (CallActionView::ReadBytes { byte_count: total_length }),
        ),
        step_spec(
            (CallState::AwaitBytes { total_length }),
            (CallEventView::BytesRead { bytes }),
            max_key_length,
        ) == (
            CallState::AwaitOutcome,
            (CallActionView::StoreKey { args: decoded_args(bytes) }),
        ),
        step_spec(
            CallState::AwaitOutcome,
            (CallEventView::StoreCompleted { outcome }),
            max_key_length,
        ) == (
            (CallState::Done { code: result_code_spec(outcome) }),
            (CallActionView::Converge { code: result_code_spec(outcome) }),
        ),
        !state_accepts((CallState::Done { code: result_code_spec(outcome) }), later),
{
}

/// The bounds guard is inclusive: a variable portion of exactly the
/// configured maximum passes on to the charge, while one byte more
/// converges on the too-long code.
pub proof fn lemma_bounds_guard_is_inclusive(
    total_at_limit: u32,
    total_over_limit: u32,
    max_key_length: u32,
)
    requires
        key_length_of(total_at_limit) == max_key_length,
        key_length_of(total_over_limit) == max_key_length + 1,
    ensures
        step_spec(
            CallState::AwaitLength,
            (CallEventView::LengthRead { total_length: total_at_limit }),
            max_key_length,
        ) == (
            (CallState::AwaitCharge { total_length: total_at_limit }),
            (CallActionView::ChargeWeight { key_length: max_key_length }),
        ),
        step_spec(
            CallState::AwaitLength,
            (CallEventView::LengthRead { total_length: total_over_limit }),
            max_key_length,
        ) == (
            (CallState::Done { code: SNARCOS_STORE_KEY_TOO_LONG_KEY }),
            (CallActionView::Converge { code: SNARCOS_STORE_KEY_TOO_LONG_KEY }),
        ),
{
}

/// The charge grows with the declared total length: the machine charges
/// for exactly the variable portion, so under any cost estimator that is
/// non-decreasing in the byte count — which is what the external
/// collaborator supplies — a longer input is never charged less.
pub proof fn lemma_charge_monotone(
    cost: spec_fn(u32) -> u64,
    total1: u32,
    total2: u32,
)
    requires
        forall|a: u32, b: u32| a <= b ==> #[trigger] cost(a) <= #[trigger] cost(b),
        total1 <= total2,
    ensures
        cost(key_length_of(total1)) <= cost(key_length_of(total2)),
{
    lemma_key_length_monotone(total1, total2);
}

} // verus!
