//! The store-key call as a state machine.
//!
//! The host environment owns every effect of a call: reading the declared
//! input length, charging weight, reading the byte buffer once, and invoking
//! the key-storage collaborator. This module owns every decision. A driver
//! performs the effect each [`CallAction`] asks for, feeds the result back
//! as a [`CallEvent`], and the machine decides the next step, in the fixed
//! order the protocol demands: length check, then charge, then the single
//! buffer read, then decode, then storage, then the result code.

use vstd::prelude::*;
use vstd::pervasive::unreached;

use crate::args::StoreKeyArgs;
use crate::args::StoreKeyArgsView;
use crate::args::decode_store_key_args;
use crate::args::decoded_args;
use crate::args::key_length_of;
use crate::args::key_length_of_total;
use crate::codes::ByteCount;
use crate::codes::HardFailure;
use crate::codes::SNARCOS_STORE_KEY_FUNC_ID;
use crate::codes::SNARCOS_STORE_KEY_TOO_LONG_KEY;
use crate::codes::VERIFICATION_KEY_IDENTIFIER_LENGTH;
use crate::outcome::StoreOutcome;
use crate::outcome::result_code_spec;
use crate::outcome::store_key_result_code;

verus! {

/// Where a store-key call stands. Every state is transient within one call;
/// [`CallState::Done`] and [`CallState::Failed`] are terminal and accept no
/// further event.
#[derive(Clone, Copy, Debug, PartialEq, Eq, Structural)]
pub enum CallState {
    /// The handler was selected; the declared input length is needed next.
    AwaitLength,
    /// The bounds guard passed; the weight charge for the variable portion
    /// must be applied before anything else.
    AwaitCharge { total_length: ByteCount },
    /// The charge is applied; the buffer may now be read, exactly once.
    AwaitBytes { total_length: ByteCount },
    /// The arguments were handed to the storage collaborator.
    AwaitOutcome,
    /// The call converged on a result code.
    Done { code: u32 },
    /// The call hard-failed on a protocol violation.
    Failed { failure: HardFailure },
}

/// What the environment reports back to the machine.
pub enum CallEvent {
    /// The declared total input length, from the environment's length
    /// accessor.
    LengthRead { total_length: ByteCount },
    /// The weight charge was applied.
    WeightCharged,
    /// The single buffer read completed with these bytes.
    BytesRead { bytes: Vec<u8> },
    /// The storage collaborator finished with this outcome.
    StoreCompleted { outcome: StoreOutcome },
}

/// Mathematical model of a [`CallEvent`].
pub enum CallEventView {
    LengthRead { total_length: ByteCount },
    WeightCharged,
    BytesRead { bytes: Seq<u8> },
    StoreCompleted { outcome: StoreOutcome },
}

impl View for CallEvent {
    type V = CallEventView;

    open spec fn view(&self) -> CallEventView {
        match self {
            CallEvent::LengthRead { total_length } => CallEventView::LengthRead {
                total_length: *total_length,
            },
            CallEvent::WeightCharged => CallEventView::WeightCharged,
            CallEvent::BytesRead { bytes } => CallEventView::BytesRead { bytes: bytes@ },
            CallEvent::StoreCompleted { outcome } => CallEventView::StoreCompleted {
                outcome: *outcome,
            },
        }
    }
}

/// What the environment must do next.
pub enum CallAction {
    /// Charge the weight the external cost estimator assigns to a variable
    /// portion of `key_length` bytes.
    ChargeWeight { key_length: ByteCount },
    /// Perform the single read of the input buffer, `byte_count` bytes.
    ReadBytes { byte_count: ByteCount },
    /// Hand the decoded arguments to the key-storage collaborator.
    StoreKey { args: StoreKeyArgs },
    /// Return this result code to the caller as a converging result.
    Converge { code: u32 },
    /// Abort the call with this hard failure.
    Fail { failure: HardFailure },
}

/// Mathematical model of a [`CallAction`].
pub enum CallActionView {
    ChargeWeight { key_length: ByteCount },
    ReadBytes { byte_count: ByteCount },
    StoreKey { args: StoreKeyArgsView },
    Converge { code: u32 },
    Fail { failure: HardFailure },
}

impl View for CallAction {
    type V = CallActionView;

    open spec fn view(&self) -> CallActionView {
        match self {
            CallAction::ChargeWeight { key_length } => CallActionView::ChargeWeight {
                key_length: *key_length,
            },
            CallAction::ReadBytes { byte_count } => CallActionView::ReadBytes {
                byte_count: *byte_count,
            },
            CallAction::StoreKey { args } => CallActionView::StoreKey { args: args@ },
            CallAction::Converge { code } => CallActionView::Converge { code: *code },
            CallAction::Fail { failure } => CallActionView::Fail { failure: *failure },
        }
    }
}

/// Which event a state accepts: each state of an open call expects exactly
/// the report of the action it asked for, and the buffer read returns
/// exactly the declared number of bytes. Terminal states accept nothing.
pub open spec fn state_accepts(state: CallState, event: CallEventView) -> bool {
    match (state, event) {
        (CallState::AwaitLength, CallEventView::LengthRead { .. }) => true,
        (CallState::AwaitCharge { .. }, CallEventView::WeightCharged) => true,
        (
            CallState::AwaitBytes { total_length },
            CallEventView::BytesRead { bytes },
        ) => bytes.len() == total_length,
        (CallState::AwaitOutcome, CallEventView::StoreCompleted { .. }) => true,
        _ => false,
    }
}

/// The transition function of a store-key call: the state and action that
/// follow from handling `event` in `state` under the configured maximum
/// key length.
pub open spec fn step_spec(
    state: CallState,
    event: CallEventView,
    max_key_length: u32,
) -> (CallState, CallActionView)
    recommends
        state_accepts(state, event),
{
    match (state, event) {
        (CallState::AwaitLength, CallEventView::LengthRead { total_length }) => {
            let key_length = key_length_of(total_length);
            if key_length > max_key_length {
                (
                    CallState::Done { code: SNARCOS_STORE_KEY_TOO_LONG_KEY },
                    CallActionView::Converge { code: SNARCOS_STORE_KEY_TOO_LONG_KEY },
                )
            } else {
                (
                    CallState::AwaitCharge { total_length },
                    CallActionView::ChargeWeight { key_length },
                )
            }
        },
        (CallState::AwaitCharge { total_length }, CallEventView::WeightCharged) => (
            CallState::AwaitBytes { total_length },
            CallActionView::ReadBytes { byte_count: total_length },
        ),
        (CallState::AwaitBytes { .. }, CallEventView::BytesRead { bytes }) => {
            if bytes.len() < VERIFICATION_KEY_IDENTIFIER_LENGTH {
                (
                    CallState::Failed { failure: HardFailure::DecodeFailed },
                    CallActionView::Fail { failure: HardFailure::DecodeFailed },
                )
            } else {
                (
                    CallState::AwaitOutcome,
                    CallActionView::StoreKey { args: decoded_args(bytes) },
                )
            }
        },
        (CallState::AwaitOutcome, CallEventView::StoreCompleted { outcome }) => (
            CallState::Done { code: result_code_spec(outcome) },
            CallActionView::Converge { code: result_code_spec(outcome) },
        ),
        _ => (state, CallActionView::Fail { failure: HardFailure::DecodeFailed }),
    }
}

/// One store-key call in progress, from dispatch to its result code or
/// hard failure.
#[derive(Clone, Copy, Debug, PartialEq, Eq, Structural)]
pub struct StoreKeyCall {
    /// Where the call stands.
    pub state: CallState,
    /// The configured maximum verification key length the bounds guard
    /// enforces.
    pub max_key_length: u32,
}

impl StoreKeyCall {
    /// Handles one event of the environment and decides the next action.
    pub fn step(&mut self, event: CallEvent) -> (action: CallAction)
        requires
            state_accepts(old(self).state, event@),
        ensures
            final(self).max_key_length == old(self).max_key_length,
            (final(self).state, action@) == step_spec(
                old(self).state,
                event@,
                old(self).max_key_length,
            ),
    {
        match event {
            CallEvent::LengthRead { total_length } => {
                let key_length = key_length_of_total(total_length);
                if key_length > self.max_key_length {
                    self.state = CallState::Done { code: SNARCOS_STORE_KEY_TOO_LONG_KEY };
                    CallAction::Converge { code: SNARCOS_STORE_KEY_TOO_LONG_KEY }
                } else {
                    self.state = CallState::AwaitCharge { total_length };
                    CallAction::ChargeWeight { key_length }
                }
            },
            CallEvent::WeightCharged => {
                let total_length = match self.state {
                    CallState::AwaitCharge { total_length } => total_length,
                    _ => unreached(),
                };
                self.state = CallState::AwaitBytes { total_length };
                CallAction::ReadBytes { byte_count: total_length }
            },
            CallEvent::BytesRead { bytes } => {
                match decode_store_key_args(bytes) {
                    Ok(args) => {
                        self.state = CallState::AwaitOutcome;
                        CallAction::StoreKey { args }
                    },
                    Err(failure) => {
                        self.state = CallState::Failed { failure };
                        CallAction::Fail { failure }
                    },
                }
            },
            CallEvent::StoreCompleted { outcome } => {
                let code = store_key_result_code(outcome);
                self.state = CallState::Done { code };
                CallAction::Converge { code }
            },
        }
    }
}

/// The chain extension: routes host calls by their numeric function
/// identifier and opens the store-key session for the one identifier it
/// recognizes.
pub struct SnarcosChainExtension;

impl SnarcosChainExtension {
    /// The dispatcher. Exactly one function identifier opens a store-key
    /// call; every other identifier hard-fails.
    pub fn call(func_id: u32, max_key_length: u32) -> (r: Result<StoreKeyCall, HardFailure>)
        ensures
            func_id == SNARCOS_STORE_KEY_FUNC_ID ==> r == Ok::<StoreKeyCall, HardFailure>(
                (StoreKeyCall { state: CallState::AwaitLength, max_key_length }),
            ),
            func_id != SNARCOS_STORE_KEY_FUNC_ID ==> r == Err::<StoreKeyCall, HardFailure>(
                HardFailure::UnknownFuncId,
            ),
    {
        if func_id == SNARCOS_STORE_KEY_FUNC_ID {
            Ok(Self::snarcos_store_key(max_key_length))
        } else {
            Err(HardFailure::UnknownFuncId)
        }
    }

    /// Opens a store-key call under the configured maximum key length: the
    /// machine first asks the environment for the declared input length.
    pub fn snarcos_store_key(max_key_length: u32) -> (session: StoreKeyCall)
        ensures
            session == (StoreKeyCall { state: CallState::AwaitLength, max_key_length }),
    {
        StoreKeyCall { state: CallState::AwaitLength, max_key_length }
    }
}

} // verus!
