//! The store-key argument pair and the wire format it is decoded from.
//!
//! Wire format: the fixed-width verification key identifier comes first,
//! immediately followed by the variable-length key with no delimiter; the
//! key's length is implicit from the buffer boundary.

use vstd::prelude::*;

use crate::codes::HardFailure;
use crate::codes::VERIFICATION_KEY_IDENTIFIER_LENGTH;

verus! {

/// The argument pair of a store-key call, decoded from the raw input
/// buffer. It lives only for the duration of one call.
#[derive(Debug, Clone, PartialEq, Eq)]
pub struct StoreKeyArgs {
    /// Caller-chosen fixed-width name under which the key is registered.
    pub identifier: Vec<u8>,
    /// The variable-length verification key payload.
    pub key: Vec<u8>,
}

/// Mathematical model of a [`StoreKeyArgs`] value: both parts as byte
/// sequences.
pub struct StoreKeyArgsView {
    pub identifier: Seq<u8>,
    pub key: Seq<u8>,
}

impl View for StoreKeyArgs {
    type V = StoreKeyArgsView;

    open spec fn view(&self) -> StoreKeyArgsView {
        StoreKeyArgsView { identifier: self.identifier@, key: self.key@ }
    }
}

impl StoreKeyArgs {
    /// A well-formed argument pair carries an identifier of exactly the
    /// fixed width.
    pub open spec fn well_formed(self) -> bool {
        self.identifier@.len() == VERIFICATION_KEY_IDENTIFIER_LENGTH
    }
}

/// The arguments that decoding a buffer must yield: the fixed-width prefix
/// as the identifier and everything after it as the key.
pub open spec fn decoded_args(bytes: Seq<u8>) -> StoreKeyArgsView
    recommends
        bytes.len() >= VERIFICATION_KEY_IDENTIFIER_LENGTH,
{
    StoreKeyArgsView {
        identifier: bytes.subrange(0, VERIFICATION_KEY_IDENTIFIER_LENGTH as int),
        key: bytes.skip(VERIFICATION_KEY_IDENTIFIER_LENGTH as int),
    }
}

/// The length of the variable portion of an input buffer: the declared
/// total length minus the fixed identifier width, saturating at zero.
pub open spec fn key_length_of(total_length: u32) -> u32 {
    if total_length >= VERIFICATION_KEY_IDENTIFIER_LENGTH {
        (total_length - VERIFICATION_KEY_IDENTIFIER_LENGTH) as u32
    } else {
        0
    }
}

/// Computes [`key_length_of`] on the declared total length.
pub fn key_length_of_total(total_length: u32) -> (key_length: u32)
    ensures
        key_length == key_length_of(total_length),
{
    if total_length >= VERIFICATION_KEY_IDENTIFIER_LENGTH {
        total_length - VERIFICATION_KEY_IDENTIFIER_LENGTH
    } else {
        0
    }
}

/// Decodes a raw input buffer into store-key arguments: the first
/// [`VERIFICATION_KEY_IDENTIFIER_LENGTH`] bytes name the identifier and the
/// rest is the key. A buffer too short to hold an identifier is a protocol
/// violation and decoding hard-fails.
pub fn decode_store_key_args(bytes: Vec<u8>) -> (r: Result<StoreKeyArgs, HardFailure>)
    ensures
        bytes@.len() >= VERIFICATION_KEY_IDENTIFIER_LENGTH ==> (r matches Ok(args)
            && args@ == decoded_args(bytes@) && args.well_formed()),
        bytes@.len() < VERIFICATION_KEY_IDENTIFIER_LENGTH ==> (r matches Err(f)
            && f == HardFailure::DecodeFailed),
{
    let width: usize = VERIFICATION_KEY_IDENTIFIER_LENGTH as usize;
    if bytes.len() < width {
        return Err(HardFailure::DecodeFailed);
    }

    let mut identifier: Vec<u8> = Vec::new();
    let mut i: usize = 0;
    while i < width
        invariant
            i <= width,
            width == VERIFICATION_KEY_IDENTIFIER_LENGTH,
            bytes@.len() >= width,
            identifier@ == bytes@.subrange(0, i as int),
        decreases width - i,
    {
        identifier.push(bytes[i]);
        proof {
            assert(identifier@ =~= bytes@.subrange(0, i + 1));
        }
        i = i + 1;
    }

    let mut key: Vec<u8> = Vec::new();
    let mut j: usize = width;
    while j < bytes.len()
        invariant
            width <= j <= bytes@.len(),
            width == VERIFICATION_KEY_IDENTIFIER_LENGTH,
            key@ == bytes@.subrange(width as int, j as int),
        decreases bytes@.len() - j,
    {
        key.push(bytes[j]);
        proof {
            assert(key@ =~= bytes@.subrange(width as int, j + 1));
        }
        j = j + 1;
    }

    proof {
        assert(key@ =~= bytes@.skip(VERIFICATION_KEY_IDENTIFIER_LENGTH as int));
    }
    Ok(StoreKeyArgs { identifier, key })
}

/// A declared total length shorter than the fixed identifier width yields a
/// variable length of zero: the subtraction saturates instead of wrapping.
pub proof fn lemma_short_input_has_zero_key_length(total_length: u32)
    requires
        total_length < VERIFICATION_KEY_IDENTIFIER_LENGTH,
    ensures
        key_length_of(total_length) == 0,
{
}

/// The variable length grows with the declared total length.
pub proof fn lemma_key_length_monotone(total1: u32, total2: u32)
    requires
        total1 <= total2,
    ensures
        key_length_of(total1) <= key_length_of(total2),
{
}

} // verus!
