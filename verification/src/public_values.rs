//! The public values of the games: two ABI words of 32 bytes each, decoded
//! by the ABI codec in its validating mode.

use vstd::prelude::*;
use alloy_sol_types::sol_data::Uint;
use alloy_sol_types::SolType;

verus! {

/// The number of bytes in one ABI word.
pub const WORD_BYTES: usize = 32;

/// Whether `data` is the ABI encoding of two words: 64 bytes, no fewer and
/// no more.
pub open spec fn is_word_pair(data: Seq<u8>) -> bool {
    data.len() == 2 * WORD_BYTES
}

/// The first word of `data`.
pub open spec fn first_word(data: Seq<u8>) -> Seq<u8> {
    data.subrange(0, WORD_BYTES as int)
}

/// The second word of `data`.
pub open spec fn second_word(data: Seq<u8>) -> Seq<u8> {
    data.subrange(WORD_BYTES as int, 2 * WORD_BYTES)
}

/// Whether the ABI codec decodes `data` as two words: in its validating
/// mode it takes 64 bytes and nothing else, in its lenient mode it reads the
/// first 64 bytes and passes over the rest.
pub open spec fn codec_decodes(data: Seq<u8>, validate: bool) -> bool {
    if validate {
        data.len() == 2 * WORD_BYTES
    } else {
        data.len() >= 2 * WORD_BYTES
    }
}

/// Calls `SolType::abi_decode` of `alloy_sol_types` on the type
/// `(uint256, uint256)` and takes each number as its 32 bytes, most
/// significant first. Trusted: the codec reads two words in place, fails
/// where `data` is too short for them, and, when it validates, rejects what
/// it cannot encode back to the bytes it was given, which is any `data` of
/// more than 64 bytes; the two numbers are the two halves of the first 64
/// bytes.
#[verifier::external_body]
fn abi_decode_word_pair(data: &[u8], validate: bool) -> (words: Option<([u8; 32], [u8; 32])>)
    ensures
        words is Some <==> codec_decodes(data@, validate),
        words matches Some(w) ==> w.0@ == first_word(data@) && w.1@ == second_word(data@),
{
    match <(Uint<256>, Uint<256>)>::abi_decode(data, validate) {
        Ok((first, second)) => Some((first.to_be_bytes(), second.to_be_bytes())),
        Err(_) => None,
    }
}

/// Decodes public values strictly: `Some` exactly when `data` is two words
/// and nothing else, with the first and the second word. Bytes that are too
/// few or too many are refused, never cut or filled up.
pub fn decode_word_pair(data: &[u8]) -> (words: Option<([u8; 32], [u8; 32])>)
    ensures
        words is Some <==> is_word_pair(data@),
        words matches Some(w) ==> w.0@ == first_word(data@) && w.1@ == second_word(data@),
{
    abi_decode_word_pair(data, true)
}

} // verus!
