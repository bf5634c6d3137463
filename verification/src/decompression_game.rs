//! The decompression game: the claim that compressed data holds the blocks
//! of a given range of heights.

use vstd::prelude::*;
use vstd::pervasive::unreached;
use vstd::slice::slice_to_vec;
use crate::common::{GameConfig, GameExecutor, GameProver, ProofArtifact, ProofView, VerifyingKey};
use crate::encoding::{
    lemma_prefixed_hex_round_trip,
    prefixed_hex,
    prefixed_hex_decode_spec,
    prefixed_hex_spec,
};
use crate::public_values::{decode_word_pair, first_word, is_word_pair, second_word};

verus! {

/// The decompression game, with the program that plays it.
#[derive(Clone, Copy, Debug)]
pub struct DecompressionGame {
    elf: &'static [u8],
}

/// One scenario of the decompression game, as the fixture catalogue
/// resolves it: the raw input of the program.
#[derive(Clone, Debug)]
pub struct Fixture {
    /// The raw input of the program.
    pub input: Vec<u8>,
}

/// What an on-chain verifier needs of one proof of the decompression
/// game.
#[derive(Clone, Debug)]
pub struct SolidityContext {
    /// The height of the first block: the first word of the public values.
    pub first_block_height: [u8; 32],
    /// The height of the last block: the second word of the public values.
    pub last_block_height: [u8; 32],
    /// The digest of the verifying key, as `0x` and 64 digits.
    pub vkey: String,
    /// The public values, as `0x` and two digits for each byte.
    pub public_values: String,
    /// The proof, as `0x` and two digits for each byte.
    pub proof: String,
}

/// What a [`SolidityContext`] holds.
pub struct SolidityContextView {
    pub first_block_height: Seq<u8>,
    pub last_block_height: Seq<u8>,
    pub vkey: Seq<char>,
    pub public_values: Seq<char>,
    pub proof: Seq<char>,
}

impl View for SolidityContext {
    type V = SolidityContextView;

    open spec fn view(&self) -> SolidityContextView {
        SolidityContextView {
            first_block_height: self.first_block_height@,
            last_block_height: self.last_block_height@,
            vkey: self.vkey@,
            public_values: self.public_values@,
            proof: self.proof@,
        }
    }
}

impl DecompressionGame {
    /// The game played by the program `elf`.
    pub fn new(elf: &'static [u8]) -> (game: Self)
        ensures
            game.elf_spec() == elf@,
    {
        DecompressionGame { elf }
    }
}

impl GameConfig for DecompressionGame {
    type Fixture = Fixture;

    type SolidityContext = SolidityContext;

    const NAME: &'static str = "decompression";

    closed spec fn elf_spec(&self) -> Seq<u8> {
        self.elf@
    }

    open spec fn fixture_input_spec(fixture: &Fixture) -> Seq<u8> {
        fixture.input@
    }

    open spec fn decodes(public_values: Seq<u8>) -> bool {
        is_word_pair(public_values)
    }

    open spec fn solidity_context_spec(proof: ProofView, key: Seq<u8>) -> SolidityContextView {
        SolidityContextView {
            first_block_height: first_word(proof.public_values),
            last_block_height: second_word(proof.public_values),
            vkey: prefixed_hex_spec(key),
            public_values: prefixed_hex_spec(proof.public_values),
            proof: prefixed_hex_spec(proof.bytes),
        }
    }

    fn elf(&self) -> (program: &'static [u8]) {
        self.elf
    }

    fn get_fixture_input(fixture: &Fixture) -> (input: Vec<u8>) {
        slice_to_vec(fixture.input.as_slice())
    }

    fn accepts_public_values(public_values: &[u8]) -> (accepted: bool) {
        decode_word_pair(public_values).is_some()
    }

    fn get_solidity_context(proof: &ProofArtifact, vk: &VerifyingKey) -> (context:
        SolidityContext) {
        let bytes = proof.public_values.as_slice();
        let (first_block_height, last_block_height) = match decode_word_pair(bytes) {
            Some(words) => words,
            None => unreached(),
        };
        SolidityContext {
            first_block_height,
            last_block_height,
            vkey: prefixed_hex(vk.digest.as_slice()),
            public_values: prefixed_hex(bytes),
            proof: prefixed_hex(proof.bytes.as_slice()),
        }
    }
}

/// The prover of the decompression game.
pub type DecompressionProver<P> = GameProver<P, DecompressionGame>;

/// The executor of the decompression game.
pub type DecompressionExecutor<E> = GameExecutor<E, DecompressionGame>;

/// The hexadecimal fields of a context, read back, give the public values
/// and the proof bytes that the context was made from, and the digest of
/// the key.
pub proof fn lemma_context_round_trip(proof: ProofView, key: Seq<u8>)
    ensures
        ({
            let context = DecompressionGame::solidity_context_spec(proof, key);
            &&& prefixed_hex_decode_spec(context.public_values) == Some(proof.public_values)
            &&& prefixed_hex_decode_spec(context.proof) == Some(proof.bytes)
            &&& prefixed_hex_decode_spec(context.vkey) == Some(key)
        }),
{
    lemma_prefixed_hex_round_trip(proof.public_values);
    lemma_prefixed_hex_round_trip(proof.bytes);
    lemma_prefixed_hex_round_trip(key);
}

} // verus!
