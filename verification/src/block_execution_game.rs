//! The block execution game: the claim that a block, executed on a given
//! input, has a given identifier.

use vstd::prelude::*;
use vstd::pervasive::unreached;
use vstd::slice::slice_to_vec;
use crate::common::{GameConfig, GameExecutor, GameProver, ProofArtifact, ProofView, VerifyingKey};
use crate::encoding::{
    lemma_prefixed_hex_round_trip,
    prefixed_hex,
    prefixed_hex_decode_spec,
    prefixed_hex_spec,
};
use crate::public_values::{decode_word_pair, first_word, is_word_pair, second_word};

verus! {

/// The block execution game, with the program that plays it.
#[derive(Clone, Copy, Debug)]
pub struct BlockExecutionGame {
    elf: &'static [u8],
}

/// One scenario of the block execution game, as the fixture catalogue
/// resolves it: the raw input of the program.
#[derive(Clone, Debug)]
pub struct Fixture {
    /// The raw input of the program.
    pub input: Vec<u8>,
}

/// What an on-chain verifier needs of one proof of the block execution
/// game.
#[derive(Clone, Debug)]
pub struct SolidityContext {
    /// The identifier of the block: the second word of the public values.
    pub block_id: [u8; 32],
    /// The hash of the input: the first word of the public values.
    pub input_hash: [u8; 32],
    /// The digest of the verifying key, as `0x` and 64 digits.
    pub vkey: String,
    /// The public values, as `0x` and two digits for each byte.
    pub public_values: String,
    /// The proof, as `0x` and two digits for each byte.
    pub proof: String,
}

/// What a [`SolidityContext`] holds.
pub struct SolidityContextView {
    pub block_id: Seq<u8>,
    pub input_hash: Seq<u8>,
    pub vkey: Seq<char>,
    pub public_values: Seq<char>,
    pub proof: Seq<char>,
}

impl View for SolidityContext {
    type V = SolidityContextView;

    open spec fn view(&self) -> SolidityContextView {
        SolidityContextView {
            block_id: self.block_id@,
            input_hash: self.input_hash@,
            vkey: self.vkey@,
            public_values: self.public_values@,
            proof: self.proof@,
        }
    }
}

impl BlockExecutionGame {
    /// The game played by the program `elf`.
    pub fn new(elf: &'static [u8]) -> (game: Self)
        ensures
            game.elf_spec() == elf@,
    {
        BlockExecutionGame { elf }
    }
}

impl GameConfig for BlockExecutionGame {
    type Fixture = Fixture;

    type SolidityContext = SolidityContext;

    const NAME: &'static str = "block_execution";

    closed spec fn elf_spec(&self) -> Seq<u8> {
        self.elf@
    }

    open spec fn fixture_input_spec(fixture: &Fixture) -> Seq<u8> {
        fixture.input@
    }

    open spec fn decodes(public_values: Seq<u8>) -> bool {
        is_word_pair(public_values)
    }

    open spec fn solidity_context_spec(proof: ProofView, key: Seq<u8>) -> SolidityContextView {
        SolidityContextView {
            block_id: second_word(proof.public_values),
            input_hash: first_word(proof.public_values),
            vkey: prefixed_hex_spec(key),
            public_values: prefixed_hex_spec(proof.public_values),
            proof: prefixed_hex_spec(proof.bytes),
        }
    }

    fn elf(&self) -> (program: &'static [u8]) {
        self.elf
    }

    fn get_fixture_input(fixture: &Fixture) -> (input: Vec<u8>) {
        slice_to_vec(fixture.input.as_slice())
    }

    fn accepts_public_values(public_values: &[u8]) -> (accepted: bool) {
        decode_word_pair(public_values).is_some()
    }

    fn get_solidity_context(proof: &ProofArtifact, vk: &VerifyingKey) -> (context:
        SolidityContext) {
        let bytes = proof.public_values.as_slice();
        let (input_hash, block_id) = match decode_word_pair(bytes) {
            Some(words) => words,
            None => unreached(),
        };
        SolidityContext {
            block_id,
            input_hash,
            vkey: prefixed_hex(vk.digest.as_slice()),
            public_values: prefixed_hex(bytes),
            proof: prefixed_hex(proof.bytes.as_slice()),
        }
    }
}

/// The prover of the block execution game.
pub type BlockExecutionProver<P> = GameProver<P, BlockExecutionGame>;

/// The executor of the block execution game.
pub type BlockExecutionExecutor<E> = GameExecutor<E, BlockExecutionGame>;

/// The hexadecimal fields of a context, read back, give the public values
/// and the proof bytes that the context was made from, and the digest of
/// the key.
pub proof fn lemma_context_round_trip(proof: ProofView, key: Seq<u8>)
    ensures
        ({
            let context = BlockExecutionGame::solidity_context_spec(proof, key);
            &&& prefixed_hex_decode_spec(context.public_values) == Some(proof.public_values)
            &&& prefixed_hex_decode_spec(context.proof) == Some(proof.bytes)
            &&& prefixed_hex_decode_spec(context.vkey) == Some(key)
        }),
{
    lemma_prefixed_hex_round_trip(proof.public_values);
    lemma_prefixed_hex_round_trip(proof.bytes);
    lemma_prefixed_hex_round_trip(key);
}

} // verus!
