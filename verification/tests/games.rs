use fuel_proving_games_sp1::block_execution_game::{
    BlockExecutionGame, Fixture as BlockFixture, SolidityContext as BlockContext,
};
use fuel_proving_games_sp1::common::{
    ExecutionReport, GameConfig, GameExecutor, GameProver, ProofArtifact, ProvingMode, VerifyingKey,
};
use fuel_proving_games_sp1::decompression_game::{
    DecompressionGame, Fixture as BlobFixture, SolidityContext as BlobContext,
};
use fuel_proving_games_sp1::encoding::decode_prefixed_hex;
use fuel_proving_games_sp1::lifecycle::{BackendEvent, ProveState, ProverAction};
use fuel_proving_games_sp1::naming::{file_name_for_stem, fixture_file_name};
use fuel_proving_games_sp1::Error;

const BLOCK_ELF: &[u8] = &[0x7f, 0x45, 0x4c, 0x46, 0xb1];
const BLOB_ELF: &[u8] = &[0x7f, 0x45, 0x4c, 0x46, 0xd2, 0xd3];

fn counting(from: u8, len: usize) -> Vec<u8> {
    (0..len).map(|i| from.wrapping_add(i as u8)).collect()
}

fn sample_proof() -> ProofArtifact {
    ProofArtifact { bytes: vec![0x11, 0x22, 0x33, 0x44, 0xfe], public_values: counting(0, 64) }
}

fn sample_key() -> VerifyingKey {
    let mut digest = [0u8; 32];
    digest[1] = 0x2b;
    digest[31] = 0xc4;
    VerifyingKey { digest }
}

#[test]
fn the_default_mode_is_core() {
    assert_eq!(ProvingMode::default(), ProvingMode::Core);
}

#[test]
fn only_the_wrapping_modes_reach_the_chain() {
    assert!(ProvingMode::Groth16.is_onchain());
    assert!(ProvingMode::Plonk.is_onchain());
    assert!(!ProvingMode::Core.is_onchain());
}

#[test]
fn the_games_have_their_names_and_programs() {
    assert_eq!(BlockExecutionGame::NAME, "block_execution");
    assert_eq!(DecompressionGame::NAME, "decompression");
    assert_eq!(BlockExecutionGame::new(BLOCK_ELF).elf(), BLOCK_ELF);
    assert_eq!(DecompressionGame::new(BLOB_ELF).elf(), BLOB_ELF);
    let game = BlockExecutionGame::new(BLOCK_ELF);
    assert_eq!(game.elf(), game.elf());
}

#[test]
fn the_input_of_a_fixture_is_what_the_catalogue_resolved() {
    let fixture = BlockFixture { input: vec![4, 5, 6] };
    assert_eq!(BlockExecutionGame::get_fixture_input(&fixture), vec![4, 5, 6]);
    let fixture = BlobFixture { input: vec![] };
    assert_eq!(DecompressionGame::get_fixture_input(&fixture), Vec::<u8>::new());
}

#[test]
fn public_values_are_two_words_and_nothing_else() {
    for len in [0usize, 1, 31, 32, 33, 63, 65, 96, 128] {
        assert!(!BlockExecutionGame::accepts_public_values(&vec![0u8; len]), "{}", len);
        assert!(!DecompressionGame::accepts_public_values(&vec![0xffu8; len]), "{}", len);
    }
    assert!(BlockExecutionGame::accepts_public_values(&[0u8; 64]));
    assert!(BlockExecutionGame::accepts_public_values(&[0xffu8; 64]));
    assert!(DecompressionGame::accepts_public_values(&counting(7, 64)));
}

#[test]
fn the_block_execution_context_holds_the_decoded_words_and_the_hex_fields() {
    let context: BlockContext = BlockExecutionGame::get_solidity_context(&sample_proof(), &sample_key());
    assert_eq!(context.input_hash.to_vec(), counting(0, 32));
    assert_eq!(context.block_id.to_vec(), counting(32, 32));
    assert_eq!(
        context.vkey,
        "0x002b0000000000000000000000000000000000000000000000000000000000c4"
    );
    assert_eq!(
        context.public_values,
        "0x000102030405060708090a0b0c0d0e0f101112131415161718191a1b1c1d1e1f\
         202122232425262728292a2b2c2d2e2f303132333435363738393a3b3c3d3e3f"
    );
    assert_eq!(context.proof, "0x11223344fe");
}

#[test]
fn the_decompression_context_holds_the_heights_in_order() {
    let mut public_values = vec![0u8; 64];
    public_values[28..32].copy_from_slice(&14_133_451u32.to_be_bytes());
    public_values[60..64].copy_from_slice(&14_136_885u32.to_be_bytes());
    let proof = ProofArtifact { bytes: vec![0xab], public_values: public_values.clone() };
    let context: BlobContext = DecompressionGame::get_solidity_context(&proof, &sample_key());
    let mut first = [0u8; 32];
    first[28..].copy_from_slice(&[0x00, 0xd7, 0xa8, 0xcb]);
    let mut last = [0u8; 32];
    last[28..].copy_from_slice(&[0x00, 0xd7, 0xb6, 0x35]);
    assert_eq!(context.first_block_height, first);
    assert_eq!(context.last_block_height, last);
    assert_eq!(context.proof, "0xab");
    assert_eq!(context.public_values.len(), 2 + 128);
    assert_eq!(context.vkey.len(), 66);
}

#[test]
fn the_hex_fields_of_a_context_read_back_to_what_they_were_made_from() {
    let proof = sample_proof();
    let key = sample_key();
    let context = BlockExecutionGame::get_solidity_context(&proof, &key);
    assert_eq!(decode_prefixed_hex(&context.public_values), Some(proof.public_values.clone()));
    assert_eq!(decode_prefixed_hex(&context.proof), Some(proof.bytes.clone()));
    assert_eq!(decode_prefixed_hex(&context.vkey), Some(key.digest.to_vec()));
    let context = DecompressionGame::get_solidity_context(&proof, &key);
    assert_eq!(decode_prefixed_hex(&context.public_values), Some(proof.public_values.clone()));
    assert_eq!(decode_prefixed_hex(&context.proof), Some(proof.bytes.clone()));
    assert_eq!(decode_prefixed_hex(&context.vkey), Some(key.digest.to_vec()));
}

#[test]
fn an_empty_proof_gives_the_bare_prefix() {
    let proof = ProofArtifact { bytes: vec![], public_values: vec![0; 64] };
    let context = BlockExecutionGame::get_solidity_context(&proof, &VerifyingKey { digest: [0; 32] });
    assert_eq!(context.proof, "0x");
    assert_eq!(context.vkey, format!("0x{}", "0".repeat(64)));
    assert_eq!(context.block_id, [0u8; 32]);
}

#[test]
fn fixture_files_are_named_after_the_game_in_lower_case() {
    assert_eq!(fixture_file_name(BlockExecutionGame::NAME), "block_execution-fixture.json");
    assert_eq!(fixture_file_name(DecompressionGame::NAME), "decompression-fixture.json");
    assert_eq!(fixture_file_name("Block_Execution"), "block_execution-fixture.json");
    assert_eq!(fixture_file_name("DECOMPRESSION"), "decompression-fixture.json");
    assert_eq!(fixture_file_name(""), "-fixture.json");
    assert_eq!(file_name_for_stem("Kept As Given".to_string()), "Kept As Given-fixture.json");
}

#[test]
fn the_export_names_the_directory_the_file_and_the_context() {
    let prover = GameProver::new((), BlockExecutionGame::new(BLOCK_ELF));
    let export = prover.create_solidity_fixture(&sample_proof(), &sample_key(), "contracts/");
    assert_eq!(export.directory, "contracts/");
    assert_eq!(export.file_name, "block_execution-fixture.json");
    let context = BlockExecutionGame::get_solidity_context(&sample_proof(), &sample_key());
    assert_eq!(export.context.block_id, context.block_id);
    assert_eq!(export.context.input_hash, context.input_hash);
    assert_eq!(export.context.vkey, context.vkey);
    assert_eq!(export.context.public_values, context.public_values);
    assert_eq!(export.context.proof, context.proof);

    let prover = GameProver::new((), DecompressionGame::new(BLOB_ELF));
    let export = prover.create_solidity_fixture(&sample_proof(), &sample_key(), "out/fixtures");
    assert_eq!(export.directory, "out/fixtures");
    assert_eq!(export.file_name, "decompression-fixture.json");
    assert_eq!(export.context.first_block_height.to_vec(), counting(0, 32));
    assert_eq!(export.context.last_block_height.to_vec(), counting(32, 32));
}

#[test]
fn exporting_twice_prepares_the_same_export() {
    let prover = GameProver::new((), BlockExecutionGame::new(BLOCK_ELF));
    let first = prover.create_solidity_fixture(&sample_proof(), &sample_key(), "contracts/");
    let second = prover.create_solidity_fixture(&sample_proof(), &sample_key(), "contracts/");
    assert_eq!(first.directory, second.directory);
    assert_eq!(first.file_name, second.file_name);
    assert_eq!(first.context.block_id, second.context.block_id);
    assert_eq!(first.context.input_hash, second.context.input_hash);
    assert_eq!(first.context.vkey, second.context.vkey);
    assert_eq!(first.context.public_values, second.context.public_values);
    assert_eq!(first.context.proof, second.context.proof);
}

#[test]
fn a_directory_that_cannot_be_created_fails_the_export() {
    let prover = GameProver::new((), BlockExecutionGame::new(BLOCK_ELF));
    assert!(prover.solidity_fixture_outcome(Ok(())).is_ok());
    match prover.solidity_fixture_outcome(Err("Not a directory (os error 20)".to_string())) {
        Err(Error::FailedToCreateSolidityFixture(text)) => {
            assert_eq!(text, "Not a directory (os error 20)")
        }
        other => panic!("unexpected result {:?}", other),
    }
}

#[test]
fn verification_succeeds_on_the_verdict_of_the_backend_alone() {
    let prover = GameProver::new((), DecompressionGame::new(BLOB_ELF));
    assert!(prover.verify(Ok(())).is_ok());
    assert!(prover.verify(Ok(())).is_ok());
    for _ in 0..2 {
        match prover.verify(Err("invalid proof".to_string())) {
            Err(Error::FailedToVerifyProof(text)) => assert_eq!(text, "invalid proof"),
            other => panic!("unexpected result {:?}", other),
        }
    }
}

#[test]
fn an_execution_is_handed_the_program_and_the_input() {
    let executor = GameExecutor::new((), BlockExecutionGame::new(BLOCK_ELF));
    let request = executor.execute(&[1, 2, 3]);
    assert_eq!(request.program, BLOCK_ELF);
    assert_eq!(request.input, vec![1, 2, 3]);
    let request = executor.execute(&[]);
    assert_eq!(request.program, BLOCK_ELF);
    assert!(request.input.is_empty());
}

#[test]
fn executing_a_fixture_is_executing_its_input() {
    let executor = GameExecutor::new((), DecompressionGame::new(BLOB_ELF));
    let fixture = BlobFixture { input: counting(100, 300) };
    let by_input = executor.execute(&DecompressionGame::get_fixture_input(&fixture));
    let by_fixture = executor.execute_fixture(fixture);
    assert_eq!(by_fixture.program, by_input.program);
    assert_eq!(by_fixture.input, by_input.input);
    assert_eq!(by_fixture.input, counting(100, 300));
}

#[test]
fn proving_a_fixture_is_proving_its_input() {
    let prover = GameProver::new((), BlockExecutionGame::new(BLOCK_ELF));
    for mode in [ProvingMode::Core, ProvingMode::Groth16, ProvingMode::Plonk] {
        let fixture = BlockFixture { input: vec![8, 9] };
        let mut by_input = prover.prove(&BlockExecutionGame::get_fixture_input(&fixture), mode);
        let mut by_fixture = prover.prove_fixture(fixture, mode);
        for _ in 0..2 {
            match (by_fixture.action(), by_input.action()) {
                (ProverAction::StageInput { input: a }, ProverAction::StageInput { input: b }) => {
                    assert_eq!(a, b);
                    assert_eq!(a, [8, 9]);
                }
                (ProverAction::Setup { program: a }, ProverAction::Setup { program: b }) => {
                    assert_eq!(a, b);
                    assert_eq!(a, BLOCK_ELF);
                }
                other => panic!("unexpected actions {:?}", other),
            }
            by_fixture.step(BackendEvent::InputStaged);
            by_input.step(BackendEvent::InputStaged);
        }
        by_fixture.step(BackendEvent::KeysGenerated { vk: sample_key() });
        by_input.step(BackendEvent::KeysGenerated { vk: sample_key() });
        assert!(matches!(by_fixture.action(), ProverAction::RequestProof { mode: m } if m == mode));
        assert!(matches!(by_input.action(), ProverAction::RequestProof { mode: m } if m == mode));
    }
}

#[test]
fn the_report_of_an_execution_is_the_report_of_the_backend() {
    let executor = GameExecutor::new((), BlockExecutionGame::new(BLOCK_ELF));
    let report = ExecutionReport {
        total_instruction_count: 1_234_567,
        total_syscall_count: 89,
        touched_memory_addresses: 4_096,
    };
    assert_eq!(executor.execution_report(Ok(report)).unwrap(), report);
}

#[test]
fn a_truncated_input_fails_the_execution_and_reports_nothing() {
    let executor = GameExecutor::new((), BlockExecutionGame::new(BLOCK_ELF));
    let fixture = BlockFixture { input: counting(0, 200) };
    let full = BlockExecutionGame::get_fixture_input(&fixture);
    let request = executor.execute(&full[..full.len() / 2]);
    assert_eq!(request.input, counting(0, 100));
    match executor.execution_report(Err("failed to deserialize input".to_string())) {
        Err(Error::FailedToExecuteProvingGame(text)) => {
            assert_eq!(text, "failed to deserialize input")
        }
        other => panic!("unexpected result {:?}", other),
    }
}

#[test]
fn a_known_good_fixture_is_proved_verified_and_exported() {
    let prover = GameProver::new((), BlockExecutionGame::new(BLOCK_ELF));
    for mode in [ProvingMode::Core, ProvingMode::Groth16] {
        let mut run = prover.prove_fixture(BlockFixture { input: vec![1, 2, 3] }, mode);
        let mut actions = 0;
        while !run.is_finished() {
            let event = match run.action() {
                ProverAction::StageInput { input } => {
                    assert_eq!(input, [1, 2, 3]);
                    BackendEvent::InputStaged
                }
                ProverAction::Setup { program } => {
                    assert_eq!(program, BLOCK_ELF);
                    BackendEvent::KeysGenerated { vk: sample_key() }
                }
                ProverAction::RequestProof { mode: asked } => {
                    assert_eq!(asked, mode);
                    BackendEvent::ProofRequested
                }
                ProverAction::AwaitProof => BackendEvent::ProofProduced { proof: sample_proof() },
                ProverAction::Finish => unreachable!(),
            };
            run.step(event);
            actions += 1;
        }
        assert_eq!(actions, 4);
        assert!(matches!(run.state(), ProveState::Proved { .. }));
        let (proof, vk) = run.outcome().unwrap().unwrap();
        assert!(prover.verify(Ok(())).is_ok());
        if mode.is_onchain() {
            let export = prover.create_solidity_fixture(&proof, &vk, "contracts/");
            assert_eq!(export.file_name, "block_execution-fixture.json");
            assert_eq!(export.context.vkey.len(), 66);
            assert!(export.context.vkey.starts_with("0x"));
            assert!(export.context.proof.len() > 2);
            assert!(export.context.public_values.len() > 2);
            assert!(prover.solidity_fixture_outcome(Ok(())).is_ok());
        }
    }
}

#[test]
fn the_harness_hands_back_the_handle_and_the_game() {
    let prover = GameProver::new(41u32, DecompressionGame::new(BLOB_ELF));
    assert_eq!(*prover.backend(), 41);
    assert_eq!(prover.game().elf(), BLOB_ELF);
    let executor = GameExecutor::new("backend", BlockExecutionGame::new(BLOCK_ELF));
    assert_eq!(*executor.backend(), "backend");
    assert_eq!(executor.game().elf(), BLOCK_ELF);
}
