//! What every game shares: the proving mode, the models of the backend's
//! values, and the orchestrators.

use vstd::prelude::*;
use vstd::slice::slice_to_vec;
use crate::error::{answer_view, result_view, Error, ErrorView};
use crate::lifecycle::{BackendEventView, ProveRun, ProveRunView};
use crate::naming::{fixture_file_name, fixture_file_name_spec};

verus! {

/// The representation in which a proof is requested from the backend.
#[derive(Clone, Copy, Debug, PartialEq, Eq, Structural)]
pub enum ProvingMode {
    /// The base proof wrapped into a Plonk proof.
    Plonk,
    /// The base proof wrapped into a Groth16 proof.
    Groth16,
    /// The base proof as the backend produces it natively.
    Core,
}

impl Default for ProvingMode {
    fn default() -> (mode: Self)
        ensures
            mode == ProvingMode::Core,
    {
        ProvingMode::Core
    }
}

impl ProvingMode {
    /// Whether a proof in this mode can be verified on chain: exactly the
    /// two wrapping modes can.
    pub open spec fn is_onchain_spec(self) -> bool {
        self != ProvingMode::Core
    }

    /// Whether a proof in this mode can be verified on chain.
    pub fn is_onchain(self) -> (onchain: bool)
        ensures
            onchain == self.is_onchain_spec(),
    {
        match self {
            ProvingMode::Plonk => true,
            ProvingMode::Groth16 => true,
            ProvingMode::Core => false,
        }
    }
}

/// A proof as the harness sees it: the backend's proof bytes and the
/// public values that the program committed to.
#[derive(Debug)]
pub struct ProofArtifact {
    /// The proof in the form that an on-chain verifier reads; empty where
    /// the proof has no such form.
    pub bytes: Vec<u8>,
    /// The public values, in the fixed binary layout of the game.
    pub public_values: Vec<u8>,
}

/// What a [`ProofArtifact`] holds.
pub struct ProofView {
    pub bytes: Seq<u8>,
    pub public_values: Seq<u8>,
}

impl View for ProofArtifact {
    type V = ProofView;

    open spec fn view(&self) -> ProofView {
        ProofView { bytes: self.bytes@, public_values: self.public_values@ }
    }
}

/// A verifying key as the harness sees it: its 32-byte digest.
#[derive(Clone, Copy, Debug)]
pub struct VerifyingKey {
    /// The digest of the key, most significant byte first.
    pub digest: [u8; 32],
}

impl View for VerifyingKey {
    type V = Seq<u8>;

    open spec fn view(&self) -> Seq<u8> {
        self.digest@
    }
}

/// What the backend reports of an execution that produced no proof.
#[derive(Clone, Copy, Debug, PartialEq, Eq, Structural)]
pub struct ExecutionReport {
    /// The number of instructions executed.
    pub total_instruction_count: u64,
    /// The number of system calls made.
    pub total_syscall_count: u64,
    /// The number of distinct memory addresses touched.
    pub touched_memory_addresses: u64,
}

/// What one game supplies to the harness: its name, its program, the raw
/// input of each of its fixtures, and the way its public values are laid
/// out for an on-chain verifier.
pub trait GameConfig {
    /// Names one predetermined scenario of the game.
    type Fixture;

    /// What the game exports for on-chain verification of one proof.
    type SolidityContext: View;

    /// The name of the game: the stem of the files exported for it.
    const NAME: &'static str;

    /// The program of the game.
    spec fn elf_spec(&self) -> Seq<u8>;

    /// The raw input of `fixture`.
    spec fn fixture_input_spec(fixture: &Self::Fixture) -> Seq<u8>;

    /// Whether `public_values` has the layout of the game's public values.
    spec fn decodes(public_values: Seq<u8>) -> bool;

    /// The context of the proof `proof` under the key with digest `key`.
    spec fn solidity_context_spec(proof: ProofView, key: Seq<u8>) -> <Self::SolidityContext as View>::V;

    /// The program of the game: the same bytes at every call.
    fn elf(&self) -> (program: &'static [u8])
        ensures
            program@ == self.elf_spec(),
    ;

    /// The raw input of `fixture`.
    fn get_fixture_input(fixture: &Self::Fixture) -> (input: Vec<u8>)
        ensures
            input@ == Self::fixture_input_spec(fixture),
    ;

    /// Whether `public_values` has the layout of the game's public values.
    fn accepts_public_values(public_values: &[u8]) -> (accepted: bool)
        ensures
            accepted == Self::decodes(public_values@),
    ;

    /// Decodes the public values of `proof` and renders them, the key and
    /// the proof for an on-chain verifier.
    fn get_solidity_context(proof: &ProofArtifact, vk: &VerifyingKey) -> (context:
        Self::SolidityContext)
        requires
            Self::decodes(proof@.public_values),
        ensures
            context@ == Self::solidity_context_spec(proof@, vk@),
    ;
}

/// What is handed to the backend for an execution that produces no proof.
#[derive(Debug)]
pub struct ExecutionRequest {
    /// The program to run.
    pub program: &'static [u8],
    /// What to write, and nothing else, to a fresh input channel.
    pub input: Vec<u8>,
}

/// What an [`ExecutionRequest`] holds.
pub struct ExecutionRequestView {
    pub program: Seq<u8>,
    pub input: Seq<u8>,
}

impl View for ExecutionRequest {
    type V = ExecutionRequestView;

    open spec fn view(&self) -> ExecutionRequestView {
        ExecutionRequestView { program: self.program@, input: self.input@ }
    }
}

/// Where the Solidity fixture of one proof is to be written, and what.
///
/// The directory is to be created with all its parents where it is absent;
/// the file is to be written into it in place of any file of that name.
#[derive(Debug)]
pub struct FixtureExport<C> {
    /// The directory to write into.
    pub directory: String,
    /// The name of the file in that directory.
    pub file_name: String,
    /// What the file is to hold.
    pub context: C,
}

/// What a [`FixtureExport`] holds.
pub struct FixtureExportView<V> {
    pub directory: Seq<char>,
    pub file_name: Seq<char>,
    pub context: V,
}

impl<C: View> View for FixtureExport<C> {
    type V = FixtureExportView<C::V>;

    open spec fn view(&self) -> FixtureExportView<C::V> {
        FixtureExportView {
            directory: self.directory@,
            file_name: self.file_name@,
            context: self.context@,
        }
    }
}

/// The result of verifying a proof, for each verdict of the backend: the
/// backend's acceptance, or its diagnostic as a verification failure.
pub open spec fn verification_outcome(verdict: Result<(), Seq<char>>) -> Result<(), ErrorView> {
    match verdict {
        Ok(_) => Ok(()),
        Err(diagnostic) => Err(ErrorView::FailedToVerifyProof(diagnostic)),
    }
}

/// The result of an execution, for each answer of the backend: its report,
/// or its diagnostic as an execution failure.
pub open spec fn execution_outcome(answer: Result<ExecutionReport, Seq<char>>) -> Result<
    ExecutionReport,
    ErrorView,
> {
    match answer {
        Ok(report) => Ok(report),
        Err(diagnostic) => Err(ErrorView::FailedToExecuteProvingGame(diagnostic)),
    }
}

/// The result of an export, for each way the writing went: done, or the
/// diagnostic of the file system as an export failure.
pub open spec fn export_outcome(written: Result<(), Seq<char>>) -> Result<(), ErrorView> {
    match written {
        Ok(_) => Ok(()),
        Err(diagnostic) => Err(ErrorView::FailedToCreateSolidityFixture(diagnostic)),
    }
}

/// Drives the proving of one game on a backend.
///
/// The prover holds the handle of the backend for the caller and decides
/// what is done with it; the caller makes the calls.
#[derive(Debug)]
pub struct GameProver<P, G> {
    prover: P,
    game: G,
}

impl<P, G: GameConfig> GameProver<P, G> {
    /// The handle of the backend.
    pub closed spec fn backend_spec(&self) -> P {
        self.prover
    }

    /// The game.
    pub closed spec fn game_spec(&self) -> G {
        self.game
    }

    /// The run that proving `input` in `mode` opens: the program of the
    /// game, the input as given, and nothing done yet.
    pub open spec fn prove_spec(&self, input: Seq<u8>, mode: ProvingMode) -> ProveRunView {
        ProveRunView::fresh(self.game_spec().elf_spec(), input, mode)
    }

    /// The run that proving `fixture` in `mode` opens.
    pub open spec fn prove_fixture_spec(&self, fixture: G::Fixture, mode: ProvingMode) -> ProveRunView {
        ProveRunView::fresh(self.game_spec().elf_spec(), G::fixture_input_spec(&fixture), mode)
    }

    /// The export of the proof `proof` under the key with digest `key` into
    /// the directory `path`.
    pub open spec fn solidity_fixture_spec(proof: ProofView, key: Seq<u8>, path: Seq<char>) -> FixtureExportView<
        <G::SolidityContext as View>::V,
    > {
        FixtureExportView {
            directory: path,
            file_name: fixture_file_name_spec(G::NAME@),
            context: G::solidity_context_spec(proof, key),
        }
    }

    /// Wraps the handle `prover` of a backend for the game `game`.
    pub fn new(prover: P, game: G) -> (harness: Self)
        ensures
            harness.backend_spec() == prover,
            harness.game_spec() == game,
    {
        GameProver { prover, game }
    }

    /// The handle of the backend.
    pub fn backend(&self) -> (prover: &P)
        ensures
            *prover == self.backend_spec(),
    {
        &self.prover
    }

    /// The game.
    pub fn game(&self) -> (game: &G)
        ensures
            *game == self.game_spec(),
    {
        &self.game
    }

    /// Opens a run that proves the program of the game on `input`, in
    /// `mode`. Every call opens a run of its own, with nothing done yet.
    pub fn prove(&self, input: &[u8], mode: ProvingMode) -> (run: ProveRun)
        ensures
            run@ == self.prove_spec(input@, mode),
    {
        ProveRun::start(self.game.elf(), slice_to_vec(input), mode)
    }

    /// Opens a run that proves the program of the game on the raw input of
    /// `fixture`, in `mode`.
    pub fn prove_fixture(&self, fixture: G::Fixture, mode: ProvingMode) -> (run: ProveRun)
        ensures
            run@ == self.prove_fixture_spec(fixture, mode),
    {
        let raw_input = G::get_fixture_input(&fixture);
        self.prove(raw_input.as_slice(), mode)
    }

    /// Says what the backend's verdict on a proof and its key means: the
    /// proof is to be trusted on `Ok` alone, and a failure carries the
    /// backend's diagnostic.
    pub fn verify(&self, verdict: Result<(), String>) -> (result: Result<(), Error>)
        ensures
            result_view(result) == verification_outcome(answer_view(verdict)),
    {
        match verdict {
            Ok(_) => Ok(()),
            Err(diagnostic) => Err(Error::FailedToVerifyProof(diagnostic)),
        }
    }

    /// Prepares the export of `proof` and `vk` for an on-chain verifier into
    /// the directory `path`: the context of the game, in the file named
    /// after the game.
    pub fn create_solidity_fixture(
        &self,
        proof: &ProofArtifact,
        vk: &VerifyingKey,
        path: &str,
    ) -> (export: FixtureExport<G::SolidityContext>)
        requires
            G::decodes(proof@.public_values),
        ensures
            export@ == Self::solidity_fixture_spec(proof@, vk@, path@),
    {
        let context = G::get_solidity_context(proof, vk);
        FixtureExport {
            directory: String::from_str(path),
            file_name: fixture_file_name(G::NAME),
            context,
        }
    }

    /// Says what became of an export: `written` is what the file system
    /// answered to the creation of the directory and the writing of the
    /// file, the first failure if there was one.
    pub fn solidity_fixture_outcome(&self, written: Result<(), String>) -> (result: Result<
        (),
        Error,
    >)
        ensures
            result_view(result) == export_outcome(answer_view(written)),
    {
        match written {
            Ok(_) => Ok(()),
            Err(diagnostic) => Err(Error::FailedToCreateSolidityFixture(diagnostic)),
        }
    }
}

/// Drives the execution of one game on a backend, without a proof.
#[derive(Debug)]
pub struct GameExecutor<E, G> {
    executor: E,
    game: G,
}

impl<E, G: GameConfig> GameExecutor<E, G> {
    /// The handle of the backend.
    pub closed spec fn backend_spec(&self) -> E {
        self.executor
    }

    /// The game.
    pub closed spec fn game_spec(&self) -> G {
        self.game
    }

    /// What executing `input` hands to the backend: the program of the
    /// game, and the input as given.
    pub open spec fn execute_spec(&self, input: Seq<u8>) -> ExecutionRequestView {
        ExecutionRequestView { program: self.game_spec().elf_spec(), input }
    }

    /// What executing `fixture` hands to the backend.
    pub open spec fn execute_fixture_spec(&self, fixture: G::Fixture) -> ExecutionRequestView {
        ExecutionRequestView {
            program: self.game_spec().elf_spec(),
            input: G::fixture_input_spec(&fixture),
        }
    }

    /// Wraps the handle `executor` of a backend for the game `game`.
    pub fn new(executor: E, game: G) -> (harness: Self)
        ensures
            harness.backend_spec() == executor,
            harness.game_spec() == game,
    {
        GameExecutor { executor, game }
    }

    /// The handle of the backend.
    pub fn backend(&self) -> (executor: &E)
        ensures
            *executor == self.backend_spec(),
    {
        &self.executor
    }

    /// The game.
    pub fn game(&self) -> (game: &G)
        ensures
            *game == self.game_spec(),
    {
        &self.game
    }

    /// Prepares the execution of the program of the game on `input`.
    pub fn execute(&self, input: &[u8]) -> (request: ExecutionRequest)
        ensures
            request@ == self.execute_spec(input@),
    {
        ExecutionRequest { program: self.game.elf(), input: slice_to_vec(input) }
    }

    /// Prepares the execution of the program of the game on the raw input
    /// of `fixture`.
    pub fn execute_fixture(&self, fixture: G::Fixture) -> (request: ExecutionRequest)
        ensures
            request@ == self.execute_fixture_spec(fixture),
    {
        let raw_input = G::get_fixture_input(&fixture);
        self.execute(raw_input.as_slice())
    }

    /// Says what the backend's answer to an execution means: its report as
    /// it stands, or its diagnostic as an execution failure. No report is
    /// made up for a failed execution.
    pub fn execution_report(&self, answer: Result<ExecutionReport, String>) -> (result: Result<
        ExecutionReport,
        Error,
    >)
        ensures
            result_view(result) == execution_outcome(answer_view(answer)),
    {
        match answer {
            Ok(report) => Ok(report),
            Err(diagnostic) => Err(Error::FailedToExecuteProvingGame(diagnostic)),
        }
    }
}

/// Executing a fixture hands the backend exactly what executing the raw
/// input of that fixture hands it, so the backend's report, and what is
/// made of it, is the same for both.
pub proof fn lemma_execute_fixture_is_execute<E, G: GameConfig>(
    executor: GameExecutor<E, G>,
    fixture: G::Fixture,
)
    ensures
        executor.execute_fixture_spec(fixture) == executor.execute_spec(
            G::fixture_input_spec(&fixture),
        ),
{
}

/// Proving a fixture opens the run that proving the raw input of that
/// fixture opens, and the two stay alike whatever the backend reports.
pub proof fn lemma_prove_fixture_is_prove<P, G: GameConfig>(
    prover: GameProver<P, G>,
    fixture: G::Fixture,
    mode: ProvingMode,
    events: Seq<BackendEventView>,
)
    ensures
        prover.prove_fixture_spec(fixture, mode) == prover.prove_spec(
            G::fixture_input_spec(&fixture),
            mode,
        ),
        prover.prove_fixture_spec(fixture, mode).state.run(events) == prover.prove_spec(
            G::fixture_input_spec(&fixture),
            mode,
        ).state.run(events),
{
}

/// The result of a verification follows the backend's verdict and nothing
/// else: it is `Ok` exactly when the verdict is, and two verifications that
/// meet the same verdict give the same result.
pub proof fn lemma_verification_follows_verdict(
    first: Result<(), Seq<char>>,
    second: Result<(), Seq<char>>,
)
    ensures
        verification_outcome(first) is Ok <==> first is Ok,
        first == second ==> verification_outcome(first) == verification_outcome(second),
{
}

} // verus!
