//! The life of one proof request, as a machine that the caller drives: the
//! machine names the next action on the backend, the caller performs it and
//! reports what happened.
//!
//! A run passes through `Idle`, `InputStaged`, `KeysGenerated` and `Proving`
//! and ends in `Proved` or `Failed`. Nothing of a run outlives it.

use vstd::prelude::*;
use crate::common::{ProofArtifact, ProofView, ProvingMode, VerifyingKey};
use crate::error::{Error, ErrorView};

verus! {

/// How far a proof request has come.
#[derive(Debug)]
pub enum ProveState {
    /// Nothing has been handed to the backend yet.
    Idle,
    /// The raw input lies in a fresh input channel.
    InputStaged,
    /// The backend has derived the key pair of the program.
    KeysGenerated { vk: VerifyingKey },
    /// The proof has been requested and the backend is at work.
    Proving { vk: VerifyingKey },
    /// The backend has produced the proof.
    Proved { proof: ProofArtifact, vk: VerifyingKey },
    /// The backend has failed; the partial work of the run is gone.
    Failed { error: Error },
}

/// What a [`ProveState`] holds.
pub enum ProveStateView {
    Idle,
    InputStaged,
    KeysGenerated { vk: Seq<u8> },
    Proving { vk: Seq<u8> },
    Proved { proof: ProofView, vk: Seq<u8> },
    Failed { error: ErrorView },
}

impl View for ProveState {
    type V = ProveStateView;

    open spec fn view(&self) -> ProveStateView {
        match self {
            ProveState::Idle => ProveStateView::Idle,
            ProveState::InputStaged => ProveStateView::InputStaged,
            ProveState::KeysGenerated { vk } => ProveStateView::KeysGenerated { vk: vk@ },
            ProveState::Proving { vk } => ProveStateView::Proving { vk: vk@ },
            ProveState::Proved { proof, vk } => ProveStateView::Proved { proof: proof@, vk: vk@ },
            ProveState::Failed { error } => ProveStateView::Failed { error: error@ },
        }
    }
}

/// What the caller reports after it has acted on the backend.
#[derive(Debug)]
pub enum BackendEvent {
    /// The raw input has been written to a fresh input channel.
    InputStaged,
    /// The backend has set the program up; `vk` is the verifying key.
    KeysGenerated { vk: VerifyingKey },
    /// The proof request has been made in the mode asked for.
    ProofRequested,
    /// The backend has produced `proof`.
    ProofProduced { proof: ProofArtifact },
    /// The backend has failed and says why.
    Fault { diagnostic: String },
}

/// What a [`BackendEvent`] holds.
pub enum BackendEventView {
    InputStaged,
    KeysGenerated { vk: Seq<u8> },
    ProofRequested,
    ProofProduced { proof: ProofView },
    Fault { diagnostic: Seq<char> },
}

impl View for BackendEvent {
    type V = BackendEventView;

    open spec fn view(&self) -> BackendEventView {
        match self {
            BackendEvent::InputStaged => BackendEventView::InputStaged,
            BackendEvent::KeysGenerated { vk } => BackendEventView::KeysGenerated { vk: vk@ },
            BackendEvent::ProofRequested => BackendEventView::ProofRequested,
            BackendEvent::ProofProduced { proof } => BackendEventView::ProofProduced { proof: proof@ },
            BackendEvent::Fault { diagnostic } => BackendEventView::Fault { diagnostic: diagnostic@ },
        }
    }
}

/// What the caller is to do on the backend next.
#[derive(Debug)]
pub enum ProverAction<'a> {
    /// Write `input`, and nothing else, to a fresh input channel.
    StageInput { input: &'a [u8] },
    /// Derive the proving and verifying keys of `program`.
    Setup { program: &'static [u8] },
    /// Request a proof with the keys and the staged input, in `mode`.
    RequestProof { mode: ProvingMode },
    /// Wait for the backend to answer the request.
    AwaitProof,
    /// Nothing: the run has ended.
    Finish,
}

/// What a [`ProverAction`] holds.
pub enum ProverActionView {
    StageInput { input: Seq<u8> },
    Setup { program: Seq<u8> },
    RequestProof { mode: ProvingMode },
    AwaitProof,
    Finish,
}

impl<'a> View for ProverAction<'a> {
    type V = ProverActionView;

    open spec fn view(&self) -> ProverActionView {
        match self {
            ProverAction::StageInput { input } => ProverActionView::StageInput { input: input@ },
            ProverAction::Setup { program } => ProverActionView::Setup { program: program@ },
            ProverAction::RequestProof { mode } => ProverActionView::RequestProof { mode: *mode },
            ProverAction::AwaitProof => ProverActionView::AwaitProof,
            ProverAction::Finish => ProverActionView::Finish,
        }
    }
}

impl ProveStateView {
    /// Whether the run has ended.
    pub open spec fn is_terminal(self) -> bool {
        self is Proved || self is Failed
    }

    /// The number of steps behind a state: 0 for `Idle`, 4 for both ends.
    pub open spec fn stage(self) -> nat {
        match self {
            ProveStateView::Idle => 0,
            ProveStateView::InputStaged => 1,
            ProveStateView::KeysGenerated { .. } => 2,
            ProveStateView::Proving { .. } => 3,
            ProveStateView::Proved { .. } => 4,
            ProveStateView::Failed { .. } => 4,
        }
    }

    /// The state after `event`. An ended run stays as it is. A fault ends
    /// any other run in `Failed`, with the backend's diagnostic as a proving
    /// failure. The event that the state waits for moves it one step on, and
    /// any other event leaves it where it is.
    pub open spec fn step(self, event: BackendEventView) -> ProveStateView {
        match (self, event) {
            (ProveStateView::Proved { .. }, _) => self,
            (ProveStateView::Failed { .. }, _) => self,
            (_, BackendEventView::Fault { diagnostic }) => ProveStateView::Failed {
                error: ErrorView::FailedToProveProvingGame(diagnostic),
            },
            (ProveStateView::Idle, BackendEventView::InputStaged) => ProveStateView::InputStaged,
            (
                ProveStateView::InputStaged,
                BackendEventView::KeysGenerated { vk },
            ) => ProveStateView::KeysGenerated { vk },
            (
                ProveStateView::KeysGenerated { vk },
                BackendEventView::ProofRequested,
            ) => ProveStateView::Proving { vk },
            (
                ProveStateView::Proving { vk },
                BackendEventView::ProofProduced { proof },
            ) => ProveStateView::Proved { proof, vk },
            _ => self,
        }
    }

    /// The state after each of `events` in turn.
    pub open spec fn run(self, events: Seq<BackendEventView>) -> ProveStateView
        decreases events.len(),
    {
        if events.len() == 0 {
            self
        } else {
            self.run(events.drop_last()).step(events.last())
        }
    }
}

/// One proof request on its way through the backend.
#[derive(Debug)]
pub struct ProveRun {
    program: &'static [u8],
    input: Vec<u8>,
    mode: ProvingMode,
    state: ProveState,
}

/// What a [`ProveRun`] holds: what was asked for, and how far it has come.
pub struct ProveRunView {
    pub program: Seq<u8>,
    pub input: Seq<u8>,
    pub mode: ProvingMode,
    pub state: ProveStateView,
}

impl View for ProveRun {
    type V = ProveRunView;

    closed spec fn view(&self) -> ProveRunView {
        ProveRunView {
            program: self.program@,
            input: self.input@,
            mode: self.mode,
            state: self.state@,
        }
    }
}

impl ProveRunView {
    /// A run on which nothing has been done yet.
    pub open spec fn fresh(program: Seq<u8>, input: Seq<u8>, mode: ProvingMode) -> ProveRunView {
        ProveRunView { program, input, mode, state: ProveStateView::Idle }
    }

    /// What the caller is to do next: stage the input, set the program up,
    /// request the proof in the mode of the run, wait for it, and nothing
    /// once the run has ended.
    pub open spec fn action(self) -> ProverActionView {
        match self.state {
            ProveStateView::Idle => ProverActionView::StageInput { input: self.input },
            ProveStateView::InputStaged => ProverActionView::Setup { program: self.program },
            ProveStateView::KeysGenerated { .. } => ProverActionView::RequestProof {
                mode: self.mode,
            },
            ProveStateView::Proving { .. } => ProverActionView::AwaitProof,
            ProveStateView::Proved { .. } => ProverActionView::Finish,
            ProveStateView::Failed { .. } => ProverActionView::Finish,
        }
    }

    /// The run after `event`: the same request, one state on.
    pub open spec fn step(self, event: BackendEventView) -> ProveRunView {
        ProveRunView { state: self.state.step(event), ..self }
    }

    /// What the run has come to: the proof with its key, or the failure,
    /// once it has ended.
    pub open spec fn outcome(self) -> Option<Result<(ProofView, Seq<u8>), ErrorView>> {
        match self.state {
            ProveStateView::Proved { proof, vk } => Some(Ok((proof, vk))),
            ProveStateView::Failed { error } => Some(Err(error)),
            _ => None,
        }
    }
}

impl ProveRun {
    /// Opens a run for a proof of `program` on `input` in `mode`.
    pub fn start(program: &'static [u8], input: Vec<u8>, mode: ProvingMode) -> (run: Self)
        ensures
            run@ == ProveRunView::fresh(program@, input@, mode),
    {
        ProveRun { program, input, mode, state: ProveState::Idle }
    }

    /// How far the run has come.
    pub fn state(&self) -> (state: &ProveState)
        ensures
            state@ == self@.state,
    {
        &self.state
    }

    /// Whether the run has ended.
    pub fn is_finished(&self) -> (finished: bool)
        ensures
            finished == self@.state.is_terminal(),
    {
        match &self.state {
            ProveState::Proved { .. } => true,
            ProveState::Failed { .. } => true,
            _ => false,
        }
    }

    /// What the caller is to do on the backend next.
    pub fn action(&self) -> (action: ProverAction<'_>)
        ensures
            action@ == self@.action(),
    {
        match &self.state {
            ProveState::Idle => ProverAction::StageInput { input: self.input.as_slice() },
            ProveState::InputStaged => ProverAction::Setup { program: self.program },
            ProveState::KeysGenerated { .. } => ProverAction::RequestProof { mode: self.mode },
            ProveState::Proving { .. } => ProverAction::AwaitProof,
            ProveState::Proved { .. } => ProverAction::Finish,
            ProveState::Failed { .. } => ProverAction::Finish,
        }
    }

    /// Takes in what the caller reports of the backend.
    pub fn step(&mut self, event: BackendEvent)
        ensures
            final(self)@ == old(self)@.step(event@),
    {
        if self.is_finished() {
            return ;
        }
        match event {
            BackendEvent::Fault { diagnostic } => {
                self.state = ProveState::Failed {
                    error: Error::FailedToProveProvingGame(diagnostic),
                };
            },
            BackendEvent::InputStaged => {
                if let ProveState::Idle = &self.state {
                    self.state = ProveState::InputStaged;
                }
            },
            BackendEvent::KeysGenerated { vk } => {
                if let ProveState::InputStaged = &self.state {
                    self.state = ProveState::KeysGenerated { vk };
                }
            },
            BackendEvent::ProofRequested => {
                let keys = match &self.state {
                    ProveState::KeysGenerated { vk } => Some(*vk),
                    _ => None,
                };
                if let Some(vk) = keys {
                    self.state = ProveState::Proving { vk };
                }
            },
            BackendEvent::ProofProduced { proof } => {
                let keys = match &self.state {
                    ProveState::Proving { vk } => Some(*vk),
                    _ => None,
                };
                if let Some(vk) = keys {
                    self.state = ProveState::Proved { proof, vk };
                }
            },
        }
    }

    /// What the run has come to: `Some` exactly when it has ended, with the
    /// proof and its key, or with the failure.
    pub fn outcome(self) -> (outcome: Option<Result<(ProofArtifact, VerifyingKey), Error>>)
        ensures
            match self@.outcome() {
                Some(Ok((proof, vk))) => outcome matches Some(Ok(pair)) && pair.0@ == proof
                    && pair.1@ == vk,
                Some(Err(error)) => outcome matches Some(Err(e)) && e@ == error,
                None => outcome is None,
            },
    {
        match self.state {
            ProveState::Proved { proof, vk } => Some(Ok((proof, vk))),
            ProveState::Failed { error } => Some(Err(error)),
            _ => None,
        }
    }
}

impl ProveStateView {
    /// Whether a state reached from `Idle` by `events` holds nothing but
    /// what the backend delivered in them: the key of a `KeysGenerated`
    /// event, the proof of a `ProofProduced` event, the diagnostic of a
    /// `Fault` event.
    pub open spec fn delivered_by(self, events: Seq<BackendEventView>) -> bool {
        match self {
            ProveStateView::Idle => true,
            ProveStateView::InputStaged => true,
            ProveStateView::KeysGenerated { vk } => events.contains(
                BackendEventView::KeysGenerated { vk },
            ),
            ProveStateView::Proving { vk } => events.contains(
                BackendEventView::KeysGenerated { vk },
            ),
            ProveStateView::Proved { proof, vk } => events.contains(
                BackendEventView::KeysGenerated { vk },
            ) && events.contains(BackendEventView::ProofProduced { proof }),
            ProveStateView::Failed { error } => error is FailedToProveProvingGame
                && events.contains(BackendEventView::Fault { diagnostic: error.diagnostic() }),
        }
    }
}

/// A run that has ended takes no further step: whatever is reported to it,
/// it stays `Proved` or `Failed` as it was.
pub proof fn lemma_ended_run_stays(state: ProveStateView, event: BackendEventView)
    requires
        state.is_terminal(),
    ensures
        state.step(event) == state,
{
}

/// No step goes back, and none is taken twice: a step leaves the state as
/// it is, or ends the run in `Failed`, or moves it to the one state that
/// follows it.
pub proof fn lemma_step_goes_forward(state: ProveStateView, event: BackendEventView)
    ensures
        ({
            let next = state.step(event);
            ||| next == state
            ||| !state.is_terminal() && next is Failed
            ||| !(next is Failed) && next.stage() == state.stage() + 1
        }),
{
}

/// A fault at any stage ends the run: the state is `Failed`, it carries the
/// backend's diagnostic as a proving failure, and nothing gathered before
/// is kept.
pub proof fn lemma_fault_ends_run(state: ProveStateView, diagnostic: Seq<char>)
    requires
        !state.is_terminal(),
    ensures
        state.step(BackendEventView::Fault { diagnostic }) == (ProveStateView::Failed {
            error: ErrorView::FailedToProveProvingGame(diagnostic),
        }),
{
}

/// A run in which the backend does all that is asked of it ends in
/// `Proved`, with the key that setup gave and the proof that the backend
/// produced.
pub proof fn lemma_undisturbed_run_proves(vk: Seq<u8>, proof: ProofView)
    ensures
        ProveStateView::Idle.run(
            seq![
                BackendEventView::InputStaged,
                BackendEventView::KeysGenerated { vk },
                BackendEventView::ProofRequested,
                BackendEventView::ProofProduced { proof },
            ],
        ) == (ProveStateView::Proved { proof, vk }),
{
    let events = seq![
        BackendEventView::InputStaged,
        BackendEventView::KeysGenerated { vk },
        BackendEventView::ProofRequested,
        BackendEventView::ProofProduced { proof },
    ];
    let three = events.drop_last();
    let two = three.drop_last();
    let one = two.drop_last();
    assert(one.drop_last().len() == 0);
    assert(ProveStateView::Idle.run(one.drop_last()) == ProveStateView::Idle);
    assert(ProveStateView::Idle.run(one) == ProveStateView::InputStaged);
    assert(ProveStateView::Idle.run(two) == ProveStateView::KeysGenerated { vk });
    assert(ProveStateView::Idle.run(three) == ProveStateView::Proving { vk });
}

/// Whatever is reported, and in whatever order, a run that started `Idle`
/// ends with nothing of its own making: a proof and a key that the backend
/// delivered, or the diagnostic of a fault that the backend reported.
pub proof fn lemma_outcome_comes_from_backend(events: Seq<BackendEventView>)
    ensures
        ProveStateView::Idle.run(events).delivered_by(events),
    decreases events.len(),
{
    if events.len() > 0 {
        let earlier = events.drop_last();
        lemma_outcome_comes_from_backend(earlier);
        let before = ProveStateView::Idle.run(earlier);
        let after = before.step(events.last());
        assert(events[events.len() - 1] == events.last());
        assert forall|e: BackendEventView| earlier.contains(e) implies events.contains(e) by {
            let i = choose|i: int| 0 <= i < earlier.len() && earlier[i] == e;
            assert(events[i] == e);
        }
    }
}

/// Every state but `Failed` takes at least as many reports as it has steps
/// behind it: `Proved` takes four.
pub proof fn lemma_stage_bounded_by_reports(events: Seq<BackendEventView>)
    ensures
        ProveStateView::Idle.run(events) is Failed || ProveStateView::Idle.run(events).stage()
            <= events.len(),
    decreases events.len(),
{
    if events.len() > 0 {
        lemma_stage_bounded_by_reports(events.drop_last());
        lemma_step_goes_forward(ProveStateView::Idle.run(events.drop_last()), events.last());
    }
}

} // verus!
