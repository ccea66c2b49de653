//! The run's state machine: one fetch, then one persist, then a terminal
//! result. A failure at either stage is terminal; no stage is retried and no
//! earlier stage is re-entered.

use vstd::prelude::*;
use vstd::pervasive::unreached;

verus! {

/// What the single network fetch yielded: the full response body, or a
/// description of the transport or HTTP-status failure.
pub enum FetchOutcome {
    Payload(Vec<u8>),
    Failure(String),
}

/// What the single file write yielded: success, or a description of the
/// file-creation or write failure.
pub enum PersistOutcome {
    Saved,
    Failure(String),
}

/// The pipeline stage at which a run failed.
#[derive(Clone, Copy, PartialEq, Eq, Structural, Debug)]
pub enum Stage {
    Fetch,
    Persist,
}

/// The terminal state of a run: success, or failure at a named stage with
/// the underlying cause's description.
pub enum RunResult {
    Success,
    Failed(Stage, String),
}

/// The state of a run: awaiting the fetch, awaiting persistence of the
/// fetched payload, or finished.
pub enum RunState {
    AwaitingFetch,
    AwaitingPersist { payload: Vec<u8> },
    Finished { result: RunResult },
}

/// The event that completes the pending operation of a run state.
pub enum RunEvent {
    FetchCompleted(FetchOutcome),
    PersistCompleted(PersistOutcome),
}

/// An event completes the operation that the state awaits: a fetch event in
/// the fetch state, a persist event in the persist state, and nothing once
/// the run is finished.
pub open spec fn compatible(state: RunState, event: RunEvent) -> bool {
    match (state, event) {
        (RunState::AwaitingFetch, RunEvent::FetchCompleted(_)) => true,
        (RunState::AwaitingPersist { .. }, RunEvent::PersistCompleted(_)) => true,
        _ => false,
    }
}

/// The transition relation of the run: a successful fetch carries its
/// payload unchanged into the persist state; a fetch failure finishes the
/// run failed at the fetch stage; a successful persist finishes the run
/// successfully; a persist failure finishes the run failed at the persist
/// stage.
pub open spec fn spec_advance(state: RunState, event: RunEvent) -> RunState {
    match (state, event) {
        (RunState::AwaitingFetch, RunEvent::FetchCompleted(outcome)) => match outcome {
            FetchOutcome::Payload(payload) => (RunState::AwaitingPersist { payload }),
            FetchOutcome::Failure(cause) => (RunState::Finished {
                result: RunResult::Failed(Stage::Fetch, cause),
            }),
        },
        (RunState::AwaitingPersist { .. }, RunEvent::PersistCompleted(outcome)) => match outcome {
            PersistOutcome::Saved => (RunState::Finished { result: RunResult::Success }),
            PersistOutcome::Failure(cause) => (RunState::Finished {
                result: RunResult::Failed(Stage::Persist, cause),
            }),
        },
        _ => state,
    }
}

/// Advances the run by one completed operation, following the transition
/// relation exactly.
pub fn advance(state: RunState, event: RunEvent) -> (next: RunState)
    requires
        compatible(state, event),
    ensures
        next == spec_advance(state, event),
{
    match (state, event) {
        (RunState::AwaitingFetch, RunEvent::FetchCompleted(outcome)) => match outcome {
            FetchOutcome::Payload(payload) => RunState::AwaitingPersist { payload },
            FetchOutcome::Failure(cause) => RunState::Finished {
                result: RunResult::Failed(Stage::Fetch, cause),
            },
        },
        (RunState::AwaitingPersist { .. }, RunEvent::PersistCompleted(outcome)) => match outcome {
            PersistOutcome::Saved => RunState::Finished { result: RunResult::Success },
            PersistOutcome::Failure(cause) => RunState::Finished {
                result: RunResult::Failed(Stage::Persist, cause),
            },
        },
        _ => unreached(),
    }
}

impl RunResult {
    /// Whether the run ended successfully.
    pub fn is_success(&self) -> (r: bool)
        ensures
            r == (self is Success),
    {
        match self {
            RunResult::Success => true,
            RunResult::Failed(_, _) => false,
        }
    }
}

/// A successful fetch of a payload of any contents and length hands exactly
/// that payload — byte for byte — to the persist stage: what persistence
/// receives is what the fetch returned.
pub proof fn lemma_fetch_payload_reaches_persist(payload: Vec<u8>)
    ensures
        spec_advance(
            RunState::AwaitingFetch,
            RunEvent::FetchCompleted(FetchOutcome::Payload(payload)),
        ) == (RunState::AwaitingPersist { payload }),
{
}

/// A failed fetch is terminal: the run finishes failed at the fetch stage
/// with the given cause, and in particular never reaches the persist state,
/// so persistence is never invoked.
pub proof fn lemma_fetch_failure_skips_persist(cause: String)
    ensures
        spec_advance(
            RunState::AwaitingFetch,
            RunEvent::FetchCompleted(FetchOutcome::Failure(cause)),
        ) == (RunState::Finished { result: RunResult::Failed(Stage::Fetch, cause) }),
        !(spec_advance(
            RunState::AwaitingFetch,
            RunEvent::FetchCompleted(FetchOutcome::Failure(cause)),
        ) is AwaitingPersist),
{
}

/// A failed persist after a successful fetch is terminal: the run finishes
/// failed at the persist stage with the given cause.
pub proof fn lemma_persist_failure_fails_run(payload: Vec<u8>, cause: String)
    ensures
        spec_advance(
            RunState::AwaitingPersist { payload },
            RunEvent::PersistCompleted(PersistOutcome::Failure(cause)),
        ) == (RunState::Finished { result: RunResult::Failed(Stage::Persist, cause) }),
{
}

/// A successful persist finishes the run successfully.
pub proof fn lemma_persist_success_finishes_run(payload: Vec<u8>)
    ensures
        spec_advance(
            RunState::AwaitingPersist { payload },
            RunEvent::PersistCompleted(PersistOutcome::Saved),
        ) == (RunState::Finished { result: RunResult::Success }),
{
}

} // verus!
