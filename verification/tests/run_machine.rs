use spring_init::run::{
    advance, FetchOutcome, PersistOutcome, RunEvent, RunResult, RunState, Stage,
};

#[test]
fn fetched_payload_reaches_persistence_unchanged() {
    let bytes: Vec<u8> = vec![80, 75, 3, 4, 0];
    let next = advance(
        RunState::AwaitingFetch,
        RunEvent::FetchCompleted(FetchOutcome::Payload(bytes.clone())),
    );
    match next {
        RunState::AwaitingPersist { payload } => {
            assert_eq!(payload.len(), 5);
            assert_eq!(payload, bytes);
        }
        _ => panic!("a successful fetch must lead to the persist state"),
    }
}

#[test]
fn fetch_failure_ends_run_without_persistence() {
    let next = advance(
        RunState::AwaitingFetch,
        RunEvent::FetchCompleted(FetchOutcome::Failure("HTTP 500".to_string())),
    );
    match next {
        RunState::Finished { result: RunResult::Failed(stage, cause) } => {
            assert_eq!(stage, Stage::Fetch);
            assert_eq!(cause, "HTTP 500");
        }
        _ => panic!("a failed fetch must finish the run as failed"),
    }
}

#[test]
fn persist_failure_ends_run_failed_at_persist() {
    let next = advance(
        RunState::AwaitingPersist { payload: vec![1, 2, 3] },
        RunEvent::PersistCompleted(PersistOutcome::Failure(
            "read-only destination".to_string(),
        )),
    );
    match next {
        RunState::Finished { result: RunResult::Failed(stage, cause) } => {
            assert_eq!(stage, Stage::Persist);
            assert_eq!(cause, "read-only destination");
        }
        _ => panic!("a failed persist must finish the run as failed"),
    }
}

#[test]
fn persist_success_finishes_run_successfully() {
    let next = advance(
        RunState::AwaitingPersist { payload: vec![1, 2, 3] },
        RunEvent::PersistCompleted(PersistOutcome::Saved),
    );
    match next {
        RunState::Finished { result } => {
            assert!(result.is_success());
        }
        _ => panic!("a successful persist must finish the run"),
    }
}
