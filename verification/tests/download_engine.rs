use grindstone::download::{
    plan_link, BatchState, Download, FetchAction, FetchEvent, FetchOutcome, FetchVerified,
    LinkStep,
};
use grindstone::errors::GrindstoneError;

fn task(url: &str, file: &str, sha1: Option<Vec<u8>>) -> Download {
    Download { url: url.to_string(), file: file.to_string(), sha1 }
}

#[test]
fn existing_file_without_digest_is_trusted() {
    let mut fetch = FetchVerified::new(task("u", "f", None));
    assert!(matches!(fetch.first_action(), FetchAction::CheckExists));
    let action = fetch.advance(FetchEvent::Exists(true));
    assert!(matches!(action, FetchAction::Finish(FetchOutcome::AlreadyValid)));
    assert_eq!(fetch.transfers, 0);
}

#[test]
fn matching_existing_file_performs_no_transfer() {
    let expected = vec![0xab, 0xcd];
    let mut fetch = FetchVerified::new(task("u", "f", Some(expected.clone())));
    let action = fetch.advance(FetchEvent::Exists(true));
    assert!(matches!(action, FetchAction::HashLocal));
    let action = fetch.advance(FetchEvent::LocalHash(Ok(expected)));
    assert!(matches!(action, FetchAction::Finish(FetchOutcome::AlreadyValid)));
    assert_eq!(fetch.transfers, 0);
}

#[test]
fn corrupt_existing_file_is_refetched_and_restored() {
    let expected = vec![0xab, 0xcd];
    let mut fetch = FetchVerified::new(task("u", "f", Some(expected.clone())));
    assert!(matches!(fetch.advance(FetchEvent::Exists(true)), FetchAction::HashLocal));
    let action = fetch.advance(FetchEvent::LocalHash(Ok(vec![0x00])));
    assert!(matches!(action, FetchAction::Transfer));
    let action = fetch.advance(FetchEvent::Transferred(Ok(())));
    assert!(matches!(action, FetchAction::HashFetched));
    let action = fetch.advance(FetchEvent::FetchedHash(Ok(expected)));
    assert!(matches!(action, FetchAction::Finish(FetchOutcome::Fetched)));
    assert_eq!(fetch.transfers, 1);
}

#[test]
fn persistent_mismatch_fails_with_checksum_mismatch() {
    let expected = vec![0xab, 0xcd];
    let mut fetch = FetchVerified::new(task("u", "f", Some(expected)));
    fetch.advance(FetchEvent::Exists(true));
    fetch.advance(FetchEvent::LocalHash(Ok(vec![0x00])));
    fetch.advance(FetchEvent::Transferred(Ok(())));
    let action = fetch.advance(FetchEvent::FetchedHash(Ok(vec![0x11])));
    assert!(matches!(
        action,
        FetchAction::Finish(FetchOutcome::Failed(GrindstoneError::ChecksumMismatch))
    ));
    assert_eq!(fetch.transfers, 1);
}

#[test]
fn missing_file_is_fetched_once() {
    let mut fetch = FetchVerified::new(task("u", "f", None));
    let action = fetch.advance(FetchEvent::Exists(false));
    assert!(matches!(action, FetchAction::Transfer));
    let action = fetch.advance(FetchEvent::Transferred(Ok(())));
    assert!(matches!(action, FetchAction::Finish(FetchOutcome::Fetched)));
    assert_eq!(fetch.transfers, 1);
}

#[test]
fn transfer_failure_is_not_retried() {
    let mut fetch = FetchVerified::new(task("u", "f", None));
    fetch.advance(FetchEvent::Exists(false));
    let action = fetch.advance(FetchEvent::Transferred(Err(GrindstoneError::Transport(
        "connection refused".to_string(),
    ))));
    assert!(matches!(
        action,
        FetchAction::Finish(FetchOutcome::Failed(GrindstoneError::Transport(_)))
    ));
    assert_eq!(fetch.transfers, 1);
}

#[test]
fn admission_never_exceeds_the_limit() {
    let tasks: Vec<Download> = (0..5)
        .map(|i| task(&format!("u{}", i), &format!("f{}", i), None))
        .collect();
    let mut batch = BatchState::new(tasks, 3);
    let first = batch.try_admit().expect("first admission");
    assert_eq!(first.url, "u0");
    assert!(batch.try_admit().is_some());
    assert!(batch.try_admit().is_some());
    assert_eq!(batch.in_flight, 3);
    assert!(batch.try_admit().is_none());
    let progress = batch.on_complete(Ok("u0".to_string()), "Downloaded".to_string());
    assert_eq!(progress.current, 1);
    assert_eq!(progress.max, 5);
    assert_eq!(batch.in_flight, 2);
    assert!(batch.try_admit().is_some());
    assert_eq!(batch.in_flight, 3);
    assert!(batch.try_admit().is_none());
}

#[test]
fn first_error_is_kept_and_completion_counts_are_monotonic() {
    let tasks: Vec<Download> = (0..3).map(|i| task(&format!("u{}", i), &format!("f{}", i), None)).collect();
    let mut batch = BatchState::new(tasks, 2);
    batch.try_admit();
    batch.try_admit();
    batch.on_complete(
        Err(GrindstoneError::Transport("boom".to_string())),
        "failed".to_string(),
    );
    batch.on_complete(
        Err(GrindstoneError::ChecksumMismatch),
        "failed too".to_string(),
    );
    assert!(matches!(batch.first_error, Some(GrindstoneError::Transport(_))));
    batch.try_admit();
    let progress = batch.on_complete(Ok("u2".to_string()), "done".to_string());
    assert_eq!(progress.current, 3);
    assert!(batch.is_done());
}

#[test]
fn link_materialization_is_decided_from_what_sits_there() {
    assert_eq!(plan_link(false, false, false), LinkStep::Create);
    assert_eq!(plan_link(true, true, true), LinkStep::Keep);
    assert_eq!(plan_link(true, false, false), LinkStep::Replace);
    assert_eq!(plan_link(true, true, false), LinkStep::Replace);
}
