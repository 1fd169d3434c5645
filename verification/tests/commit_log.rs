use delta_reconcile::action::RemoveAction;
use delta_reconcile::commit::backoff_millis;
use delta_reconcile::commit::CommitAttempt;
use delta_reconcile::commit::CommitCommand;
use delta_reconcile::commit::CommitEvent;
use delta_reconcile::commit::CONFLICT_RETRIES;
use delta_reconcile::commit::IO_RETRIES;
use delta_reconcile::table_log::CommitError;
use delta_reconcile::table_log::TableLog;

fn remove(path: &str) -> RemoveAction {
    RemoveAction { path: String::from(path), deletion_timestamp: 42, data_change: true }
}

#[test]
fn empty_commit_is_a_noop() {
    let mut log = TableLog::new();
    let version = log.commit(Vec::new()).unwrap();
    assert_eq!(0, version);
    assert_eq!(0, log.current_version());
}

#[test]
fn commit_appends_the_next_version() {
    let mut log = TableLog::new();
    let version = log.commit(vec![remove("tables/test/a.parquet")]).unwrap();
    assert_eq!(1, version);
    assert_eq!(1, log.current_version());
    assert!(log.is_removed("tables/test/a.parquet"));
    assert!(!log.is_removed("tables/test/b.parquet"));
}

#[test]
fn recommitting_a_batch_changes_no_reader_outcome() {
    let mut log = TableLog::new();
    let batch = vec![remove("tables/test/a.parquet"), remove("tables/test/b.parquet")];
    let first = log.commit(batch.clone()).unwrap();
    let removed_after_first = (
        log.is_removed("tables/test/a.parquet"),
        log.is_removed("tables/test/b.parquet"),
        log.is_removed("tables/test/c.parquet"),
    );
    let second = log.commit(batch).unwrap();
    assert_eq!(first + 1, second, "The redelivered batch still takes its own version");
    let removed_after_second = (
        log.is_removed("tables/test/a.parquet"),
        log.is_removed("tables/test/b.parquet"),
        log.is_removed("tables/test/c.parquet"),
    );
    assert_eq!(removed_after_first, removed_after_second);
    assert_eq!((true, true, false), removed_after_second);
}

#[test]
fn conditional_write_refuses_a_taken_version() {
    let mut log = TableLog::new();
    assert!(log.write_version(1, vec![remove("a")]).is_ok());
    // A concurrent writer that also read base 0 targets version 1 and loses.
    assert!(log.write_version(1, vec![remove("b")]).is_err());
    assert_eq!(1, log.current_version(), "The refused write changed nothing");
    assert!(!log.is_removed("b"));
    // Its retry re-reads the current version and claims 2.
    assert!(log.write_version(2, vec![remove("b")]).is_ok());
    assert_eq!(2, log.current_version());
    assert!(log.is_removed("a"));
    assert!(log.is_removed("b"));
}

#[test]
fn commit_step_retries_after_a_lost_race() {
    let attempt = CommitAttempt::new(vec![remove("a")]);
    let (attempt, cmd) = attempt.step(CommitEvent::CurrentVersion(0));
    assert_eq!(CommitCommand::WriteVersion(1), cmd);
    let (attempt, cmd) = attempt.step(CommitEvent::WriteConflicted);
    assert_eq!(CommitCommand::ReadVersion, cmd);
    assert_eq!(CONFLICT_RETRIES - 1, attempt.conflict_retries_left);
    let (attempt, cmd) = attempt.step(CommitEvent::CurrentVersion(1));
    assert_eq!(CommitCommand::WriteVersion(2), cmd);
    let (_attempt, cmd) = attempt.step(CommitEvent::WriteSucceeded);
    assert_eq!(CommitCommand::Succeed(2), cmd);
}

#[test]
fn commit_step_exhausts_conflict_retries() {
    let mut attempt = CommitAttempt::new(vec![remove("a")]);
    let mut version: u64 = 0;
    for _ in 0..CONFLICT_RETRIES {
        let (next, cmd) = attempt.step(CommitEvent::CurrentVersion(version));
        assert_eq!(CommitCommand::WriteVersion(version + 1), cmd);
        let (next, cmd) = next.step(CommitEvent::WriteConflicted);
        assert_eq!(CommitCommand::ReadVersion, cmd);
        attempt = next;
        version += 1;
    }
    let (next, cmd) = attempt.step(CommitEvent::CurrentVersion(version));
    assert_eq!(CommitCommand::WriteVersion(version + 1), cmd);
    let (_next, cmd) = next.step(CommitEvent::WriteConflicted);
    assert_eq!(CommitCommand::Fail(CommitError::Conflict), cmd);
}

#[test]
fn commit_step_exhausts_io_retries() {
    let mut attempt = CommitAttempt::new(vec![remove("a")]);
    for _ in 0..IO_RETRIES {
        let (next, cmd) = attempt.step(CommitEvent::ReadFailed);
        assert_eq!(CommitCommand::ReadVersion, cmd);
        attempt = next;
    }
    let (_next, cmd) = attempt.step(CommitEvent::ReadFailed);
    assert_eq!(CommitCommand::Fail(CommitError::Unavailable), cmd);
}

#[test]
fn commit_step_retries_a_failed_write() {
    let attempt = CommitAttempt::new(vec![remove("a")]);
    let (attempt, cmd) = attempt.step(CommitEvent::CurrentVersion(4));
    assert_eq!(CommitCommand::WriteVersion(5), cmd);
    let (attempt, cmd) = attempt.step(CommitEvent::WriteFailed);
    assert_eq!(CommitCommand::WriteVersion(5), cmd);
    assert_eq!(IO_RETRIES - 1, attempt.io_retries_left);
}

#[test]
fn backoff_doubles_up_to_the_cap() {
    assert_eq!(100, backoff_millis(0));
    assert_eq!(200, backoff_millis(1));
    assert_eq!(400, backoff_millis(2));
    assert_eq!(800, backoff_millis(3));
    assert_eq!(1600, backoff_millis(4));
    assert_eq!(3200, backoff_millis(5));
    assert_eq!(6400, backoff_millis(6));
    assert_eq!(6400, backoff_millis(60));
}
