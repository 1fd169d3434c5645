//! The optimistic-concurrency commit protocol, as a step function from the
//! attempt's state and a storage event to the next state and a command.
//!
//! The driver that talks to the log's storage performs each command — read
//! the current version, or attempt the conditional write — and feeds the
//! outcome back in. The decisions themselves (which version to claim, when to
//! retry, when to give up) all stand here. A lost version race is retried up
//! to `CONFLICT_RETRIES` times, re-reading the current version each time; a
//! failed read or write is retried up to the smaller `IO_RETRIES` bound and
//! then surfaced as `CommitError::Unavailable`.

use crate::action::RemoveAction;
use crate::table_log::CommitError;
use vstd::prelude::*;

verus! {

/// How many times a commit is retried after losing a version race.
pub const CONFLICT_RETRIES: u64 = 15;

/// How many times a failed storage read or write is retried; a smaller bound
/// than the conflict one, so unavailability is surfaced early.
pub const IO_RETRIES: u64 = 5;

/// What the storage layer reported back to the protocol.
#[derive(Clone, Copy, Debug, PartialEq, Eq, Structural)]
pub enum CommitEvent {
    /// A read returned the log's current version.
    CurrentVersion(u64),
    /// The read failed: storage was unreachable.
    ReadFailed,
    /// The conditional write claimed its version.
    WriteSucceeded,
    /// The conditional write was refused: the version is already taken.
    WriteConflicted,
    /// The write failed: storage was unreachable.
    WriteFailed,
}

/// What the driver must do next.
#[derive(Clone, Copy, Debug, PartialEq, Eq, Structural)]
pub enum CommitCommand {
    /// Read the log's current version.
    ReadVersion,
    /// Attempt the conditional write of the attempt's actions at this version.
    WriteVersion(u64),
    /// The commit went through at this version.
    Succeed(u64),
    /// The commit is abandoned; the caller must not assume the actions were
    /// recorded.
    Fail(CommitError),
}

/// The state of one commit attempt: the actions to seal, the retries it may
/// still spend, and the version an in-flight conditional write targets.
pub struct CommitAttempt {
    pub actions: Vec<RemoveAction>,
    pub conflict_retries_left: u64,
    pub io_retries_left: u64,
    pub target: Option<u64>,
}

impl CommitAttempt {
    /// A fresh attempt for one batch of actions. The driver's first command
    /// is always to read the current version.
    pub fn new(actions: Vec<RemoveAction>) -> (a: CommitAttempt)
        ensures
            a.actions == actions,
            a.conflict_retries_left == CONFLICT_RETRIES,
            a.io_retries_left == IO_RETRIES,
            a.target is None,
    {
        CommitAttempt {
            actions,
            conflict_retries_left: CONFLICT_RETRIES,
            io_retries_left: IO_RETRIES,
            target: None,
        }
    }

    /// Advances the protocol by one storage event. A read of version `v`
    /// always leads to a write targeting `v + 1`; a refused write never
    /// rewrites anything, it re-reads and claims a later version or gives up.
    pub fn step(self, event: CommitEvent) -> (r: (CommitAttempt, CommitCommand))
        requires
            event matches CommitEvent::CurrentVersion(v) ==> v < u64::MAX,
            event is WriteSucceeded ==> self.target is Some,
            event is WriteFailed ==> self.target is Some,
        ensures
            r.0.actions == self.actions,
            event matches CommitEvent::CurrentVersion(v) ==> r.1 == CommitCommand::WriteVersion(
                (v + 1) as u64,
            ) && r.0.target == Some((v + 1) as u64) && r.0.conflict_retries_left
                == self.conflict_retries_left && r.0.io_retries_left == self.io_retries_left,
            event is WriteSucceeded ==> r.1 == CommitCommand::Succeed(self.target->Some_0),
            event is WriteConflicted && self.conflict_retries_left > 0 ==> r.1
                == CommitCommand::ReadVersion && r.0.conflict_retries_left
                == self.conflict_retries_left - 1 && r.0.io_retries_left == self.io_retries_left
                && r.0.target is None,
            event is WriteConflicted && self.conflict_retries_left == 0 ==> r.1
                == CommitCommand::Fail(CommitError::Conflict),
            event is ReadFailed && self.io_retries_left > 0 ==> r.1 == CommitCommand::ReadVersion
                && r.0.io_retries_left == self.io_retries_left - 1 && r.0.conflict_retries_left
                == self.conflict_retries_left,
            event is ReadFailed && self.io_retries_left == 0 ==> r.1 == CommitCommand::Fail(
                CommitError::Unavailable,
            ),
            event is WriteFailed && self.io_retries_left > 0 ==> r.1 == CommitCommand::WriteVersion(
                self.target->Some_0,
            ) && r.0.io_retries_left == self.io_retries_left - 1 && r.0.conflict_retries_left
                == self.conflict_retries_left && r.0.target == self.target,
            event is WriteFailed && self.io_retries_left == 0 ==> r.1 == CommitCommand::Fail(
                CommitError::Unavailable,
            ),
    {
        match event {
            CommitEvent::CurrentVersion(v) => {
                let next = v + 1;
                let updated = CommitAttempt { target: Some(next), ..self };
                (updated, CommitCommand::WriteVersion(next))
            },
            CommitEvent::WriteSucceeded => {
                let claimed = match self.target {
                    Some(t) => t,
                    None => 0,
                };
                (self, CommitCommand::Succeed(claimed))
            },
            CommitEvent::WriteConflicted => {
                if self.conflict_retries_left > 0 {
                    let updated = CommitAttempt {
                        conflict_retries_left: self.conflict_retries_left - 1,
                        target: None,
                        ..self
                    };
                    (updated, CommitCommand::ReadVersion)
                } else {
                    (self, CommitCommand::Fail(CommitError::Conflict))
                }
            },
            CommitEvent::ReadFailed => {
                if self.io_retries_left > 0 {
                    let updated = CommitAttempt { io_retries_left: self.io_retries_left - 1, ..self };
                    (updated, CommitCommand::ReadVersion)
                } else {
                    (self, CommitCommand::Fail(CommitError::Unavailable))
                }
            },
            CommitEvent::WriteFailed => {
                if self.io_retries_left > 0 {
                    let retry = match self.target {
                        Some(t) => t,
                        None => 0,
                    };
                    let updated = CommitAttempt { io_retries_left: self.io_retries_left - 1, ..self };
                    (updated, CommitCommand::WriteVersion(retry))
                } else {
                    (self, CommitCommand::Fail(CommitError::Unavailable))
                }
            },
        }
    }
}

/// The delay before a retry, by the number of retries already spent: it
/// doubles from 100 ms up to a 6400 ms cap. The driver adds jitter of its own
/// before sleeping.
pub open spec fn backoff_millis_spec(retries_used: int) -> int {
    if retries_used <= 0 {
        100
    } else if retries_used == 1 {
        200
    } else if retries_used == 2 {
        400
    } else if retries_used == 3 {
        800
    } else if retries_used == 4 {
        1600
    } else if retries_used == 5 {
        3200
    } else {
        6400
    }
}

/// Computes the backoff schedule.
pub fn backoff_millis(retries_used: u64) -> (d: u64)
    ensures
        d as int == backoff_millis_spec(retries_used as int),
{
    if retries_used == 0 {
        100
    } else if retries_used == 1 {
        200
    } else if retries_used == 2 {
        400
    } else if retries_used == 3 {
        800
    } else if retries_used == 4 {
        1600
    } else if retries_used == 5 {
        3200
    } else {
        6400
    }
}

} // verus!
