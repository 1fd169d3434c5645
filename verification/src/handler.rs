//! The entry point for one invocation: wires a batch of notifications through
//! the filter, the action builder and the committer, and reports a summary.

use crate::action::actions_for;
use crate::action::remove_actions_for;
use crate::notify::DeletionNotification;
use crate::notify::filtered;
use crate::notify::skip_count;
use crate::notify::validated_deletes;
use crate::table_log::CommitError;
use crate::table_log::TableLog;
use vstd::prelude::*;

verus! {

/// What one invocation did with its batch: how many notifications arrived,
/// how many fell under the table root, how many were skipped as malformed,
/// how many actions were committed, and the version the commit produced, if
/// one happened at all.
#[derive(Clone, Copy, Debug)]
pub struct Summary {
    pub received: usize,
    pub matched: usize,
    pub skipped: usize,
    pub committed: usize,
    pub version: Option<u64>,
}

/// Handles one batch: every notification under `table_root` becomes a remove
/// action, and the actions are committed together as the log's next version;
/// a batch with nothing to commit leaves the log untouched. A per-record
/// defect never fails the invocation; only an exhausted committer would.
pub fn handle(table_root: &str, table: &mut TableLog, notifications: &Vec<DeletionNotification>)
    -> (r: Result<Summary, CommitError>)
    requires
        old(table).wf(),
    ensures
        final(table).wf(),
        r is Ok,
        r matches Ok(s) ==> ({
            let recs = filtered(table_root@, notifications.deep_view());
            &&& s.received == notifications@.len()
            &&& s.matched == recs.len()
            &&& s.skipped == skip_count(notifications.deep_view())
            &&& s.committed == recs.len()
            &&& (recs.len() == 0 ==> final(table)@ == old(table)@ && s.version is None)
            &&& (recs.len() > 0 ==> final(table)@ == old(table)@.push(actions_for(recs))
                && s.version == Some(old(table)@.len() as u64))
        }),
{
    let received = notifications.len();
    let (records, skipped) = validated_deletes(table_root, notifications);
    let matched = records.len();
    let actions = remove_actions_for(&records);
    if actions.len() == 0 {
        Ok(Summary { received, matched, skipped, committed: 0, version: None })
    } else {
        match table.commit(actions) {
            Ok(v) => Ok(
                Summary { received, matched, skipped, committed: matched, version: Some(v) },
            ),
            Err(e) => {
                proof {
                    assert(false);
                }
                Err(e)
            },
        }
    }
}

} // verus!
