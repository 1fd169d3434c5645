//! Remove actions, and the builder that turns validated records into them.

use crate::notify::RecordView;
use crate::notify::ValidatedRecord;
use vstd::prelude::*;

verus! {

/// One "remove" entry of the transaction log: this file is logically removed
/// from the table as of `deletion_timestamp` (milliseconds since the epoch).
#[derive(Clone, Debug)]
pub struct RemoveAction {
    pub path: String,
    pub deletion_timestamp: i64,
    pub data_change: bool,
}

/// Mathematical image of a `RemoveAction`.
pub struct ActionView {
    pub path: Seq<char>,
    pub deletion_timestamp: int,
    pub data_change: bool,
}

impl View for RemoveAction {
    type V = ActionView;

    open spec fn view(&self) -> ActionView {
        ActionView {
            path: self.path@,
            deletion_timestamp: self.deletion_timestamp as int,
            data_change: self.data_change,
        }
    }
}

impl DeepView for RemoveAction {
    type V = ActionView;

    open spec fn deep_view(&self) -> ActionView {
        self.view()
    }
}

/// The action a single record yields: its decoded key becomes the path, its
/// event time the deletion timestamp, and the data-change flag is always set.
pub open spec fn action_of(r: RecordView) -> ActionView {
    ActionView { path: r.decoded_key, deletion_timestamp: r.event_time_millis, data_change: true }
}

/// The actions a batch of records yields, one per record, in order.
pub open spec fn actions_for(rs: Seq<RecordView>) -> Seq<ActionView> {
    rs.map_values(|r: RecordView| action_of(r))
}

/// The builder is pure and total: every record yields exactly one action,
/// whose `data_change` flag is set, whose deletion timestamp is the record's
/// event time verbatim, and whose path is the decoded key as received.
pub proof fn lemma_one_action_per_record(rs: Seq<RecordView>)
    ensures
        actions_for(rs).len() == rs.len(),
        forall|i: int| 0 <= i < rs.len() ==> (#[trigger] actions_for(rs)[i]).data_change == true,
        forall|i: int|
            0 <= i < rs.len() ==> (#[trigger] actions_for(rs)[i]).deletion_timestamp
                == rs[i].event_time_millis,
        forall|i: int|
            0 <= i < rs.len() ==> (#[trigger] actions_for(rs)[i]).path == rs[i].decoded_key,
{
}

/// Builds one remove action per validated record, in input order.
pub fn remove_actions_for(records: &Vec<ValidatedRecord>) -> (actions: Vec<RemoveAction>)
    ensures
        actions.deep_view() == actions_for(records.deep_view()),
{
    let ghost all = records.deep_view();
    let mut actions: Vec<RemoveAction> = Vec::new();
    let mut i: usize = 0;
    proof {
        assert(actions.deep_view() =~= actions_for(all.take(0)));
    }
    while i < records.len()
        invariant
            i <= records.len(),
            all == records.deep_view(),
            all.len() == records.len(),
            actions.deep_view() == actions_for(all.take(i as int)),
        decreases records.len() - i,
    {
        let r = &records[i];
        let action = RemoveAction {
            path: r.decoded_key.clone(),
            deletion_timestamp: r.event_time_millis,
            data_change: true,
        };
        proof {
            assert(action.deep_view() == action_of(all[i as int]));
        }
        let ghost before = actions.deep_view();
        actions.push(action);
        proof {
            assert(actions.deep_view() =~= before.push(action_of(all[i as int])));
            assert(actions.deep_view() =~= actions_for(all.take(i + 1)));
        }
        i = i + 1;
    }
    proof {
        assert(all.take(records.len() as int) =~= all);
    }
    actions
}

} // verus!
