//! Deletion notifications, and the filter that keeps the ones whose resolved
//! URI lies under a given table root.

use crate::decode::decode_key;
use crate::decode::percent_decoded;
use crate::path::matches_root;
use crate::path::uri_matches;
use vstd::prelude::*;
use vstd::string::*;

verus! {

/// One deletion notification as the transport delivers it: a bucket name and
/// a percent-encoded object key, either of which may be missing, and the
/// event time in milliseconds since the epoch.
#[derive(Clone, Debug)]
pub struct DeletionNotification {
    pub bucket: Option<String>,
    pub key: Option<String>,
    pub event_time_millis: i64,
}

/// Mathematical image of a `DeletionNotification`.
pub struct NotificationView {
    pub bucket: Option<Seq<char>>,
    pub key: Option<Seq<char>>,
    pub event_time_millis: int,
}

impl View for DeletionNotification {
    type V = NotificationView;

    open spec fn view(&self) -> NotificationView {
        NotificationView {
            bucket: match self.bucket {
                Some(b) => Some(b@),
                None => None,
            },
            key: match self.key {
                Some(k) => Some(k@),
                None => None,
            },
            event_time_millis: self.event_time_millis as int,
        }
    }
}

impl DeepView for DeletionNotification {
    type V = NotificationView;

    open spec fn deep_view(&self) -> NotificationView {
        self.view()
    }
}

/// A notification that survived validation: both names were present and the
/// key percent-decoded cleanly. The key is stored decoded; it is not decoded
/// again anywhere downstream.
#[derive(Clone, Debug)]
pub struct ValidatedRecord {
    pub bucket: String,
    pub decoded_key: String,
    pub event_time_millis: i64,
}

/// Mathematical image of a `ValidatedRecord`.
pub struct RecordView {
    pub bucket: Seq<char>,
    pub decoded_key: Seq<char>,
    pub event_time_millis: int,
}

impl View for ValidatedRecord {
    type V = RecordView;

    open spec fn view(&self) -> RecordView {
        RecordView {
            bucket: self.bucket@,
            decoded_key: self.decoded_key@,
            event_time_millis: self.event_time_millis as int,
        }
    }
}

impl DeepView for ValidatedRecord {
    type V = RecordView;

    open spec fn deep_view(&self) -> RecordView {
        self.view()
    }
}

/// The URI a notification resolves to: `s3://{bucket}/{decoded_key}`.
pub open spec fn uri_of(bucket: Seq<char>, decoded_key: Seq<char>) -> Seq<char> {
    "s3://"@ + bucket + "/"@ + decoded_key
}

/// Whether the filter keeps a notification: bucket and key are present, the
/// key percent-decodes, and the resolved URI lies under the root.
pub open spec fn keeps(root: Seq<char>, n: NotificationView) -> bool {
    &&& n.bucket is Some
    &&& n.key is Some
    &&& percent_decoded(n.key->Some_0) is Some
    &&& uri_matches(root, uri_of(n.bucket->Some_0, percent_decoded(n.key->Some_0)->Some_0))
}

/// The record a kept notification yields.
pub open spec fn record_of(n: NotificationView) -> RecordView {
    RecordView {
        bucket: n.bucket->Some_0,
        decoded_key: percent_decoded(n.key->Some_0)->Some_0,
        event_time_millis: n.event_time_millis,
    }
}

/// Whether a notification is malformed in the one counted way: both names are
/// present but the key does not percent-decode.
pub open spec fn is_skipped(n: NotificationView) -> bool {
    &&& n.bucket is Some
    &&& n.key is Some
    &&& percent_decoded(n.key->Some_0) is None
}

/// The records the filter yields for a batch, in input order.
pub open spec fn filtered(root: Seq<char>, ns: Seq<NotificationView>) -> Seq<RecordView>
    decreases ns.len(),
{
    if ns.len() == 0 {
        Seq::empty()
    } else if keeps(root, ns.last()) {
        filtered(root, ns.drop_last()).push(record_of(ns.last()))
    } else {
        filtered(root, ns.drop_last())
    }
}

/// How many notifications of a batch are skipped as malformed.
pub open spec fn skip_count(ns: Seq<NotificationView>) -> nat
    decreases ns.len(),
{
    if ns.len() == 0 {
        0
    } else if is_skipped(ns.last()) {
        skip_count(ns.drop_last()) + 1
    } else {
        skip_count(ns.drop_last())
    }
}

/// Every record the filter keeps resolves to a URI under the table root; a
/// notification whose resolved URI does not lie under the root (respecting
/// segment boundaries) contributes nothing to the output.
pub proof fn lemma_filter_excludes_non_matching(root: Seq<char>, ns: Seq<NotificationView>)
    ensures
        forall|k: int|
            0 <= k < filtered(root, ns).len() ==> uri_matches(
                root,
                uri_of(
                    (#[trigger] filtered(root, ns)[k]).bucket,
                    filtered(root, ns)[k].decoded_key,
                ),
            ),
    decreases ns.len(),
{
    if ns.len() > 0 {
        lemma_filter_excludes_non_matching(root, ns.drop_last());
        let prev = filtered(root, ns.drop_last());
        let cur = filtered(root, ns);
        assert forall|k: int| 0 <= k < cur.len() implies uri_matches(
            root,
            uri_of(cur[k].bucket, cur[k].decoded_key),
        ) by {
            if k < prev.len() {
                assert(cur[k] == prev[k]);
            } else {
                assert(keeps(root, ns.last()));
                assert(cur[k] == record_of(ns.last()));
            }
        }
    }
}

/// Keeps the notifications whose resolved URI `s3://{bucket}/{decoded key}`
/// lies under `location`, decoding each key exactly once; a notification
/// missing its bucket or key is skipped silently, and one whose key fails to
/// decode is skipped and counted in the second component.
pub fn validated_deletes(location: &str, notifications: &Vec<DeletionNotification>) -> (out: (
    Vec<ValidatedRecord>,
    usize,
))
    ensures
        out.0.deep_view() == filtered(location@, notifications.deep_view()),
        out.1 == skip_count(notifications.deep_view()),
{
    let ghost all = notifications.deep_view();
    let mut records: Vec<ValidatedRecord> = Vec::new();
    let mut skipped: usize = 0;
    let mut i: usize = 0;
    proof {
        assert(records.deep_view() =~= filtered(location@, all.take(0)));
        assert(all.take(0) =~= Seq::<NotificationView>::empty());
    }
    while i < notifications.len()
        invariant
            i <= notifications.len(),
            all == notifications.deep_view(),
            all.len() == notifications.len(),
            records.deep_view() == filtered(location@, all.take(i as int)),
            skipped == skip_count(all.take(i as int)),
            skipped <= i,
        decreases notifications.len() - i,
    {
        let n = &notifications[i];
        let ghost nv = all[i as int];
        proof {
            assert(nv == n.deep_view());
            assert(all.take(i + 1).drop_last() =~= all.take(i as int));
            assert(all.take(i + 1).last() == nv);
        }
        match (&n.bucket, &n.key) {
            (Some(bucket), Some(key)) => {
                match decode_key(key.as_str()) {
                    Some(decoded) => {
                        let mut uri = String::new();
                        uri.append("s3://");
                        uri.append(bucket.as_str());
                        uri.append("/");
                        uri.append(decoded.as_str());
                        proof {
                            assert(uri@ =~= uri_of(bucket@, decoded@));
                        }
                        if matches_root(location, uri.as_str()) {
                            let record = ValidatedRecord {
                                bucket: bucket.clone(),
                                decoded_key: decoded,
                                event_time_millis: n.event_time_millis,
                            };
                            proof {
                                assert(keeps(location@, nv));
                                assert(record.deep_view() == record_of(nv));
                            }
                            let ghost before = records.deep_view();
                            records.push(record);
                            proof {
                                assert(records.deep_view() =~= before.push(record_of(nv)));
                            }
                        } else {
                            proof {
                                assert(!keeps(location@, nv));
                            }
                        }
                    },
                    None => {
                        proof {
                            assert(is_skipped(nv));
                            assert(!keeps(location@, nv));
                        }
                        skipped = skipped + 1;
                    },
                }
            },
            _ => {
                proof {
                    assert(!keeps(location@, nv));
                    assert(!is_skipped(nv));
                }
            },
        }
        i = i + 1;
    }
    proof {
        assert(all.take(notifications.len() as int) =~= all);
    }
    (records, skipped)
}

} // verus!
