//! An in-memory model of the table's transaction log: an append-only sequence
//! of versions, each sealing the batch of actions it was committed with.
//!
//! Version `v` is the batch at index `v`; the log's storage-level conditional
//! write is modelled by `write_version`, which claims a version number only if
//! no batch exists under it yet. This is the discipline every writer must
//! follow, and what makes concurrent commits safe.

use crate::action::ActionView;
use crate::action::RemoveAction;
use vstd::prelude::*;
use vstd::string::*;

verus! {

/// The conditional write at the storage layer refused the version: a file
/// already exists under that version number.
pub struct WriteConflict;

/// Why a commit failed for good.
#[derive(Clone, Copy, Debug, PartialEq, Eq, Structural)]
pub enum CommitError {
    /// Another writer claimed every version this writer tried; retries are
    /// exhausted. The caller must not assume the deletion was recorded.
    Conflict,
    /// Storage stayed unreachable through the (smaller) I/O retry bound.
    Unavailable,
}

/// A writer holding base version `v` may claim `v + 1` exactly when no batch
/// was committed under that number yet.
pub open spec fn claim_succeeds(log: Seq<Seq<ActionView>>, version: int) -> bool {
    version == log.len()
}

/// The log after a conditional write: extended by the batch when the claim
/// succeeds, untouched otherwise — a refused write never overwrites.
pub open spec fn log_after_claim(
    log: Seq<Seq<ActionView>>,
    version: int,
    batch: Seq<ActionView>,
) -> Seq<Seq<ActionView>> {
    if claim_succeeds(log, version) {
        log.push(batch)
    } else {
        log
    }
}

/// The paths a reader of the whole log considers removed: a path is removed
/// iff any committed version holds a remove action for it.
pub open spec fn removed_paths(log: Seq<Seq<ActionView>>) -> Set<Seq<char>> {
    Set::new(
        |p: Seq<char>|
            exists|i: int, j: int|
                0 <= i < log.len() && 0 <= j < log[i].len() && (#[trigger] log[i][j]).path == p,
    )
}

/// Committing the same batch a second time (a redelivered notification) adds
/// a version but changes nothing a reader observes: the set of removed paths
/// after the second commit equals the set after the first.
pub proof fn lemma_commit_idempotent(log: Seq<Seq<ActionView>>, batch: Seq<ActionView>)
    ensures
        removed_paths(log.push(batch).push(batch)) == removed_paths(log.push(batch)),
{
    let once = log.push(batch);
    let twice = once.push(batch);
    assert forall|p: Seq<char>| removed_paths(twice).contains(p) implies removed_paths(
        once,
    ).contains(p) by {
        let (i, j): (int, int) = choose|i: int, j: int|
            0 <= i < twice.len() && 0 <= j < twice[i].len() && (#[trigger] twice[i][j]).path == p;
        if i < once.len() {
            assert(once[i][j].path == p);
        } else {
            assert(twice[i] == batch);
            assert(once[once.len() - 1][j].path == p);
        }
    }
    assert forall|p: Seq<char>| removed_paths(once).contains(p) implies removed_paths(
        twice,
    ).contains(p) by {
        let (i, j): (int, int) = choose|i: int, j: int|
            0 <= i < once.len() && 0 <= j < once[i].len() && (#[trigger] once[i][j]).path == p;
        assert(twice[i][j].path == p);
    }
    assert(removed_paths(twice) =~= removed_paths(once));
}

/// Two writers that both read `base` as the current version: the first
/// conditional write claims `base + 1`; the second writer's attempt at
/// `base + 1` is refused and changes nothing, and its retry — re-reading the
/// current version as `base + 1` — claims `base + 2`. Both batches end up in
/// the log, each under its own version.
pub proof fn lemma_conflicting_commits_serialize(
    log: Seq<Seq<ActionView>>,
    first: Seq<ActionView>,
    second: Seq<ActionView>,
)
    requires
        log.len() >= 1,
    ensures
        ({
            let base = log.len() - 1;
            let after_first = log_after_claim(log, base + 1, first);
            &&& claim_succeeds(log, base + 1)
            &&& after_first == log.push(first)
            &&& !claim_succeeds(after_first, base + 1)
            &&& log_after_claim(after_first, base + 1, second) == after_first
            &&& claim_succeeds(after_first, base + 2)
            &&& log_after_claim(after_first, base + 2, second) == log.push(first).push(second)
        }),
{
}

/// The transaction log, held in memory. The log always holds at least the
/// version the table was created with.
pub struct TableLog {
    versions: Vec<Vec<RemoveAction>>,
}

impl View for TableLog {
    type V = Seq<Seq<ActionView>>;

    closed spec fn view(&self) -> Seq<Seq<ActionView>> {
        self.versions.deep_view()
    }
}

impl TableLog {
    /// A log is well formed when at least one version is committed.
    pub open spec fn wf(&self) -> bool {
        self@.len() >= 1
    }

    /// A fresh table: version 0 exists and holds no actions.
    pub fn new() -> (t: TableLog)
        ensures
            t.wf(),
            t@ == seq![Seq::<ActionView>::empty()],
    {
        let mut versions: Vec<Vec<RemoveAction>> = Vec::new();
        versions.push(Vec::new());
        let t = TableLog { versions };
        proof {
            assert(t@.len() == 1);
            assert(t@[0] =~= Seq::<ActionView>::empty());
            assert(t@ =~= seq![Seq::<ActionView>::empty()]);
        }
        t
    }

    /// The highest committed version number.
    pub fn current_version(&self) -> (v: u64)
        requires
            self.wf(),
        ensures
            v as int == self@.len() - 1,
    {
        (self.versions.len() - 1) as u64
    }

    /// The storage layer's conditional write: claims `version` for `actions`
    /// if and only if nothing is committed under that number yet; a refused
    /// write leaves the log exactly as it was.
    pub fn write_version(&mut self, version: u64, actions: Vec<RemoveAction>) -> (r: Result<
        (),
        WriteConflict,
    >)
        ensures
            final(self)@ == log_after_claim(old(self)@, version as int, actions.deep_view()),
            r is Ok <==> claim_succeeds(old(self)@, version as int),
            old(self).wf() ==> final(self).wf(),
    {
        if version == self.versions.len() as u64 {
            self.versions.push(actions);
            proof {
                assert(self@ =~= old(self)@.push(actions.deep_view()));
            }
            Ok(())
        } else {
            Err(WriteConflict)
        }
    }

    /// Commits a batch of actions as the next version. An empty batch is a
    /// no-op: the current version is returned and nothing is written. Against
    /// this in-memory log the writer holds the log exclusively, so the first
    /// claim succeeds and the result is always `Ok`.
    pub fn commit(&mut self, actions: Vec<RemoveAction>) -> (r: Result<u64, CommitError>)
        requires
            old(self).wf(),
        ensures
            final(self).wf(),
            actions.deep_view().len() == 0 ==> final(self)@ == old(self)@ && r == Ok::<
                u64,
                CommitError,
            >((old(self)@.len() - 1) as u64),
            actions.deep_view().len() > 0 ==> final(self)@ == old(self)@.push(actions.deep_view())
                && r == Ok::<u64, CommitError>(old(self)@.len() as u64),
    {
        if actions.len() == 0 {
            return Ok(self.current_version());
        }
        let next = self.versions.len() as u64;
        match self.write_version(next, actions) {
            Ok(()) => Ok(next),
            Err(_) => {
                proof {
                    assert(false);
                }
                Err(CommitError::Conflict)
            },
        }
    }

    /// Whether any committed version marks `path` as removed — the view a
    /// log reader takes of a path.
    pub fn is_removed(&self, path: &str) -> (r: bool)
        ensures
            r == removed_paths(self@).contains(path@),
    {
        let mut i: usize = 0;
        while i < self.versions.len()
            invariant
                i <= self.versions.len(),
                forall|a: int, b: int|
                    0 <= a < i && 0 <= b < self@[a].len() ==> (#[trigger] self@[a][b]).path
                        != path@,
            decreases self.versions.len() - i,
        {
            let batch = &self.versions[i];
            let mut j: usize = 0;
            while j < batch.len()
                invariant
                    i < self.versions.len(),
                    j <= batch.len(),
                    batch == &self.versions[i as int],
                    batch.deep_view() == self@[i as int],
                    forall|b: int| 0 <= b < j ==> (#[trigger] self@[i as int][b]).path != path@,
                decreases batch.len() - j,
            {
                if str_eq(batch[j].path.as_str(), path) {
                    proof {
                        assert(self@[i as int][j as int].path == path@);
                        assert(removed_paths(self@).contains(path@));
                    }
                    return true;
                }
                j = j + 1;
            }
            i = i + 1;
        }
        proof {
            assert(!removed_paths(self@).contains(path@));
        }
        false
    }
}

/// Character-for-character equality of two strings.
fn str_eq(a: &str, b: &str) -> (r: bool)
    ensures
        r == (a@ == b@),
{
    let la = a.unicode_len();
    let lb = b.unicode_len();
    if la != lb {
        return false;
    }
    let mut i: usize = 0;
    while i < la
        invariant
            i <= la,
            la == a@.len(),
            la == b@.len(),
            forall|j: int| 0 <= j < i ==> a@[j] == b@[j],
        decreases la - i,
    {
        if a.get_char(i) != b.get_char(i) {
            return false;
        }
        i = i + 1;
    }
    proof {
        assert(a@ =~= b@);
    }
    true
}

} // verus!
