//! Decides whether a storage URI lies under a table root.
//!
//! The comparison is lexical, but respects path-segment boundaries: after
//! trailing slashes are stripped from both sides, the root must either be the
//! whole URI or a prefix of it that ends exactly where a `/` begins the next
//! segment. A root `s3://b/tables/test` therefore does not match
//! `s3://b/tables/testing/x`.

use vstd::prelude::*;
use vstd::string::*;

verus! {

/// Length of `s` once all trailing `'/'` characters are removed.
pub open spec fn norm_len(s: Seq<char>) -> nat
    decreases s.len(),
{
    if s.len() > 0 && s.last() == '/' {
        norm_len(s.drop_last())
    } else {
        s.len()
    }
}

pub proof fn lemma_norm_len_le(s: Seq<char>)
    ensures
        norm_len(s) <= s.len(),
    decreases s.len(),
{
    if s.len() > 0 && s.last() == '/' {
        lemma_norm_len_le(s.drop_last());
    }
}

/// `s` with all trailing `'/'` characters removed.
pub open spec fn norm(s: Seq<char>) -> Seq<char> {
    s.take(norm_len(s) as int)
}

/// A candidate URI lies under a table root iff, once trailing slashes are
/// stripped from both, the root is the whole URI or a prefix of it that ends
/// at a path-segment boundary.
pub open spec fn uri_matches(root: Seq<char>, uri: Seq<char>) -> bool {
    let r = norm(root);
    let u = norm(uri);
    u == r || (r.len() < u.len() && u.take(r.len() as int) == r && u[r.len() as int] == '/')
}

/// Number of characters of `s` that remain once trailing slashes go.
fn stripped_len(s: &str) -> (n: usize)
    ensures
        n == norm_len(s@),
{
    let mut n = s.unicode_len();
    proof {
        assert(s@.take(n as int) =~= s@);
    }
    loop
        invariant
            n <= s@.len(),
            norm_len(s@) == norm_len(s@.take(n as int)),
        ensures
            n <= s@.len(),
            norm_len(s@) == norm_len(s@.take(n as int)),
            n == 0 || s@[n - 1] != '/',
        decreases n,
    {
        if n == 0 {
            break;
        }
        let c = s.get_char(n - 1);
        if c != '/' {
            break;
        }
        proof {
            assert(s@.take(n as int).drop_last() =~= s@.take(n as int - 1));
        }
        n = n - 1;
    }
    proof {
        if n == 0 {
            assert(s@.take(0).len() == 0);
        } else {
            assert(s@.take(n as int).last() == s@[n - 1]);
        }
    }
    n
}

/// True iff the first `n` characters of `a` and of `b` coincide.
fn eq_prefix(a: &str, b: &str, n: usize) -> (r: bool)
    requires
        n <= a@.len(),
        n <= b@.len(),
    ensures
        r == (a@.take(n as int) == b@.take(n as int)),
{
    let mut i: usize = 0;
    while i < n
        invariant
            i <= n,
            n <= a@.len(),
            n <= b@.len(),
            forall|j: int| 0 <= j < i ==> a@[j] == b@[j],
        decreases n - i,
    {
        let ca = a.get_char(i);
        let cb = b.get_char(i);
        if ca != cb {
            proof {
                assert(a@.take(n as int)[i as int] == a@[i as int]);
                assert(b@.take(n as int)[i as int] == b@[i as int]);
            }
            return false;
        }
        i = i + 1;
    }
    proof {
        assert(a@.take(n as int) =~= b@.take(n as int));
    }
    true
}

/// Decides whether `candidate` lies under `table_root`, treating a trailing
/// slash on either side as insignificant and requiring the match to end at a
/// path-segment boundary.
pub fn matches_root(table_root: &str, candidate: &str) -> (b: bool)
    ensures
        b == uri_matches(table_root@, candidate@),
{
    proof {
        lemma_norm_len_le(table_root@);
        lemma_norm_len_le(candidate@);
    }
    let rl = stripped_len(table_root);
    let ul = stripped_len(candidate);
    if ul == rl {
        eq_prefix(table_root, candidate, rl)
    } else if rl < ul {
        let prefix_eq = eq_prefix(table_root, candidate, rl);
        if prefix_eq {
            proof {
                assert(norm(candidate@).take(rl as int) =~= candidate@.take(rl as int));
                assert(norm(candidate@)[rl as int] == candidate@[rl as int]);
            }
            let c = candidate.get_char(rl);
            c == '/'
        } else {
            proof {
                assert(norm(candidate@).take(rl as int) =~= candidate@.take(rl as int));
            }
            false
        }
    } else {
        false
    }
}

} // verus!
