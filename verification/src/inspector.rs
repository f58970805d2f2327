//! Locating the proposal document among a pull request's changed files.

use vstd::prelude::*;

use crate::errors::RfcMergePrError;
use crate::textutil::has_prefix;

verus! {

/// The predicate a changed file's path must meet: beginning with the
/// configured document prefix.
pub open spec fn matches_prefix(prefix: Seq<char>) -> spec_fn(Seq<char>) -> bool {
    |p: Seq<char>| prefix.is_prefix_of(p)
}

/// The paths among `all` that match the prefix, in order.
pub open spec fn matched_docs(all: Seq<Seq<char>>, prefix: Seq<char>) -> Seq<Seq<char>> {
    all.filter(matches_prefix(prefix))
}

proof fn lemma_filter_take_push<A>(s: Seq<A>, pred: spec_fn(A) -> bool, i: int)
    requires
        0 <= i < s.len(),
    ensures
        s.take(i + 1).filter(pred) == if pred(s[i]) {
            s.take(i).filter(pred).push(s[i])
        } else {
            s.take(i).filter(pred)
        },
{
    reveal(Seq::filter);
    assert(s.take(i + 1).drop_last() =~= s.take(i));
    assert(s.take(i + 1).last() == s[i]);
}

/// The error owed when the matched paths among `all` do not number
/// exactly one: the matched paths are carried — or, when nothing matched
/// at all, every considered path.
pub open spec fn locate_error_matches(
    all: Seq<Seq<char>>,
    prefix: Seq<char>,
    e: RfcMergePrError,
) -> bool {
    let m = matched_docs(all, prefix);
    &&& m.len() != 1
    &&& e matches RfcMergePrError::AmbiguousOrMissingDocument { candidates }
    &&& candidates.deep_view() == if m.len() == 0 {
        all
    } else {
        m
    }
}

/// Selects the single changed file whose path begins with `prefix`.
///
/// Succeeds exactly when one path matches; with zero or several matches it
/// fails with `AmbiguousOrMissingDocument`, carrying the matched paths —
/// or, when nothing matched at all, every considered path — for
/// diagnostics.
pub fn locate_document(files: &Vec<String>, prefix: &str) -> (r: Result<
    String,
    RfcMergePrError,
>)
    ensures
        ({
            let all = files.deep_view();
            let m = matched_docs(all, prefix@);
            match r {
                Ok(path) => m.len() == 1 && path@ == m[0],
                Err(e) => locate_error_matches(all, prefix@, e),
            }
        }),
{
    let ghost all = files.deep_view();
    let ghost pred = matches_prefix(prefix@);
    let mut matched: Vec<String> = Vec::new();
    let n = files.len();
    let mut i: usize = 0;
    while i < n
        invariant
            i <= n,
            n == files.len(),
            all == files.deep_view(),
            pred == matches_prefix(prefix@),
            matched.deep_view() == all.take(i as int).filter(pred),
        decreases n - i,
    {
        proof {
            lemma_filter_take_push(all, pred, i as int);
        }
        if has_prefix(files[i].as_str(), prefix) {
            let ghost before = matched.deep_view();
            matched.push(files[i].clone());
            proof {
                assert(matched.deep_view() =~= before.push(all[i as int]));
            }
        } else {
            proof {
                assert(all[i as int] == files@[i as int]@);
            }
        }
        i = i + 1;
    }
    proof {
        assert(all.take(n as int) =~= all);
    }
    if matched.len() == 1 {
        let path = matched.remove(0);
        proof {
            assert(path@ == matched_docs(all, prefix@)[0]);
        }
        Ok(path)
    } else if matched.len() == 0 {
        let mut considered: Vec<String> = Vec::new();
        let mut j: usize = 0;
        while j < n
            invariant
                j <= n,
                n == files.len(),
                all == files.deep_view(),
                considered@ =~= files@.take(j as int),
            decreases n - j,
        {
            considered.push(files[j].clone());
            j = j + 1;
        }
        proof {
            assert(considered@ =~= files@);
            assert(considered.deep_view() =~= all);
        }
        Err(RfcMergePrError::AmbiguousOrMissingDocument { candidates: considered })
    } else {
        Err(RfcMergePrError::AmbiguousOrMissingDocument { candidates: matched })
    }
}

} // verus!
