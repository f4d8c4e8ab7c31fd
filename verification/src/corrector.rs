//! Nearest-name correction: a garbled name is matched against every
//! canonical corpus entry by Levenshtein edit distance, and corrected
//! only when a single entry is strictly nearest.

use vstd::prelude::*;

use crate::corpus::{corpus_at, corpus_name_at, lemma_corpus_distinct, CORPUS_LEN};

verus! {

pub open spec fn min_nat(x: nat, y: nat) -> nat {
    if x <= y {
        x
    } else {
        y
    }
}

/// Levenshtein edit distance: the least number of single-character
/// insertions, deletions and substitutions turning `a` into `b`.
pub open spec fn edit_dist(a: Seq<char>, b: Seq<char>) -> nat
    decreases a.len() + b.len(),
{
    if a.len() == 0 {
        b.len()
    } else if b.len() == 0 {
        a.len()
    } else {
        let deletion = edit_dist(a.drop_last(), b) + 1;
        let insertion = edit_dist(a, b.drop_last()) + 1;
        let substitution = edit_dist(a.drop_last(), b.drop_last()) + if a.last() == b.last() {
            0nat
        } else {
            1nat
        };
        min_nat(min_nat(deletion, insertion), substitution)
    }
}

/// A string is at distance zero from itself.
pub proof fn lemma_edit_dist_self(a: Seq<char>)
    ensures
        edit_dist(a, a) == 0,
    decreases a.len(),
{
    if a.len() > 0 {
        lemma_edit_dist_self(a.drop_last());
    }
}

/// Distance zero forces equality.
pub proof fn lemma_edit_dist_zero(a: Seq<char>, b: Seq<char>)
    requires
        edit_dist(a, b) == 0,
    ensures
        a == b,
    decreases a.len() + b.len(),
{
    if a.len() == 0 {
        assert(a =~= b);
    } else if b.len() == 0 {
        assert(false);
    } else {
        assert(a.last() == b.last() && edit_dist(a.drop_last(), b.drop_last()) == 0);
        lemma_edit_dist_zero(a.drop_last(), b.drop_last());
        assert forall|m: int| 0 <= m < a.len() implies a[m] == b[m] by {
            if m < a.len() - 1 {
                assert(a[m] == a.drop_last()[m]);
                assert(b[m] == b.drop_last()[m]);
            }
        }
        assert(a =~= b);
    }
}

/// Two equal-length strings differing in exactly one position are at
/// distance one.
pub proof fn lemma_edit_dist_one_substitution(a: Seq<char>, b: Seq<char>, p: int)
    requires
        a.len() == b.len(),
        0 <= p < a.len(),
        a[p] != b[p],
        forall|m: int| 0 <= m < a.len() && m != p ==> a[m] == b[m],
    ensures
        edit_dist(a, b) == 1,
    decreases a.len(),
{
    if p == a.len() - 1 {
        assert(a.drop_last() =~= b.drop_last());
        lemma_edit_dist_self(a.drop_last());
        assert(edit_dist(a, b) <= 1);
    } else {
        lemma_edit_dist_one_substitution(a.drop_last(), b.drop_last(), p);
        assert(a.last() == b.last());
        assert(edit_dist(a, b) <= 1);
    }
    if edit_dist(a, b) == 0 {
        lemma_edit_dist_zero(a, b);
        assert(a[p] == b[p]);
    }
}

/// Distance from the query to the corpus entry at `i`.
pub open spec fn dist_to(q: Seq<char>, i: int) -> nat {
    edit_dist(corpus_at(i), q)
}

/// Entry `i` is strictly nearer to `q` than every other corpus entry.
pub open spec fn is_strict_min(i: int, q: Seq<char>) -> bool {
    &&& 0 <= i < CORPUS_LEN
    &&& forall|j: int| 0 <= j < CORPUS_LEN && j != i ==> dist_to(q, j) > dist_to(q, i)
}

/// Relies on edit_distance::edit_distance of the edit-distance crate:
/// the Levenshtein distance (unit-cost character insertions, deletions
/// and substitutions) between the two strings.
#[verifier::external_body]
fn edit_distance_between(a: &str, b: &str) -> (r: usize)
    ensures
        r == edit_dist(a@, b@),
{
    edit_distance::edit_distance(a, b)
}

/// Corrects a possibly-garbled name to the canonical corpus entry
/// strictly nearest by edit distance; yields nothing when two or more
/// entries tie for the minimum, never guessing among them.
#[verifier::loop_isolation(false)]
pub fn get_real_artifact_name_chs(raw: &str) -> (r: Option<String>)
    ensures
        r is Some <==> exists|i: int| is_strict_min(i, raw@),
        r matches Some(s) ==> exists|i: int| is_strict_min(i, raw@) && s@ == corpus_at(i),
{
    let mut min_dis: usize = edit_distance_between(corpus_name_at(0), raw);
    let mut min_index: usize = 0;
    let mut tied = false;
    let mut i: usize = 1;
    while i < CORPUS_LEN
        invariant
            1 <= i <= CORPUS_LEN,
            0 <= min_index < i,
            min_dis == dist_to(raw@, min_index as int),
            forall|j: int| 0 <= j < i ==> dist_to(raw@, j) >= min_dis,
            tied <==> exists|j: int|
                0 <= j < i && j != min_index && dist_to(raw@, j) == min_dis,
        decreases CORPUS_LEN - i,
    {
        let dis = edit_distance_between(corpus_name_at(i), raw);
        if dis < min_dis {
            proof {
                assert forall|j: int|
                    0 <= j < i + 1 && j != i as int implies dist_to(raw@, j) != dis as nat by {
                    assert(dist_to(raw@, j) >= min_dis);
                }
            }
            min_dis = dis;
            min_index = i;
            tied = false;
        } else if dis == min_dis {
            proof {
                assert(0 <= i as int && i as int != min_index as int && dist_to(raw@, i as int)
                    == min_dis);
            }
            tied = true;
        } else {
            proof {
                assert(dist_to(raw@, i as int) != min_dis);
                if tied {
                    let w = choose|j: int|
                        0 <= j < i && j != min_index && dist_to(raw@, j) == min_dis;
                    assert(0 <= w < i + 1 && w != min_index as int && dist_to(raw@, w)
                        == min_dis);
                }
            }
        }
        i = i + 1;
    }
    if tied {
        proof {
            let t = choose|j: int|
                0 <= j < CORPUS_LEN && j != min_index && dist_to(raw@, j) == min_dis;
            assert forall|m: int| !is_strict_min(m, raw@) by {
                if is_strict_min(m, raw@) {
                    if m == min_index {
                        assert(dist_to(raw@, t) > dist_to(raw@, m));
                    } else {
                        assert(dist_to(raw@, min_index as int) > dist_to(raw@, m));
                        assert(dist_to(raw@, m) >= min_dis);
                    }
                }
            }
        }
        None
    } else {
        proof {
            assert(is_strict_min(min_index as int, raw@));
        }
        Some(corpus_name_at(min_index).to_owned())
    }
}

/// Every canonical name, queried exactly, is its own strictly nearest
/// corpus entry, at distance zero and with no tie.
pub proof fn lemma_exact_name_unique_min(k: int)
    requires
        0 <= k < CORPUS_LEN,
    ensures
        dist_to(corpus_at(k), k) == 0,
        is_strict_min(k, corpus_at(k)),
{
    lemma_edit_dist_self(corpus_at(k));
    assert forall|j: int|
        0 <= j < CORPUS_LEN && j != k implies dist_to(corpus_at(k), j) > dist_to(
        corpus_at(k),
        k,
    ) by {
        lemma_corpus_distinct(j, k);
        if edit_dist(corpus_at(j), corpus_at(k)) == 0 {
            lemma_edit_dist_zero(corpus_at(j), corpus_at(k));
        }
    }
}

/// A name altered in exactly one character from a canonical entry, with
/// every other entry strictly farther away, corrects to that entry.
pub proof fn lemma_single_alteration_corrects(k: int, q: Seq<char>, p: int)
    requires
        0 <= k < CORPUS_LEN,
        q.len() == corpus_at(k).len(),
        0 <= p < q.len(),
        corpus_at(k)[p] != q[p],
        forall|m: int| 0 <= m < q.len() && m != p ==> corpus_at(k)[m] == q[m],
        forall|j: int| 0 <= j < CORPUS_LEN && j != k ==> dist_to(q, j) > 1,
    ensures
        dist_to(q, k) == 1,
        is_strict_min(k, q),
{
    lemma_edit_dist_one_substitution(corpus_at(k), q, p);
}

/// A query at the same least distance from two distinct entries has no
/// strictly nearest entry: the correction is ambiguous.
pub proof fn lemma_equidistant_is_ambiguous(q: Seq<char>, i: int, j: int)
    requires
        0 <= i < CORPUS_LEN,
        0 <= j < CORPUS_LEN,
        i != j,
        dist_to(q, i) == dist_to(q, j),
        forall|m: int| 0 <= m < CORPUS_LEN ==> dist_to(q, m) >= dist_to(q, i),
    ensures
        forall|m: int| !is_strict_min(m, q),
{
    assert forall|m: int| !is_strict_min(m, q) by {
        if is_strict_min(m, q) {
            if m != i {
                assert(dist_to(q, i) > dist_to(q, m));
                assert(dist_to(q, m) >= dist_to(q, i));
            } else {
                assert(dist_to(q, j) > dist_to(q, m));
            }
        }
    }
}

} // verus!
