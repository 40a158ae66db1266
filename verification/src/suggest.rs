//! Edit distance and "did you mean?" suggestions for misspelled element and
//! attribute names.

use vstd::prelude::*;
use crate::text::chars_of;

verus! {

/// The smaller of two integers.
pub open spec fn min2(x: int, y: int) -> int {
    if x <= y { x } else { y }
}

/// Levenshtein distance between the first `i` characters of `a` and the first
/// `j` characters of `b`: the least number of single-character insertions,
/// deletions and substitutions that turn one prefix into the other.
pub open spec fn lev(a: Seq<char>, b: Seq<char>, i: nat, j: nat) -> nat
    decreases i + j,
{
    if i == 0 {
        j
    } else if j == 0 {
        i
    } else {
        let del: int = lev(a, b, (i - 1) as nat, j) as int + 1;
        let ins: int = lev(a, b, i, (j - 1) as nat) as int + 1;
        let sub: int = lev(a, b, (i - 1) as nat, (j - 1) as nat) as int + if a[i - 1] == b[j - 1] {
            0int
        } else {
            1int
        };
        min2(min2(del, ins), sub) as nat
    }
}

/// Levenshtein distance between two character sequences.
pub open spec fn edit_distance_spec(a: Seq<char>, b: Seq<char>) -> nat {
    lev(a, b, a.len(), b.len())
}

/// The distance between two prefixes never exceeds the longer prefix.
pub proof fn lemma_lev_bounded(a: Seq<char>, b: Seq<char>, i: nat, j: nat)
    ensures
        lev(a, b, i, j) <= if i <= j { j } else { i },
    decreases i + j,
{
    if i > 0 && j > 0 {
        lemma_lev_bounded(a, b, (i - 1) as nat, (j - 1) as nat);
        lemma_lev_bounded(a, b, (i - 1) as nat, j);
        lemma_lev_bounded(a, b, i, (j - 1) as nat);
    }
}

fn inc_saturating(x: usize) -> (r: usize)
    ensures
        r == min2(x + 1, usize::MAX as int),
{
    if x < usize::MAX {
        x + 1
    } else {
        x
    }
}

/// Levenshtein distance between `a` and `b`, counted in characters.
pub fn edit_distance(a: &str, b: &str) -> (d: usize)
    ensures
        d == edit_distance_spec(a@, b@),
{
    let a: Vec<char> = chars_of(a);
    let b: Vec<char> = chars_of(b);
    let n = a.len();
    let m = b.len();
    // Row `i` of the table: prev[j] == lev(a, b, i, j).
    let mut prev: Vec<usize> = Vec::new();
    prev.push(0);
    let mut j: usize = 0;
    while j < m
        invariant
            j <= m,
            m == b@.len(),
            prev@.len() == j + 1,
            forall|k: int| 0 <= k <= j ==> prev@[k] == lev(a@, b@, 0, k as nat),
        decreases m - j,
    {
        j = j + 1;
        prev.push(j);
    }
    let mut i: usize = 0;
    while i < n
        invariant
            i <= n,
            n == a@.len(),
            m == b@.len(),
            prev@.len() == m + 1,
            forall|k: int| 0 <= k <= m ==> prev@[k] == lev(a@, b@, i as nat, k as nat),
        decreases n - i,
    {
        let mut cur: Vec<usize> = Vec::new();
        cur.push(i + 1);
        let mut j: usize = 0;
        while j < m
            invariant
                i < n,
                j <= m,
                n == a@.len(),
                m == b@.len(),
                prev@.len() == m + 1,
                forall|k: int| 0 <= k <= m ==> prev@[k] == lev(a@, b@, i as nat, k as nat),
                cur@.len() == j + 1,
                forall|k: int| 0 <= k <= j ==> cur@[k] == lev(a@, b@, (i + 1) as nat, k as nat),
            decreases m - j,
        {
            let del = inc_saturating(prev[j + 1]);
            let ins = inc_saturating(cur[j]);
            let sub = if a[i] == b[j] {
                prev[j]
            } else {
                inc_saturating(prev[j])
            };
            let mut best = if del <= ins { del } else { ins };
            if sub < best {
                best = sub;
            }
            proof {
                lemma_lev_bounded(a@, b@, (i + 1) as nat, (j + 1) as nat);
            }
            cur.push(best);
            j = j + 1;
        }
        prev = cur;
        i = i + 1;
    }
    prev[m]
}

/// The largest distance at which `cand` is still offered as a suggestion:
/// one edit for candidates of at most four bytes, two edits otherwise.
pub open spec fn suggestion_threshold(cand: &str) -> nat {
    if cand.len() <= 4 { 1 } else { 2 }
}

/// `cand` is close enough to `input` to be suggested.
pub open spec fn is_close(input: Seq<char>, cand: &str) -> bool {
    edit_distance_spec(input, cand@) <= suggestion_threshold(cand)
}

/// Candidate `k` is the suggestion for `input`: it is close, no close
/// candidate is nearer, and every earlier close candidate is strictly farther.
pub open spec fn is_best_suggestion(input: Seq<char>, candidates: Seq<&str>, k: int) -> bool {
    &&& 0 <= k < candidates.len()
    &&& is_close(input, candidates[k])
    &&& forall|l: int|
        0 <= l < candidates.len() && is_close(input, #[trigger] candidates[l])
            ==> edit_distance_spec(input, candidates[k]@) <= edit_distance_spec(
            input,
            candidates[l]@,
        )
    &&& forall|l: int|
        0 <= l < k && is_close(input, #[trigger] candidates[l]) ==> edit_distance_spec(
            input,
            candidates[k]@,
        ) < edit_distance_spec(input, candidates[l]@)
}

/// The suggestion for `input` among `candidates`: the best candidate (see
/// [`is_best_suggestion`]) when some candidate is close, else none.
pub open spec fn suggestion<'a>(input: Seq<char>, candidates: Seq<&'a str>) -> Option<&'a str> {
    if exists|k: int| is_best_suggestion(input, candidates, k) {
        Some(candidates[choose|k: int| is_best_suggestion(input, candidates, k)])
    } else {
        None
    }
}

/// At most one candidate is the best suggestion.
pub proof fn lemma_best_suggestion_unique(input: Seq<char>, candidates: Seq<&str>, k1: int, k2: int)
    requires
        is_best_suggestion(input, candidates, k1),
        is_best_suggestion(input, candidates, k2),
    ensures
        k1 == k2,
{
    if k1 < k2 {
        assert(is_close(input, candidates[k1]));
    } else if k2 < k1 {
        assert(is_close(input, candidates[k2]));
    }
}

/// Suggests the candidate nearest to `input` by edit distance, if one is
/// close enough (see [`suggestion_threshold`]); among equally near
/// candidates the first one wins.
pub fn did_you_mean<'a>(input: &str, candidates: &[&'a str]) -> (r: Option<&'a str>)
    ensures
        r == suggestion(input@, candidates@),
        r is None <==> forall|l: int|
            0 <= l < candidates@.len() ==> !is_close(input@, #[trigger] candidates@[l]),
{
    let mut best: Option<(usize, usize)> = None;
    let mut i: usize = 0;
    while i < candidates.len()
        invariant
            i <= candidates@.len(),
            best is None <==> forall|l: int|
                0 <= l < i ==> !is_close(input@, #[trigger] candidates@[l]),
            best matches Some(p) ==> {
                &&& p.0 < i
                &&& p.1 == edit_distance_spec(input@, candidates@[p.0 as int]@)
                &&& is_close(input@, candidates@[p.0 as int])
                &&& forall|l: int|
                    0 <= l < i && is_close(input@, #[trigger] candidates@[l]) ==> p.1
                        <= edit_distance_spec(input@, candidates@[l]@)
                &&& forall|l: int|
                    0 <= l < p.0 && is_close(input@, #[trigger] candidates@[l]) ==> p.1
                        < edit_distance_spec(input@, candidates@[l]@)
            },
        decreases candidates@.len() - i,
    {
        let cand = candidates[i];
        let d = edit_distance(input, cand);
        let threshold: usize = if cand.len() <= 4 {
            1
        } else {
            2
        };
        if d <= threshold {
            match best {
                Some((_, bd)) if d >= bd => {},
                _ => {
                    best = Some((i, d));
                },
            }
        }
        i = i + 1;
    }
    match best {
        Some((k, _)) => {
            assert(is_best_suggestion(input@, candidates@, k as int));
            proof {
                let c = choose|k: int| is_best_suggestion(input@, candidates@, k);
                lemma_best_suggestion_unique(input@, candidates@, c, k as int);
            }
            Some(candidates[k])
        },
        None => {
            assert(!exists|k: int| is_best_suggestion(input@, candidates@, k));
            None
        },
    }
}

} // verus!
