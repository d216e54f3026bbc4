use vstd::prelude::*;
use crate::text::{lowercase, same_text, to_lowercase};

verus! {

/// `p` comes before `q` when its score is higher, or equal with an earlier position.
pub open spec fn score_order(scores: Seq<u8>, p: usize, q: usize) -> bool {
    scores[p as int] > scores[q as int] || (scores[p as int] == scores[q as int] && p < q)
}

/// `r` lists every position of `scores` once, highest score first, equal
/// scores in their original order (a stable sort by descending score).
pub open spec fn is_score_ranking(scores: Seq<u8>, r: Seq<usize>) -> bool {
    &&& r.len() == scores.len()
    &&& forall|p: int| 0 <= p < r.len() ==> #[trigger] r[p] < scores.len()
    &&& forall|k: int| 0 <= k < scores.len() ==> #[trigger] r.contains(k as usize)
    &&& forall|p: int, q: int| 0 <= p < q < r.len() ==> score_order(scores, r[p], r[q])
}

/// Positions of the materials ordered by descending sustainability score;
/// ties keep their order.
pub fn order_by_score_desc(scores: &Vec<u8>) -> (r: Vec<usize>)
    ensures
        is_score_ranking(scores@, r@),
{
    let n = scores.len();
    let mut out: Vec<usize> = Vec::new();
    let mut k: usize = 0;
    while k < n
        invariant
            n == scores.len(),
            k <= n,
            out.len() == k,
            forall|p: int| 0 <= p < out.len() ==> #[trigger] out[p] < k,
            forall|m: int| 0 <= m < k ==> #[trigger] out@.contains(m as usize),
            forall|p: int, q: int| 0 <= p < q < out.len() ==> score_order(scores@, out[p], out[q]),
        decreases n - k,
    {
        let s = scores[k];
        let mut p: usize = 0;
        while p < out.len() && scores[out[p]] >= s
            invariant
                p <= out.len(),
                n == scores.len(),
                forall|t: int| 0 <= t < out.len() ==> #[trigger] out[t] < k,
                k < n,
                forall|t: int| 0 <= t < p ==> scores[out[t] as int] >= s,
            decreases out.len() - p,
        {
            p = p + 1;
        }
        let ghost old_out = out@;
        out.insert(p, k);
        assert forall|pp: int, qq: int| 0 <= pp < qq < out.len() implies score_order(scores@, out[pp], out[qq]) by {
            if qq < p {
                assert(out[pp] == old_out[pp] && out[qq] == old_out[qq]);
            } else if qq == p {
                assert(out[pp] == old_out[pp]);
            } else if pp < p {
                assert(out[pp] == old_out[pp] && out[qq] == old_out[qq - 1]);
            } else if pp == p {
                assert(out[qq] == old_out[qq - 1]);
                assert(scores[old_out[p as int] as int] < s);
                if qq - 1 > p {
                    assert(score_order(scores@, old_out[p as int], old_out[qq - 1]));
                }
            } else {
                assert(out[pp] == old_out[pp - 1] && out[qq] == old_out[qq - 1]);
            }
        }
        assert forall|m: int| 0 <= m < k + 1 implies #[trigger] out@.contains(m as usize) by {
            if m < k {
                assert(old_out.contains(m as usize));
                let w = choose|w: int| 0 <= w < old_out.len() && old_out[w] == m as usize;
                if w < p {
                    assert(out[w] == m as usize);
                } else {
                    assert(out[w + 1] == m as usize);
                }
            } else {
                assert(out[p as int] == k);
            }
        }
        assert forall|t: int| 0 <= t < out.len() implies #[trigger] out[t] < k + 1 by {
            if t < p {
                assert(out[t] == old_out[t]);
            } else if t > p {
                assert(out[t] == old_out[t - 1]);
            }
        }
        k = k + 1;
    }
    out
}

/// Position of the first slug equal to `key`.
pub open spec fn first_match(slugs: Seq<Seq<char>>, key: Seq<char>, r: Option<usize>) -> bool {
    match r {
        Some(i) => i < slugs.len() && slugs[i as int] == key && forall|j: int| 0 <= j < i ==> slugs[j] != key,
        None => forall|j: int| 0 <= j < slugs.len() ==> slugs[j] != key,
    }
}

/// The position of the material whose slug is the requested one in
/// lowercase (the first, should several share it).
pub fn find_material(slugs: &Vec<String>, requested: &str) -> (r: Option<usize>)
    ensures
        first_match(slugs@.map_values(|s: String| s@), lowercase(requested@), r),
{
    let key = to_lowercase(requested);
    let ghost views = slugs@.map_values(|s: String| s@);
    let mut i: usize = 0;
    while i < slugs.len()
        invariant
            i <= slugs.len(),
            views == slugs@.map_values(|s: String| s@),
            key@ == lowercase(requested@),
            forall|j: int| 0 <= j < i ==> views[j] != key@,
        decreases slugs.len() - i,
    {
        if same_text(slugs[i].as_str(), key.as_str()) {
            return Some(i);
        }
        i = i + 1;
    }
    None
}

} // verus!

verus! {

/// The ordering of the materials by score is unique: every stable sort by
/// descending score gives the same list.
pub proof fn law_score_ranking_unique(scores: Seq<u8>, r1: Seq<usize>, r2: Seq<usize>)
    requires
        is_score_ranking(scores, r1),
        is_score_ranking(scores, r2),
    ensures
        r1 == r2,
{
    let lt = |x: usize, y: usize| score_order(scores, x, y);
    assert forall|x: usize| r1.contains(x) implies r2.contains(x) by {
        let a = choose|a: int| 0 <= a < r1.len() && r1[a] == x;
        assert(r1[a] < scores.len());
        assert(r2.contains(x as int as usize));
    }
    assert forall|x: usize| r2.contains(x) implies r1.contains(x) by {
        let a = choose|a: int| 0 <= a < r2.len() && r2[a] == x;
        assert(r2[a] < scores.len());
        assert(r1.contains(x as int as usize));
    }
    assert(crate::search::strictly_sorted(r1, lt));
    assert(crate::search::strictly_sorted(r2, lt));
    crate::search::lemma_sorted_unique(r1, r2, lt);
}

} // verus!
