use vstd::prelude::*;
use vstd::utf8::encode_utf8;
use crate::text::{chars_of, lowercase, to_lowercase, views_of};

verus! {

/// Number of bytes in the UTF-8 encoding of a character sequence
/// (what `str::len` reports).
pub open spec fn byte_len(s: Seq<char>) -> nat {
    encode_utf8(s).len()
}

pub open spec fn min_int(x: int, y: int) -> int {
    if x <= y { x } else { y }
}

/// Edit distance between the first `i` characters of `a` and the first `j`
/// characters of `b` (insertions, deletions and substitutions cost one each).
pub open spec fn prefix_distance(a: Seq<char>, b: Seq<char>, i: nat, j: nat) -> nat
    decreases i + j,
{
    if i == 0 {
        j
    } else if j == 0 {
        i
    } else {
        let cost: int = if a[i - 1] == b[j - 1] { 0 } else { 1 };
        let sub: int = prefix_distance(a, b, (i - 1) as nat, (j - 1) as nat) + cost;
        let del: int = prefix_distance(a, b, (i - 1) as nat, j) as int + 1;
        let ins: int = prefix_distance(a, b, i, (j - 1) as nat) as int + 1;
        min_int(min_int(sub, del), ins) as nat
    }
}

/// Levenshtein edit distance between two character sequences.
pub open spec fn edit_distance(a: Seq<char>, b: Seq<char>) -> nat {
    prefix_distance(a, b, a.len(), b.len())
}

pub proof fn lemma_byte_len_ge_chars(s: Seq<char>)
    ensures
        byte_len(s) >= s.len(),
    decreases s.len(),
{
    if s.len() > 0 {
        lemma_byte_len_ge_chars(s.drop_first());
    }
}

pub proof fn lemma_prefix_distance_bound(a: Seq<char>, b: Seq<char>, i: nat, j: nat)
    ensures
        prefix_distance(a, b, i, j) <= if i >= j { i } else { j },
    decreases i + j,
{
    if i > 0 && j > 0 {
        lemma_prefix_distance_bound(a, b, (i - 1) as nat, (j - 1) as nat);
    }
}

pub proof fn lemma_prefix_distance_symmetric(a: Seq<char>, b: Seq<char>, i: nat, j: nat)
    ensures
        prefix_distance(a, b, i, j) == prefix_distance(b, a, j, i),
    decreases i + j,
{
    if i > 0 && j > 0 {
        lemma_prefix_distance_symmetric(a, b, (i - 1) as nat, (j - 1) as nat);
        lemma_prefix_distance_symmetric(a, b, (i - 1) as nat, j);
        lemma_prefix_distance_symmetric(a, b, i, (j - 1) as nat);
    }
}

pub proof fn lemma_prefix_distance_zero(a: Seq<char>, b: Seq<char>, i: nat, j: nat)
    requires
        i <= a.len(),
        j <= b.len(),
    ensures
        prefix_distance(a, b, i, j) == 0 <==> (i == j && a.take(i as int) =~= b.take(j as int)),
    decreases i + j,
{
    if i > 0 && j > 0 {
        lemma_prefix_distance_zero(a, b, (i - 1) as nat, (j - 1) as nat);
        if i == j && a.take(i as int) =~= b.take(j as int) {
            assert(a.take(i - 1) =~= a.take(i as int).take(i - 1));
            assert(b.take(j - 1) =~= b.take(j as int).take(j - 1));
            assert(a[i - 1] == a.take(i as int)[i - 1]);
            assert(b[j - 1] == b.take(j as int)[j - 1]);
        }
        if prefix_distance(a, b, i, j) == 0 {
            assert(a.take(i as int) =~= a.take(i - 1).push(a[i - 1]));
            assert(b.take(j as int) =~= b.take(j - 1).push(b[j - 1]));
        }
    } else if i == 0 && j == 0 {
        assert(a.take(0) =~= b.take(0));
    }
}

pub proof fn lemma_prefix_distance_lower_bound(a: Seq<char>, b: Seq<char>, i: nat, j: nat)
    ensures
        prefix_distance(a, b, i, j) >= if i >= j { i - j } else { j - i },
    decreases i + j,
{
    if i > 0 && j > 0 {
        lemma_prefix_distance_lower_bound(a, b, (i - 1) as nat, (j - 1) as nat);
        lemma_prefix_distance_lower_bound(a, b, (i - 1) as nat, j);
        lemma_prefix_distance_lower_bound(a, b, i, (j - 1) as nat);
    }
}

/// Dropping or adding one character changes a prefix distance by at most one.
pub proof fn lemma_prefix_distance_step(a: Seq<char>, b: Seq<char>, i: nat, j: nat)
    ensures
        i > 0 ==> prefix_distance(a, b, i, j) <= prefix_distance(a, b, (i - 1) as nat, j) + 1,
        j > 0 ==> prefix_distance(a, b, i, j) <= prefix_distance(a, b, i, (j - 1) as nat) + 1,
{
}

pub proof fn lemma_prefix_distance_triangle(
    a: Seq<char>,
    b: Seq<char>,
    c: Seq<char>,
    i: nat,
    j: nat,
    k: nat,
)
    ensures
        prefix_distance(a, c, i, k) <= prefix_distance(a, b, i, j) + prefix_distance(b, c, j, k),
    decreases i + j + k,
{
    if i == 0 {
        lemma_prefix_distance_lower_bound(b, c, j, k);
    } else if k == 0 {
        lemma_prefix_distance_lower_bound(a, b, i, j);
    } else if j == 0 {
        lemma_prefix_distance_bound(a, c, i, k);
    } else {
        let i1 = (i - 1) as nat;
        let j1 = (j - 1) as nat;
        let k1 = (k - 1) as nat;
        lemma_prefix_distance_triangle(a, b, c, i1, j, k);
        lemma_prefix_distance_triangle(a, b, c, i, j, k1);
        lemma_prefix_distance_triangle(a, b, c, i, j1, k);
        lemma_prefix_distance_triangle(a, b, c, i1, j1, k1);
        lemma_prefix_distance_step(b, c, j1, k);
        lemma_prefix_distance_step(a, b, i, j1);
    }
}

/// The distance does not depend on the order of its arguments.
pub proof fn law_edit_distance_symmetric(a: Seq<char>, b: Seq<char>)
    ensures
        edit_distance(a, b) == edit_distance(b, a),
{
    lemma_prefix_distance_symmetric(a, b, a.len(), b.len());
}

/// The distance is zero exactly when the two texts are equal.
pub proof fn law_edit_distance_zero_iff_equal(a: Seq<char>, b: Seq<char>)
    ensures
        edit_distance(a, b) == 0 <==> a == b,
{
    lemma_prefix_distance_zero(a, b, a.len(), b.len());
    assert(a.take(a.len() as int) =~= a);
    assert(b.take(b.len() as int) =~= b);
}

/// The distance lies between the difference of the lengths and the longer length.
pub proof fn law_edit_distance_bounds(a: Seq<char>, b: Seq<char>)
    ensures
        edit_distance(a, b) <= if a.len() >= b.len() { a.len() } else { b.len() },
        edit_distance(a, b) >= if a.len() >= b.len() { a.len() - b.len() } else { b.len() - a.len() },
{
    lemma_prefix_distance_bound(a, b, a.len(), b.len());
    lemma_prefix_distance_lower_bound(a, b, a.len(), b.len());
}

/// Going through a third text is never shorter (triangle inequality).
pub proof fn law_edit_distance_triangle(a: Seq<char>, b: Seq<char>, c: Seq<char>)
    ensures
        edit_distance(a, c) <= edit_distance(a, b) + edit_distance(b, c),
{
    lemma_prefix_distance_triangle(a, b, c, a.len(), b.len(), c.len());
}

/// Levenshtein distance between the characters of `a` and `b`, computed
/// row by row.
pub fn levenshtein(a: &str, b: &str) -> (d: usize)
    requires
        a@.len() < usize::MAX,
        b@.len() < usize::MAX,
    ensures
        d == edit_distance(a@, b@),
{
    let ac = chars_of(a);
    let bc = chars_of(b);
    let na = ac.len();
    let nb = bc.len();
    if na == 0 {
        return nb;
    }
    if nb == 0 {
        return na;
    }
    let ghost sa = a@;
    let ghost sb = b@;

    let mut prev: Vec<usize> = Vec::new();
    let mut curr: Vec<usize> = Vec::new();
    let mut k: usize = 0;
    while k <= nb
        invariant
            k <= nb + 1,
            nb < usize::MAX,
            prev.len() == k,
            curr.len() == k,
            forall|t: int| 0 <= t < k ==> prev[t] == t,
        decreases nb + 1 - k,
    {
        prev.push(k);
        curr.push(0);
        k = k + 1;
    }

    let mut i: usize = 0;
    while i < na
        invariant
            na == ac.len(),
            nb == bc.len(),
            ac@ == sa,
            bc@ == sb,
            na < usize::MAX,
            nb < usize::MAX,
            i <= na,
            prev.len() == nb + 1,
            curr.len() == nb + 1,
            forall|j: int| 0 <= j <= nb ==> prev[j] == prefix_distance(sa, sb, i as nat, j as nat),
        decreases na - i,
    {
        curr.set(0, i + 1);
        let ca = ac[i];
        let mut j: usize = 0;
        while j < nb
            invariant
                na == ac.len(),
                nb == bc.len(),
                ac@ == sa,
                bc@ == sb,
                ca == sa[i as int],
                na < usize::MAX,
                nb < usize::MAX,
                i < na,
                j <= nb,
                prev.len() == nb + 1,
                curr.len() == nb + 1,
                forall|t: int| 0 <= t <= nb ==> prev[t] == prefix_distance(sa, sb, i as nat, t as nat),
                forall|t: int| 0 <= t <= j ==> curr[t] == prefix_distance(sa, sb, (i + 1) as nat, t as nat),
            decreases nb - j,
        {
            proof {
                lemma_prefix_distance_bound(sa, sb, i as nat, j as nat);
                lemma_prefix_distance_bound(sa, sb, i as nat, (j + 1) as nat);
                lemma_prefix_distance_bound(sa, sb, (i + 1) as nat, j as nat);
            }
            let cost: usize = if ca == bc[j] { 0 } else { 1 };
            let x = prev[j] + cost;
            let y = prev[j + 1] + 1;
            let z = curr[j] + 1;
            let xy = if x <= y { x } else { y };
            let m = if xy <= z { xy } else { z };
            curr.set(j + 1, m);
            j = j + 1;
        }
        let tmp = prev;
        prev = curr;
        curr = tmp;
        i = i + 1;
    }
    prev[nb]
}

} // verus!

verus! {

/// Whether `needle` is a fuzzy match for `haystack`: needles shorter than
/// three bytes (of UTF-8) never match, short ones (up to four bytes) allow
/// one edit, longer ones two; the edit distance counts characters.
pub open spec fn fuzzy_match_value(haystack: Seq<char>, needle: Seq<char>) -> bool {
    byte_len(needle) >= 3 && edit_distance(haystack, needle) <= (if byte_len(needle) <= 4 {
        1nat
    } else {
        2nat
    })
}

/// Fuzzy match of a needle against a haystack by edit distance.
pub fn fuzzy_match(haystack: &str, needle: &str) -> (r: bool)
    requires
        haystack@.len() < usize::MAX,
        needle@.len() < usize::MAX,
        byte_len(needle@) <= usize::MAX,
    ensures
        r == fuzzy_match_value(haystack@, needle@),
{
    let n = needle.len();
    if n < 3 {
        return false;
    }
    let max_dist: usize = if n <= 4 { 1 } else { 2 };
    levenshtein(haystack, needle) <= max_dist
}

/// Order used to rank fuzzy hits: by distance, then by position in the input.
pub open spec fn ranks_before(d1: nat, k1: nat, d2: nat, k2: nat) -> bool {
    d1 < d2 || (d1 == d2 && k1 < k2)
}

/// `r` lists the positions of exactly those names that fuzzily match
/// `query`, ordered by edit distance and, among equal distances, by
/// position (a stable sort of the matches by distance).
pub open spec fn is_fuzzy_ranking(names: Seq<Seq<char>>, query: Seq<char>, r: Seq<usize>) -> bool {
    &&& forall|p: int|
        0 <= p < r.len() ==> #[trigger] r[p] < names.len() && fuzzy_match_value(names[r[p] as int], query)
    &&& forall|k: int|
        0 <= k < names.len() && fuzzy_match_value(#[trigger] names[k], query) ==> r.contains(k as usize)
    &&& forall|p: int, q: int|
        0 <= p < q < r.len() ==> ranks_before(
            edit_distance(names[r[p] as int], query),
            r[p] as nat,
            edit_distance(names[r[q] as int], query),
            r[q] as nat,
        )
}

/// Positions of the names that fuzzily match `query`, closest first; ties
/// keep their input order.
pub fn fuzzy_rank(names: &Vec<String>, query: &str) -> (r: Vec<usize>)
    requires
        query@.len() < usize::MAX,
        byte_len(query@) <= usize::MAX,
        forall|k: int| 0 <= k < names.len() ==> #[trigger] names[k]@.len() < usize::MAX,
    ensures
        is_fuzzy_ranking(views_of(names@), query@, r@),
{
    let ghost views = views_of(names@);
    let mut out: Vec<usize> = Vec::new();
    let mut dists: Vec<usize> = Vec::new();
    let n = names.len();
    let mut k: usize = 0;
    while k < n
        invariant
            n == names.len(),
            views == views_of(names@),
            query@.len() < usize::MAX,
            byte_len(query@) <= usize::MAX,
            forall|t: int| 0 <= t < names.len() ==> #[trigger] names[t]@.len() < usize::MAX,
            k <= n,
            out.len() == dists.len(),
            forall|p: int|
                0 <= p < out.len() ==> #[trigger] out[p] < k && fuzzy_match_value(views[out[p] as int], query@)
                    && dists[p] == edit_distance(views[out[p] as int], query@),
            forall|m: int|
                0 <= m < k && fuzzy_match_value(#[trigger] views[m], query@) ==> out@.contains(m as usize),
            forall|p: int, q: int|
                0 <= p < q < out.len() ==> ranks_before(dists[p] as nat, out[p] as nat, dists[q] as nat, out[q] as nat),
        decreases n - k,
    {
        let name = names[k].as_str();
        assert(views[k as int] == names[k as int]@);
        if fuzzy_match(name, query) {
            let d = levenshtein(name, query);
            let mut p: usize = 0;
            while p < out.len() && dists[p] <= d
                invariant
                    p <= out.len(),
                    out.len() == dists.len(),
                    forall|t: int| 0 <= t < p ==> dists[t] <= d,
                decreases out.len() - p,
            {
                p = p + 1;
            }
            let ghost old_out = out@;
            let ghost old_dists = dists@;
            out.insert(p, k);
            dists.insert(p, d);
            assert forall|pp: int, qq: int|
                0 <= pp < qq < out.len() implies ranks_before(dists[pp] as nat, out[pp] as nat, dists[qq] as nat, out[qq] as nat)
            by {
                if qq < p {
                } else if qq == p {
                    assert(dists[pp] == old_dists[pp]);
                    assert(out[pp] == old_out[pp]);
                } else if pp < p {
                    assert(dists[qq] == old_dists[qq - 1]);
                    assert(out[qq] == old_out[qq - 1]);
                    assert(ranks_before(old_dists[pp] as nat, old_out[pp] as nat, old_dists[qq - 1] as nat, old_out[qq - 1] as nat));
                } else if pp == p {
                    assert(dists[qq] == old_dists[qq - 1]);
                    if p < old_dists.len() {
                        assert(old_dists[p as int] > d);
                        if qq - 1 > p {
                            assert(ranks_before(old_dists[p as int] as nat, old_out[p as int] as nat, old_dists[qq - 1] as nat, old_out[qq - 1] as nat));
                        }
                    }
                } else {
                    assert(ranks_before(old_dists[pp - 1] as nat, old_out[pp - 1] as nat, old_dists[qq - 1] as nat, old_out[qq - 1] as nat));
                }
            }
            assert forall|m: int|
                0 <= m < k + 1 && fuzzy_match_value(#[trigger] views[m], query@) implies out@.contains(m as usize)
            by {
                if m < k {
                    let w = choose|w: int| 0 <= w < old_out.len() && old_out[w] == m as usize;
                    if w < p {
                        assert(out[w] == m as usize);
                    } else {
                        assert(out[w + 1] == m as usize);
                    }
                } else {
                    assert(out[p as int] == k);
                }
            }
        }
        k = k + 1;
    }
    out
}

} // verus!

verus! {

/// Positions of the brands (by name) that fuzzily match a search query,
/// closest first: names and query are compared in lowercase.
pub fn fuzzy_search(names: &Vec<String>, query: &str) -> (r: Vec<usize>)
    ensures
        is_fuzzy_ranking(views_of(names@).map_values(|s: Seq<char>| lowercase(s)), lowercase(query@), r@),
{
    let q = to_lowercase(query);
    proof {
        lemma_byte_len_ge_chars(q@);
    }
    let mut lowered: Vec<String> = Vec::new();
    let mut k: usize = 0;
    while k < names.len()
        invariant
            k <= names.len(),
            lowered.len() == k,
            forall|t: int| 0 <= t < k ==> #[trigger] lowered[t]@ == lowercase(names[t]@),
            forall|t: int| 0 <= t < k ==> #[trigger] lowered[t]@.len() < usize::MAX,
        decreases names.len() - k,
    {
        let l = to_lowercase(names[k].as_str());
        proof {
            lemma_byte_len_ge_chars(l@);
        }
        lowered.push(l);
        k = k + 1;
    }
    let r = fuzzy_rank(&lowered, q.as_str());
    assert(views_of(lowered@) =~= views_of(names@).map_values(|s: Seq<char>| lowercase(s)));
    r
}

} // verus!

verus! {

/// `r` is strictly increasing under `lt`.
pub open spec fn strictly_sorted(r: Seq<usize>, lt: spec_fn(usize, usize) -> bool) -> bool {
    forall|p: int, q: int| 0 <= p < q < r.len() ==> lt(#[trigger] r[p], #[trigger] r[q])
}

/// Two sequences sorted strictly by the same strict order and holding the
/// same elements are the same sequence.
pub proof fn lemma_sorted_unique(r1: Seq<usize>, r2: Seq<usize>, lt: spec_fn(usize, usize) -> bool)
    requires
        forall|x: usize| !#[trigger] lt(x, x),
        forall|x: usize, y: usize, z: usize| #[trigger] lt(x, y) && #[trigger] lt(y, z) ==> lt(x, z),
        strictly_sorted(r1, lt),
        strictly_sorted(r2, lt),
        forall|x: usize| r1.contains(x) <==> r2.contains(x),
    ensures
        r1 == r2,
    decreases r1.len(),
{
    if r1.len() == 0 {
        if r2.len() > 0 {
            assert(r2.contains(r2[0]));
        }
        assert(r1 =~= r2);
    } else {
        assert(r1.contains(r1[0]));
        let j = choose|j: int| 0 <= j < r2.len() && r2[j] == r1[0];
        if j > 0 {
            assert(r2.contains(r2[0]));
            let i = choose|i: int| 0 <= i < r1.len() && r1[i] == r2[0];
            if i == 0 {
                assert(lt(r2[0], r2[j]));
                assert(!lt(r1[0], r1[0]));
            } else {
                assert(lt(r1[0], r1[i]));
                assert(lt(r2[0], r2[j]));
                assert(lt(r1[0], r1[0]));
            }
            assert(false);
        }
        assert(r1[0] == r2[0]);
        let t1 = r1.drop_first();
        let t2 = r2.drop_first();
        assert forall|x: usize| t1.contains(x) <==> t2.contains(x) by {
            if t1.contains(x) {
                let a = choose|a: int| 0 <= a < t1.len() && t1[a] == x;
                assert(lt(r1[0], r1[a + 1]));
                assert(r2.contains(x));
                let b = choose|b: int| 0 <= b < r2.len() && r2[b] == x;
                if b == 0 {
                    assert(x == r1[0]);
                }
                assert(t2[b - 1] == x);
            }
            if t2.contains(x) {
                let a = choose|a: int| 0 <= a < t2.len() && t2[a] == x;
                assert(lt(r2[0], r2[a + 1]));
                assert(r1.contains(x));
                let b = choose|b: int| 0 <= b < r1.len() && r1[b] == x;
                if b == 0 {
                    assert(x == r2[0]);
                }
                assert(t1[b - 1] == x);
            }
        }
        assert(strictly_sorted(t1, lt)) by {
            assert forall|p: int, q: int| 0 <= p < q < t1.len() implies lt(#[trigger] t1[p], #[trigger] t1[q]) by {
                assert(lt(r1[p + 1], r1[q + 1]));
            }
        }
        assert(strictly_sorted(t2, lt)) by {
            assert forall|p: int, q: int| 0 <= p < q < t2.len() implies lt(#[trigger] t2[p], #[trigger] t2[q]) by {
                assert(lt(r2[p + 1], r2[q + 1]));
            }
        }
        lemma_sorted_unique(t1, t2, lt);
        assert(r1 =~= seq![r1[0]] + t1);
        assert(r2 =~= seq![r2[0]] + t2);
    }
}

/// The fuzzy ranking of a set of names for a query is unique: the search
/// result is determined by the names and the query alone.
pub proof fn law_fuzzy_ranking_unique(names: Seq<Seq<char>>, query: Seq<char>, r1: Seq<usize>, r2: Seq<usize>)
    requires
        is_fuzzy_ranking(names, query, r1),
        is_fuzzy_ranking(names, query, r2),
    ensures
        r1 == r2,
{
    let lt = |x: usize, y: usize|
        ranks_before(
            edit_distance(names[x as int], query),
            x as nat,
            edit_distance(names[y as int], query),
            y as nat,
        );
    assert forall|x: usize| r1.contains(x) implies r2.contains(x) by {
        let a = choose|a: int| 0 <= a < r1.len() && r1[a] == x;
        assert(r1[a] < names.len() && fuzzy_match_value(names[r1[a] as int], query));
        assert(fuzzy_match_value(names[x as int], query));
    }
    assert forall|x: usize| r2.contains(x) implies r1.contains(x) by {
        let a = choose|a: int| 0 <= a < r2.len() && r2[a] == x;
        assert(r2[a] < names.len() && fuzzy_match_value(names[r2[a] as int], query));
        assert(fuzzy_match_value(names[x as int], query));
    }
    assert(strictly_sorted(r1, lt));
    assert(strictly_sorted(r2, lt));
    lemma_sorted_unique(r1, r2, lt);
}

} // verus!

verus! {

/// The text of a name search: the query when it is present and not empty.
pub fn search_text(params: &crate::paging::SearchParams) -> (r: Option<&String>)
    ensures
        match params.q {
            Some(q) => if q@.len() > 0 {
                r == Some(&q)
            } else {
                r is None
            },
            None => r is None,
        },
{
    match &params.q {
        Some(q) => if q.as_str().is_empty() {
            None
        } else {
            Some(q)
        },
        None => None,
    }
}

} // verus!

verus! {

/// Whether a name search falls back to fuzzy matching: only when the
/// database found no exact, prefix or substring match (`sql_hits` of them).
pub fn needs_fuzzy_fallback(sql_hits: usize) -> (r: bool)
    ensures
        r == (sql_hits == 0),
{
    sql_hits == 0
}

/// How many brands the fuzzy fallback compares against.
pub const FUZZY_SCAN_LIMIT: usize = 1000;

} // verus!
