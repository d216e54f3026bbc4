use vstd::prelude::*;
use crate::models::BrandRating;
use crate::paging::{capped, capped_limit, AlternativesParams, CompareParams};
use crate::text::{
    decimal, lowercase, push_decimal, same_text, split_commas_trimmed, split_on, to_lowercase, trim,
};

verus! {

/// The key under which a brand (or material) is looked up: its slug in lowercase.
pub fn slug_key(slug: &str) -> (r: String)
    ensures
        r@ == lowercase(slug@),
{
    to_lowercase(slug)
}

/// The slugs named in a comparison query: the comma separated pieces,
/// trimmed and in lowercase; nothing when the query names no brands.
pub fn compare_slugs(params: &CompareParams) -> (r: Option<Vec<String>>)
    ensures
        match params.brands {
            None => r is None,
            Some(b) => r matches Some(v) && v.len() == split_on(b@, ',').len() && forall|k: int|
                0 <= k < v.len() ==> #[trigger] v[k]@ == lowercase(trim(split_on(b@, ',')[k])),
        },
{
    match &params.brands {
        None => None,
        Some(b) => {
            let pieces = split_commas_trimmed(b.as_str());
            let mut v: Vec<String> = Vec::new();
            let mut k: usize = 0;
            while k < pieces.len()
                invariant
                    k <= pieces.len(),
                    v.len() == k,
                    pieces.len() == split_on(b@, ',').len(),
                    forall|t: int| 0 <= t < pieces.len() ==> #[trigger] pieces[t]@ == trim(split_on(b@, ',')[t]),
                    forall|t: int| 0 <= t < k ==> #[trigger] v[t]@ == lowercase(trim(split_on(b@, ',')[t])),
                decreases pieces.len() - k,
            {
                v.push(to_lowercase(pieces[k].as_str()));
                k = k + 1;
            }
            Some(v)
        },
    }
}

/// The price tiers (from `$` to `$$$$`) considered similar to a brand's
/// own: its tier and the neighbouring ones, or all four for an unknown tier.
pub open spec fn similar_price_tiers(price_range: Seq<char>) -> Seq<Seq<char>> {
    if price_range == "$"@ {
        seq!["$"@, "$$"@]
    } else if price_range == "$$"@ {
        seq!["$"@, "$$"@, "$$$"@]
    } else if price_range == "$$$"@ {
        seq!["$$"@, "$$$"@, "$$$$"@]
    } else if price_range == "$$$$"@ {
        seq!["$$$"@, "$$$$"@]
    } else {
        seq!["$"@, "$$"@, "$$$"@, "$$$$"@]
    }
}

pub open spec fn str_views(v: Seq<&'static str>) -> Seq<Seq<char>> {
    v.map_values(|s: &'static str| s@)
}

/// The price tiers among which alternatives to a brand of `price_range` are sought.
pub fn price_tiers(price_range: &str) -> (r: Vec<&'static str>)
    ensures
        str_views(r@) == similar_price_tiers(price_range@),
{
    let r: Vec<&'static str> = if same_text(price_range, "$") {
        vec!["$", "$$"]
    } else if same_text(price_range, "$$") {
        vec!["$", "$$", "$$$"]
    } else if same_text(price_range, "$$$") {
        vec!["$$", "$$$", "$$$$"]
    } else if same_text(price_range, "$$$$") {
        vec!["$$$", "$$$$"]
    } else {
        vec!["$", "$$", "$$$", "$$$$"]
    };
    assert(str_views(r@) =~= similar_price_tiers(price_range@));
    r
}

/// Number of alternatives shown: 5 by default, at most 20.
pub fn alternatives_limit(params: &AlternativesParams) -> (r: usize)
    ensures
        r == capped(params.limit, 5, 20),
{
    capped_limit(params.limit, 5, 20)
}

/// Lowest overall score of an alternative: as asked, or by default ten
/// points above the brand's own (at most 255).
pub open spec fn alternatives_floor(requested: Option<u8>, overall: u8) -> u8 {
    match requested {
        Some(m) => m,
        None => if overall as int + 10 <= 255 { (overall + 10) as u8 } else { 255 },
    }
}

/// Lowest overall score of an alternative to a brand scoring `overall`.
pub fn alternatives_min_score(params: &AlternativesParams, overall: u8) -> (r: u8)
    ensures
        r == alternatives_floor(params.min_score, overall),
{
    match params.min_score {
        Some(m) => m,
        None => overall.saturating_add(10),
    }
}

/// Sustainable alternatives to a brand.
pub struct AlternativesResponse {
    pub original: BrandRating,
    pub alternatives: Vec<BrandRating>,
    pub reason: String,
}

/// Why the alternatives are shown.
pub open spec fn alternatives_reason(name: Seq<char>, score: u8, grade: Seq<char>) -> Seq<char> {
    "Showing sustainable alternatives to "@ + name + " (score: "@ + decimal(score as nat) + "/100, grade: "@
        + grade + "). These brands score higher on sustainability while offering similar style and price range."@
}

/// The alternatives to `original`, with the reason for showing them.
pub fn alternatives_response(original: BrandRating, alternatives: Vec<BrandRating>) -> (r: AlternativesResponse)
    ensures
        r.original == original,
        r.alternatives == alternatives,
        r.reason@ == alternatives_reason(original.name@, original.overall_score, original.grade@),
{
    let mut reason = String::from_str("Showing sustainable alternatives to ");
    reason.append(original.name.as_str());
    reason.append(" (score: ");
    push_decimal(&mut reason, original.overall_score as u64);
    reason.append("/100, grade: ");
    reason.append(original.grade.as_str());
    reason.append("). These brands score higher on sustainability while offering similar style and price range.");
    AlternativesResponse { original, alternatives, reason }
}

} // verus!

verus! {

/// A brand of a known price tier is always offered alternatives in its own
/// tier, and only in tiers at most one step away from it.
pub proof fn law_price_tiers_near_own(price_range: Seq<char>)
    ensures
        (price_range == "$"@ || price_range == "$$"@ || price_range == "$$$"@ || price_range == "$$$$"@)
            ==> similar_price_tiers(price_range).contains(price_range),
        forall|k: int|
            0 <= k < similar_price_tiers(price_range).len() ==> {
                let t = #[trigger] similar_price_tiers(price_range)[k];
                t == "$"@ || t == "$$"@ || t == "$$$"@ || t == "$$$$"@
            },
{
    let t = similar_price_tiers(price_range);
    if price_range == "$"@ {
        assert(t[0] == price_range);
    } else if price_range == "$$"@ {
        assert(t[1] == price_range);
    } else if price_range == "$$$"@ {
        assert(t[1] == price_range);
    } else if price_range == "$$$$"@ {
        assert(t[1] == price_range);
    }
}

/// Unless a floor is asked for, alternatives score at least as high as the
/// brand itself, and higher whenever its score leaves room.
pub proof fn law_alternatives_score_higher(overall: u8)
    ensures
        alternatives_floor(None, overall) >= overall,
        overall < 255 ==> alternatives_floor(None, overall) > overall,
{
}

} // verus!
