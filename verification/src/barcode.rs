use vstd::prelude::*;
use crate::models::BrandRating;
use crate::text::{digits_only, keep_digits, lemma_digits_only_all_digits};

verus! {

/// Result of a barcode lookup.
pub struct BarcodeLookupResponse {
    /// The digits of the scanned barcode.
    pub barcode: String,
    /// `"ours"` when a registered prefix matched, `"miss"` otherwise.
    pub source: String,
    /// Provenance of the matching prefix.
    pub prefix_source: Option<String>,
    /// Confidence (0-100) of the matching prefix.
    pub confidence: Option<i64>,
    /// The brand of the matching prefix, when it is known.
    pub brand: Option<BrandRating>,
}

/// A user's report of which brand a scanned barcode belongs to.
pub struct ContributeRequest {
    pub barcode: String,
    pub brand_slug: String,
    pub user_hash: Option<String>,
}

/// Answer to a contribution.
pub struct ContributeResponse {
    pub ok: bool,
    pub message: String,
}

/// A string of the given characters.
fn string_of(chars: &Vec<char>, n: usize) -> (r: String)
    requires
        n <= chars.len(),
    ensures
        r@ == chars@.take(n as int),
{
    let r = crate::text::string_from_chars(chars, 0, n);
    assert(chars@.subrange(0, n as int) =~= chars@.take(n as int));
    r
}

/// The digits of a scanned barcode (scanners may add hyphens or spaces).
pub fn clean_barcode(raw: &str) -> (r: String)
    ensures
        r@ == digits_only(raw@),
{
    let d = keep_digits(raw);
    let r = string_of(&d, d.len());
    assert(d@.take(d.len() as int) =~= d@);
    r
}

/// Shortest barcode (in digits) that a lookup considers.
pub const MIN_LOOKUP_DIGITS: usize = 6;

/// Prefix lengths tried for a barcode of `n` digits, longest first: company
/// prefixes have 6 to 9 digits, and a barcode shorter than 6 digits is not
/// looked up.
pub open spec fn prefix_lengths(n: nat) -> Seq<nat> {
    if n < 6 {
        seq![]
    } else if n == 6 {
        seq![6]
    } else if n == 7 {
        seq![7, 6]
    } else if n == 8 {
        seq![8, 7, 6]
    } else {
        seq![9, 8, 7, 6]
    }
}

/// The prefixes of a barcode's digits to look up, most specific first.
pub open spec fn lookup_prefixes(digits: Seq<char>) -> Seq<Seq<char>> {
    prefix_lengths(digits.len()).map_values(|l: nat| digits.take(l as int))
}

/// The prefixes under which a scanned barcode is looked up, longest (most
/// specific) first.
pub fn barcode_prefix_candidates(raw: &str) -> (r: Vec<String>)
    ensures
        r.len() == lookup_prefixes(digits_only(raw@)).len(),
        forall|k: int| 0 <= k < r.len() ==> #[trigger] r[k]@ == lookup_prefixes(digits_only(raw@))[k],
{
    let d = keep_digits(raw);
    let ghost want = prefix_lengths(d@.len());
    let mut r: Vec<String> = Vec::new();
    if d.len() < MIN_LOOKUP_DIGITS {
        return r;
    }
    let lens: [usize; 4] = [9, 8, 7, 6];
    let mut i: usize = 0;
    let ghost skipped: int = if d.len() >= 9 { 0 } else { 9 - d.len() };
    while i < 4
        invariant
            6 <= d.len(),
            d@ == digits_only(raw@),
            want == prefix_lengths(d@.len()),
            lens@ == seq![9usize, 8, 7, 6],
            skipped == (if d.len() >= 9 { 0 } else { 9 - d.len() }),
            i <= 4,
            r.len() == if i <= skipped { 0 } else { i - skipped },
            forall|k: int| 0 <= k < r.len() ==> #[trigger] r[k]@ == d@.take(want[k] as int),
            forall|k: int| 0 <= k < want.len() ==> #[trigger] want[k] == (if d.len() >= 9 { 9 - k } else { d.len() - k }),
        decreases 4 - i,
    {
        let l = lens[i];
        if l <= d.len() {
            let p = string_of(&d, l);
            r.push(p);
        }
        i = i + 1;
    }
    assert(want.len() == r.len());
    r
}

/// The lookup answer when no registered prefix matches.
pub fn barcode_miss(barcode: String) -> (r: BarcodeLookupResponse)
    ensures
        r.barcode == barcode,
        r.source@ == "miss"@,
        r.prefix_source is None,
        r.confidence is None,
        r.brand is None,
{
    BarcodeLookupResponse {
        barcode,
        source: String::from_str("miss"),
        prefix_source: None,
        confidence: None,
        brand: None,
    }
}

/// The lookup answer for a matching prefix of the given provenance and
/// confidence, with the brand when it is known.
pub fn barcode_hit(barcode: String, prefix_source: String, confidence: i64, brand: Option<BrandRating>) -> (r: BarcodeLookupResponse)
    ensures
        r.barcode == barcode,
        r.source@ == "ours"@,
        r.prefix_source == Some(prefix_source),
        r.confidence == Some(confidence),
        r.brand == brand,
{
    BarcodeLookupResponse {
        barcode,
        source: String::from_str("ours"),
        prefix_source: Some(prefix_source),
        confidence: Some(confidence),
        brand,
    }
}

} // verus!

verus! {

pub proof fn lemma_digits_only_of_digits(s: Seq<char>)
    requires
        forall|k: int| 0 <= k < s.len() ==> crate::text::is_digit(#[trigger] s[k]),
    ensures
        digits_only(s) == s,
    decreases s.len(),
{
    if s.len() > 0 {
        lemma_digits_only_of_digits(s.drop_last());
        assert(s.drop_last().push(s.last()) =~= s);
    }
}

/// Cleaning a barcode twice gives what cleaning it once gives, so the
/// cleaned barcode can be handed on and cleaned again.
pub proof fn law_clean_barcode_idempotent(s: Seq<char>)
    ensures
        digits_only(digits_only(s)) == digits_only(s),
{
    lemma_digits_only_all_digits(s);
    lemma_digits_only_of_digits(digits_only(s));
}

/// The prefixes looked up are prefixes of the barcode's digits, from 6 to 9
/// digits long, strictly shorter one after another (most specific first);
/// there are none exactly when the barcode has fewer than 6 digits.
pub proof fn law_lookup_prefixes_most_specific_first(digits: Seq<char>)
    ensures
        lookup_prefixes(digits).len() == 0 <==> digits.len() < 6,
        forall|k: int|
            0 <= k < lookup_prefixes(digits).len() ==> {
                let p = #[trigger] lookup_prefixes(digits)[k];
                &&& 6 <= p.len() <= 9
                &&& p.len() <= digits.len()
                &&& p == digits.take(p.len() as int)
            },
        forall|k: int, m: int|
            0 <= k < m < lookup_prefixes(digits).len() ==> #[trigger] lookup_prefixes(digits)[k].len()
                > #[trigger] lookup_prefixes(digits)[m].len(),
        digits.len() >= 9 ==> lookup_prefixes(digits).len() == 4,
{
}

} // verus!

verus! {

/// Every prefix length from the longest one the barcode allows (at most 9
/// digits) down to 6 is tried, one after the other: a barcode of `n >= 6`
/// digits gets `min(9, n) - 5` candidates, the `k`-th being its first
/// `min(9, n) - k` digits.
pub proof fn law_lookup_prefixes_every_length(digits: Seq<char>)
    ensures
        digits.len() >= 6 ==> lookup_prefixes(digits).len() == (if digits.len() >= 9 {
            9
        } else {
            digits.len() as int
        }) - 5,
        forall|k: int|
            0 <= k < lookup_prefixes(digits).len() ==> #[trigger] lookup_prefixes(digits)[k] == digits.take(
                (if digits.len() >= 9 { 9 } else { digits.len() as int }) - k,
            ),
{
}

/// Digits of the prefix recorded for a contribution.
pub const CONTRIBUTION_PREFIX_DIGITS: usize = 8;

pub const CONTRIBUTION_TOO_SHORT: &'static str = "Barcode too short (need at least 8 digits)";

pub const CONTRIBUTION_THANKS: &'static str = "Thanks \u{2014} we'll use this to improve our barcode database.";

/// What a contribution leads to: the prefix to record, or the answer when
/// the barcode has fewer than 8 digits.
pub open spec fn contribution_plan(barcode: Seq<char>) -> Option<Seq<char>> {
    let d = digits_only(barcode);
    if d.len() < 8 {
        None
    } else {
        Some(d.take(8))
    }
}

/// A contribution is refused exactly when its barcode has fewer than 8
/// digits, however long it is otherwise; an accepted one records the first
/// 8 digits of the barcode, in order.
pub proof fn law_contribution_refused_only_when_short(barcode: Seq<char>)
    ensures
        contribution_plan(barcode) is None <==> digits_only(barcode).len() < 8,
        digits_only(barcode).len() >= 8 ==> contribution_plan(barcode) == Some(digits_only(barcode).take(8)),
        contribution_plan(barcode) matches Some(p) ==> p.len() == 8 && forall|i: int|
            0 <= i < 8 ==> #[trigger] p[i] == digits_only(barcode)[i],
{
}

/// The 8-digit prefix that a contribution records, or the refusal to give
/// when the barcode is too short.
pub fn plan_contribution(req: &ContributeRequest) -> (r: Result<String, ContributeResponse>)
    ensures
        match contribution_plan(req.barcode@) {
            Some(p) => r matches Ok(s) && s@ == p,
            None => r matches Err(resp) && !resp.ok && resp.message@ == CONTRIBUTION_TOO_SHORT@,
        },
{
    let d = keep_digits(req.barcode.as_str());
    if d.len() < CONTRIBUTION_PREFIX_DIGITS {
        return Err(ContributeResponse { ok: false, message: String::from_str(CONTRIBUTION_TOO_SHORT) });
    }
    Ok(string_of(&d, CONTRIBUTION_PREFIX_DIGITS))
}

/// The answer to an accepted contribution.
pub fn contribution_accepted() -> (r: ContributeResponse)
    ensures
        r.ok,
        r.message@ == CONTRIBUTION_THANKS@,
{
    ContributeResponse { ok: true, message: String::from_str(CONTRIBUTION_THANKS) }
}

/// Matching reports (from distinct users) needed before a crowdsourced
/// prefix is promoted into the prefix table.
pub const PROMOTION_THRESHOLD: i64 = 3;

/// Confidence given to a promoted crowdsourced prefix.
pub const PROMOTED_CONFIDENCE: i64 = 70;

/// Lowest confidence at which a registered prefix counts as high
/// confidence and is never replaced by a crowdsourced promotion: above the
/// promoted level, as curated prefixes (manual, GS1, partner) are.
pub const HIGH_CONFIDENCE: i64 = 71;

/// Whether a prefix already registered at `existing` confidence (or not
/// registered) may be replaced by a promotion.
pub open spec fn may_promote_over(existing: Option<i64>) -> bool {
    match existing {
        Some(c) => c < HIGH_CONFIDENCE,
        None => true,
    }
}

/// Lowest confidence at which a registered prefix is trusted for a lookup.
pub const MIN_MATCH_CONFIDENCE: i64 = 50;

/// Steps of looking a barcode up in the prefix table, given its candidate
/// prefixes (most specific first).
#[derive(PartialEq, Eq, Structural, Debug)]
pub enum LookupStep {
    /// Ask whether the candidate at this position is registered with enough
    /// confidence.
    Try(usize),
    /// The candidate at this position is the match.
    Found(usize),
    /// No candidate is registered.
    NotFound,
}

/// The step that follows trying candidate `tried` of `candidates`.
pub open spec fn next_lookup(tried: nat, candidates: nat, registered: bool) -> LookupStep {
    if registered {
        LookupStep::Found(tried as usize)
    } else if tried + 1 < candidates {
        LookupStep::Try((tried + 1) as usize)
    } else {
        LookupStep::NotFound
    }
}

/// Where a lookup ends that is about to try candidate `i`, the answers for
/// the candidates being `registered`: each step is `next_lookup`, and a
/// `Try` goes on to the next candidate.
pub open spec fn lookup_run(registered: Seq<bool>, i: nat) -> LookupStep
    decreases registered.len() - i,
{
    if i < registered.len() {
        match next_lookup(i, registered.len(), registered[i as int]) {
            LookupStep::Try(_) => lookup_run(registered, i + 1),
            other => other,
        }
    } else {
        LookupStep::NotFound
    }
}

/// The first lookup step over `candidates` candidate prefixes.
pub fn first_lookup_step(candidates: usize) -> (s: LookupStep)
    ensures
        s == (if candidates > 0 { LookupStep::Try(0) } else { LookupStep::NotFound }),
{
    if candidates > 0 {
        LookupStep::Try(0)
    } else {
        LookupStep::NotFound
    }
}

/// The next lookup step once candidate `tried` is known to be registered
/// or not: a registered one is the match, else the next candidate is tried.
pub fn next_lookup_step(tried: usize, candidates: usize, registered: bool) -> (s: LookupStep)
    requires
        tried < candidates,
    ensures
        s == next_lookup(tried as nat, candidates as nat, registered),
{
    if registered {
        LookupStep::Found(tried)
    } else if tried + 1 < candidates {
        LookupStep::Try(tried + 1)
    } else {
        LookupStep::NotFound
    }
}

/// A lookup that is about to try candidate `from` ends at the first
/// registered candidate from there on, or finds none.
proof fn lemma_lookup_run_from(registered: Seq<bool>, from: nat)
    requires
        registered.len() <= usize::MAX,
    ensures
        forall|k: int|
            from <= k < registered.len() && registered[k] && (forall|m: int| from <= m < k ==> !#[trigger] registered[m])
                ==> lookup_run(registered, from) == LookupStep::Found(k as usize),
        (forall|k: int| from <= k < registered.len() ==> !#[trigger] registered[k]) ==> lookup_run(registered, from)
            == LookupStep::NotFound,
    decreases registered.len() - from,
{
    let n = registered.len();
    if from < n {
        if registered[from as int] {
            assert forall|k: int|
                from <= k < n && registered[k] && (forall|m: int| from <= m < k ==> !#[trigger] registered[m])
                implies lookup_run(registered, from) == LookupStep::Found(k as usize) by {
                if k > from {
                    assert(!registered[from as int]);
                }
            }
        } else {
            lemma_lookup_run_from(registered, from + 1);
            assert forall|k: int|
                from <= k < n && registered[k] && (forall|m: int| from <= m < k ==> !#[trigger] registered[m])
                implies lookup_run(registered, from) == LookupStep::Found(k as usize) by {
                assert(k != from);
                assert(forall|m: int| from + 1 <= m < k ==> !#[trigger] registered[m]);
            }
        }
    }
}

/// A lookup driven by `first_lookup_step` and `next_lookup_step` ends at the
/// first candidate prefix, most specific first, that is registered with
/// enough confidence, and finds nothing when none is.
pub proof fn law_lookup_first_registered_wins(registered: Seq<bool>)
    requires
        registered.len() <= usize::MAX,
    ensures
        forall|k: int|
            0 <= k < registered.len() && registered[k] && (forall|m: int| 0 <= m < k ==> !#[trigger] registered[m])
                ==> lookup_run(registered, 0) == LookupStep::Found(k as usize),
        (forall|k: int| 0 <= k < registered.len() ==> !#[trigger] registered[k]) ==> lookup_run(registered, 0)
            == LookupStep::NotFound,
{
    lemma_lookup_run_from(registered, 0);
}

/// Steps of recording a crowdsourced prefix report, each a query or a
/// write on the database.
pub enum SubmitAction {
    /// Count the brands with the reported slug.
    CountBrand,
    /// Store the report.
    InsertReport,
    /// Count the distinct reporters that agree on this prefix and brand.
    CountAgreement,
    /// Read the confidence of the prefix's row in the prefix table, if any.
    ReadExistingPrefix,
    /// Put the prefix in the prefix table at the promoted confidence.
    Promote,
    /// The report is recorded.
    Finish,
    /// The slug is not a known brand; the message says so.
    RejectUnknownBrand(String),
}

/// What the database answered to the last step.
pub enum SubmitEvent {
    BrandCount(i64),
    ReportInserted,
    AgreementCount(i64),
    /// The confidence of the prefix's current row, or none.
    ExistingPrefix(Option<i64>),
    Promoted,
}

/// The first step of recording a report.
pub fn first_submit_action() -> (a: SubmitAction)
    ensures
        a is CountBrand,
{
    SubmitAction::CountBrand
}

/// The message for a report about an unknown brand.
pub open spec fn unknown_brand_message(slug: Seq<char>) -> Seq<char> {
    "Unknown brand_slug: "@ + slug
}

/// The next step of recording a report for `slug`, given what the database
/// answered: an unknown brand is refused, a known one gets its report
/// stored, and once `PROMOTION_THRESHOLD` reporters agree the prefix is
/// promoted, unless the prefix table already holds it at high confidence.
pub fn next_submit_action(slug: &str, event: SubmitEvent) -> (a: SubmitAction)
    ensures
        match event {
            SubmitEvent::BrandCount(n) => if n == 0 {
                a matches SubmitAction::RejectUnknownBrand(m) && m@ == unknown_brand_message(slug@)
            } else {
                a is InsertReport
            },
            SubmitEvent::ReportInserted => a is CountAgreement,
            SubmitEvent::AgreementCount(k) => if k >= PROMOTION_THRESHOLD {
                a is ReadExistingPrefix
            } else {
                a is Finish
            },
            SubmitEvent::ExistingPrefix(c) => if may_promote_over(c) {
                a is Promote
            } else {
                a is Finish
            },
            SubmitEvent::Promoted => a is Finish,
        },
        a is Promote ==> (event matches SubmitEvent::ExistingPrefix(c) && may_promote_over(c)),
{
    match event {
        SubmitEvent::BrandCount(n) => {
            if n == 0 {
                let mut m = String::from_str("Unknown brand_slug: ");
                m.append(slug);
                SubmitAction::RejectUnknownBrand(m)
            } else {
                SubmitAction::InsertReport
            }
        },
        SubmitEvent::ReportInserted => SubmitAction::CountAgreement,
        SubmitEvent::AgreementCount(k) => {
            if k >= PROMOTION_THRESHOLD {
                SubmitAction::ReadExistingPrefix
            } else {
                SubmitAction::Finish
            }
        },
        SubmitEvent::ExistingPrefix(c) => {
            let keep = match c {
                Some(v) => v >= HIGH_CONFIDENCE,
                None => false,
            };
            if keep {
                SubmitAction::Finish
            } else {
                SubmitAction::Promote
            }
        },
        SubmitEvent::Promoted => SubmitAction::Finish,
    }
}

/// Whether a seed prefix is stored: only for a brand the database knows
/// (`brand_count` rows carry its slug).
pub fn seed_prefix_allowed(brand_count: i64) -> (r: bool)
    ensures
        r == (brand_count != 0),
{
    brand_count != 0
}

} // verus!
