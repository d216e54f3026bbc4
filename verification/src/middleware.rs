use vstd::prelude::*;
use std::collections::hash_map::DefaultHasher;
use std::hash::{Hash, Hasher};
use crate::text::{chars_of, push_char, split_on, trim, trim_chars, trim_str, split_bounds, marks};

verus! {

/// The key under which a client is rate limited, from the forwarded
/// headers: the `cf-connecting-ip` value, else the first address of
/// `x-forwarded-for`, trimmed; `"unknown"` when neither header is readable.
pub open spec fn client_key_text(cf_connecting_ip: Option<Seq<char>>, forwarded_for: Option<Seq<char>>) -> Seq<char> {
    match cf_connecting_ip {
        Some(v) => trim(v),
        None => match forwarded_for {
            Some(v) => trim(split_on(v, ',')[0]),
            None => "unknown"@,
        },
    }
}

pub open spec fn opt_view(o: Option<String>) -> Option<Seq<char>> {
    match o {
        Some(s) => Some(s@),
        None => None,
    }
}

/// The rate-limit key of a client, given the text of its
/// `cf-connecting-ip` and `x-forwarded-for` headers (absent when missing or
/// not visible ASCII).
pub fn client_key(cf_connecting_ip: Option<String>, forwarded_for: Option<String>) -> (r: String)
    ensures
        r@ == client_key_text(opt_view(cf_connecting_ip), opt_view(forwarded_for)),
{
    match cf_connecting_ip {
        Some(v) => trim_str(v.as_str()),
        None => match forwarded_for {
            Some(v) => {
                let cs = chars_of(v.as_str());
                let bounds = split_bounds(&cs, ',');
                proof {
                    crate::text::lemma_split_on_nonempty(cs@, ',');
                }
                let (lo, hi) = bounds[0];
                assert(marks(cs@, bounds[0], split_on(cs@, ',')[0]));
                trim_chars(&cs, lo, hi)
            },
            None => String::from_str("unknown"),
        },
    }
}

/// Requests a client may make per minute: as configured, but at least one.
pub fn quota_per_minute(per_minute: u32) -> (r: u32)
    ensures
        r == if per_minute >= 1 { per_minute } else { 1 },
        r >= 1,
{
    if per_minute >= 1 { per_minute } else { 1 }
}

/// Body of the answer to a client over its quota (status 429).
pub const RATE_LIMITED_BODY: &'static str = "{\"error\":\"Rate limit exceeded. Try again shortly.\",\"status\":429}";

/// Seconds after which a limited client may retry.
pub const RETRY_AFTER_SECONDS: &'static str = "30";

/// `Cache-Control` value of a cached answer.
pub const CACHE_CONTROL_VALUE: &'static str = "public, max-age=300";

/// Whether an answer is given caching headers: only successful GETs.
pub fn is_cacheable(is_get: bool, status: u16) -> (r: bool)
    ensures
        r == (is_get && status == 200),
{
    is_get && status == 200
}

/// Lowercase hexadecimal digit.
pub open spec fn hex_char(d: nat) -> char {
    if d < 10 {
        (48 + d) as char
    } else {
        (87 + d) as char
    }
}

/// The last `count` hexadecimal digits of `n`, zero padded.
pub open spec fn hex_digits(n: nat, count: nat) -> Seq<char>
    decreases count,
{
    if count == 0 {
        seq![]
    } else {
        hex_digits(n / 16, (count - 1) as nat).push(hex_char(n % 16))
    }
}

fn push_hex_digits(s: &mut String, n: u64, count: u32)
    ensures
        final(s)@ == old(s)@ + hex_digits(n as nat, count as nat),
    decreases count,
{
    if count > 0 {
        push_hex_digits(s, n / 16, count - 1);
        let d: u8 = (n % 16) as u8;
        let c: char = if d < 10 { (48u8 + d) as char } else { (87u8 + d) as char };
        push_char(s, c);
        assert(hex_digits(n as nat, count as nat) =~= hex_digits((n / 16) as nat, (count - 1) as nat).push(c));
    }
}

/// The entity tag of a body with the given content hash: the hash as 16
/// lowercase hexadecimal digits in double quotes.
pub open spec fn etag_text(hash: u64) -> Seq<char> {
    seq!['"'] + hex_digits(hash as nat, 16) + seq!['"']
}

/// The entity tag for a content hash.
pub fn etag_for(hash: u64) -> (r: String)
    ensures
        r@ == etag_text(hash),
{
    let mut s = String::new();
    push_char(&mut s, '"');
    push_hex_digits(&mut s, hash, 16);
    push_char(&mut s, '"');
    s
}

/// `<[u8] as Hash>::hash` into a `DefaultHasher`: feeds the bytes (and
/// their length) to the hasher. The contract claims nothing of the hasher's
/// state afterwards: std documents neither what is written nor the hash
/// algorithm, which may change between releases.
#[verifier::external_body]
fn hash_bytes(bytes: &[u8], state: &mut DefaultHasher) {
    bytes.hash(state)
}

/// The entity tag of a response body: the body's content hash under std's
/// `DefaultHasher`, as `etag_for` writes it.
pub fn body_etag(body: &[u8]) -> (r: String)
    ensures
        exists|h: u64| r@ == etag_text(h),
{
    let mut hasher = DefaultHasher::new();
    hash_bytes(body, &mut hasher);
    let h = hasher.finish();
    etag_for(h)
}

/// Whether a cached answer is replaced by `304 Not Modified`: the client's
/// `If-None-Match` value is exactly the answer's entity tag.
pub fn is_not_modified(if_none_match: Option<String>, etag: &str) -> (r: bool)
    ensures
        r == (match if_none_match {
            Some(v) => v@ == etag@,
            None => false,
        }),
{
    match if_none_match {
        Some(v) => crate::text::same_text(v.as_str(), etag),
        None => false,
    }
}

pub proof fn lemma_hex_digits_len(n: nat, count: nat)
    ensures
        hex_digits(n, count).len() == count,
    decreases count,
{
    if count > 0 {
        lemma_hex_digits_len(n / 16, (count - 1) as nat);
    }
}

/// Every entity tag is 18 characters: 16 hexadecimal digits in quotes.
pub proof fn law_etag_shape(hash: u64)
    ensures
        etag_text(hash).len() == 18,
        etag_text(hash)[0] == '"',
        etag_text(hash)[17] == '"',
{
    lemma_hex_digits_len(hash as nat, 16);
}

} // verus!

verus! {

pub open spec fn pow16(c: nat) -> nat
    decreases c,
{
    if c == 0 {
        1
    } else {
        16 * pow16((c - 1) as nat)
    }
}

pub proof fn lemma_hex_digits_injective(n: nat, m: nat, count: nat)
    requires
        n < pow16(count),
        m < pow16(count),
        hex_digits(n, count) == hex_digits(m, count),
    ensures
        n == m,
    decreases count,
{
    if count > 0 {
        let a = hex_digits(n / 16, (count - 1) as nat);
        let b = hex_digits(m / 16, (count - 1) as nat);
        assert(hex_digits(n, count).last() == hex_char(n % 16));
        assert(hex_digits(m, count).last() == hex_char(m % 16));
        assert(hex_digits(n, count).drop_last() =~= a);
        assert(hex_digits(m, count).drop_last() =~= b);
        assert(n % 16 == m % 16) by {
            assert(hex_char(n % 16) == hex_char(m % 16));
        }
        let p = pow16((count - 1) as nat);
        assert(n / 16 < p) by (nonlinear_arith)
            requires n < 16 * p;
        assert(m / 16 < p) by (nonlinear_arith)
            requires m < 16 * p;
        lemma_hex_digits_injective(n / 16, m / 16, (count - 1) as nat);
        assert(n == 16 * (n / 16) + n % 16) by (nonlinear_arith);
        assert(m == 16 * (m / 16) + m % 16) by (nonlinear_arith);
    } else {
    }
}

/// Different content hashes get different entity tags.
pub proof fn law_etag_distinguishes_hashes(h1: u64, h2: u64)
    ensures
        etag_text(h1) == etag_text(h2) ==> h1 == h2,
{
    if etag_text(h1) == etag_text(h2) {
        assert(pow16(16) == 0x1_0000_0000_0000_0000) by {
            reveal_with_fuel(pow16, 17);
        }
        let t1 = etag_text(h1);
        let t2 = etag_text(h2);
        lemma_hex_digits_len(h1 as nat, 16);
        lemma_hex_digits_len(h2 as nat, 16);
        assert(t1.subrange(1, 17) =~= hex_digits(h1 as nat, 16));
        assert(t2.subrange(1, 17) =~= hex_digits(h2 as nat, 16));
        lemma_hex_digits_injective(h1 as nat, h2 as nat, 16);
    }
}

} // verus!
