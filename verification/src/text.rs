use vstd::prelude::*;

verus! {

broadcast use vstd::string::group_string_axioms;

/// The characters of a string slice, in order.
pub fn chars_of(s: &str) -> (v: Vec<char>)
    ensures
        v@ == s@,
{
    let mut v: Vec<char> = Vec::new();
    for c in it: s.chars()
        invariant
            v@ == it.seq().take(it.index() as int),
            it.seq() == s@,
    {
        v.push(c);
    }
    v
}

} // verus!

verus! {

/// `String::push`: afterwards the string is the old one with `c` appended
/// (what its documentation states).
#[verifier::external_body]
pub(crate) fn push_char(s: &mut String, c: char)
    ensures
        final(s)@ == old(s)@.push(c),
{
    s.push(c);
}

/// The character for a decimal digit.
pub open spec fn digit_char(d: nat) -> char {
    (48 + d) as char
}

/// Decimal notation of a natural number, as `{}` formats an unsigned integer.
pub open spec fn decimal(n: nat) -> Seq<char>
    decreases n,
{
    if n < 10 {
        seq![digit_char(n)]
    } else {
        decimal(n / 10).push(digit_char(n % 10))
    }
}

/// Appends the decimal notation of `n`.
pub fn push_decimal(s: &mut String, n: u64)
    ensures
        final(s)@ == old(s)@ + decimal(n as nat),
    decreases n,
{
    if n >= 10 {
        push_decimal(s, n / 10);
    }
    let d: u8 = (n % 10) as u8;
    let c: char = (48u8 + d) as char;
    assert(c == digit_char((n % 10) as nat));
    push_char(s, c);
    assert(decimal(n as nat) =~= (if n < 10 { seq![] } else { decimal((n / 10) as nat) }).push(c));
}

} // verus!

verus! {

/// What `str::to_lowercase` returns for a text (full Unicode lowercase mapping).
pub uninterp spec fn lowercase(s: Seq<char>) -> Seq<char>;

/// `str::to_lowercase`: its result is named (`lowercase`), not described;
/// the contract also claims that the returned `String` holds at most
/// `isize::MAX` bytes, as std documents for the buffer behind every `String`.
#[verifier::external_body]
pub(crate) fn to_lowercase(s: &str) -> (r: String)
    ensures
        r@ == lowercase(s@),
        vstd::utf8::encode_utf8(r@).len() <= isize::MAX,
{
    s.to_lowercase()
}

/// The texts of `parts` joined with `sep` between neighbours.
pub open spec fn join(parts: Seq<Seq<char>>, sep: Seq<char>) -> Seq<char>
    decreases parts.len(),
{
    if parts.len() == 0 {
        seq![]
    } else if parts.len() == 1 {
        parts[0]
    } else {
        join(parts.drop_last(), sep) + sep + parts.last()
    }
}

pub open spec fn views_of(v: Seq<String>) -> Seq<Seq<char>> {
    v.map_values(|s: String| s@)
}

/// Appends `parts` joined with `sep` (what `[String]::join` produces).
pub fn push_joined(s: &mut String, parts: &[String], sep: &str)
    ensures
        final(s)@ == old(s)@ + join(views_of(parts@), sep@),
{
    let ghost start = s@;
    let ghost pv = views_of(parts@);
    let n = parts.len();
    let mut i: usize = 0;
    while i < n
        invariant
            n == parts.len(),
            pv == views_of(parts@),
            i <= n,
            s@ == start + join(pv.take(i as int), sep@),
        decreases n - i,
    {
        if i > 0 {
            s.append(sep);
        }
        s.append(parts[i].as_str());
        assert(pv.take(i + 1).drop_last() =~= pv.take(i as int));
        assert(pv.take(i + 1).last() == parts[i as int]@);
        assert(pv.take(i + 1).len() == i + 1);
        i = i + 1;
    }
    assert(pv.take(n as int) =~= pv);
}

} // verus!

verus! {

/// Unicode `White_Space` (what `char::is_whitespace` tests).
pub open spec fn is_white_space(c: char) -> bool {
    let u = c as u32;
    ||| 0x9 <= u <= 0xD
    ||| u == 0x20
    ||| u == 0x85
    ||| u == 0xA0
    ||| u == 0x1680
    ||| 0x2000 <= u <= 0x200A
    ||| u == 0x2028
    ||| u == 0x2029
    ||| u == 0x202F
    ||| u == 0x205F
    ||| u == 0x3000
}

pub fn white_space(c: char) -> (r: bool)
    ensures
        r == is_white_space(c),
{
    let u = c as u32;
    (0x9 <= u && u <= 0xD) || u == 0x20 || u == 0x85 || u == 0xA0 || u == 0x1680 || (0x2000 <= u
        && u <= 0x200A) || u == 0x2028 || u == 0x2029 || u == 0x202F || u == 0x205F || u == 0x3000
}

/// `s` without its leading white space.
pub open spec fn trim_start(s: Seq<char>) -> Seq<char>
    decreases s.len(),
{
    if s.len() > 0 && is_white_space(s[0]) {
        trim_start(s.drop_first())
    } else {
        s
    }
}

/// `s` without its trailing white space.
pub open spec fn trim_end(s: Seq<char>) -> Seq<char>
    decreases s.len(),
{
    if s.len() > 0 && is_white_space(s.last()) {
        trim_end(s.drop_last())
    } else {
        s
    }
}

/// `s` without leading and trailing white space (what `str::trim` returns).
pub open spec fn trim(s: Seq<char>) -> Seq<char> {
    trim_end(trim_start(s))
}

/// A string holding the characters `chars[lo..hi]`.
pub fn string_from_chars(chars: &Vec<char>, lo: usize, hi: usize) -> (r: String)
    requires
        lo <= hi <= chars.len(),
    ensures
        r@ == chars@.subrange(lo as int, hi as int),
{
    let mut r = String::new();
    let mut i = lo;
    while i < hi
        invariant
            lo <= i <= hi <= chars.len(),
            r@ == chars@.subrange(lo as int, i as int),
        decreases hi - i,
    {
        push_char(&mut r, chars[i]);
        assert(chars@.subrange(lo as int, i + 1) =~= chars@.subrange(lo as int, i as int).push(chars[i as int]));
        i = i + 1;
    }
    r
}

/// Characters `chars[lo..hi]` without leading and trailing white space.
pub fn trim_chars(chars: &Vec<char>, lo: usize, hi: usize) -> (r: String)
    requires
        lo <= hi <= chars.len(),
    ensures
        r@ == trim(chars@.subrange(lo as int, hi as int)),
{
    let ghost whole = chars@.subrange(lo as int, hi as int);
    let mut i = lo;
    while i < hi && white_space(chars[i])
        invariant
            lo <= i <= hi <= chars.len(),
            whole == chars@.subrange(lo as int, hi as int),
            trim_start(whole) == trim_start(chars@.subrange(i as int, hi as int)),
        decreases hi - i,
    {
        assert(chars@.subrange(i as int, hi as int).drop_first() =~= chars@.subrange(i + 1, hi as int));
        i = i + 1;
    }
    assert(trim_start(whole) == chars@.subrange(i as int, hi as int));
    let mut j = hi;
    while j > i && white_space(chars[j - 1])
        invariant
            lo <= i <= j <= hi <= chars.len(),
            trim(whole) == trim_end(chars@.subrange(i as int, j as int)),
        decreases j - i,
    {
        assert(chars@.subrange(i as int, j as int).drop_last() =~= chars@.subrange(i as int, j - 1));
        j = j - 1;
    }
    string_from_chars(chars, i, j)
}

/// `s` with leading and trailing white space removed.
pub fn trim_str(s: &str) -> (r: String)
    ensures
        r@ == trim(s@),
{
    let cs = chars_of(s);
    assert(cs@.subrange(0, cs.len() as int) =~= s@);
    trim_chars(&cs, 0, cs.len())
}

} // verus!

verus! {

/// The pieces of `s` between separator characters, as `str::split` with a
/// character pattern yields them (an empty text gives one empty piece).
pub open spec fn split_on(s: Seq<char>, sep: char) -> Seq<Seq<char>>
    decreases s.len(),
{
    if s.len() == 0 {
        seq![seq![]]
    } else {
        let rest = split_on(s.drop_last(), sep);
        if s.last() == sep {
            rest.push(seq![])
        } else {
            rest.update(rest.len() - 1, rest.last().push(s.last()))
        }
    }
}

pub proof fn lemma_split_on_nonempty(s: Seq<char>, sep: char)
    ensures
        split_on(s, sep).len() >= 1,
    decreases s.len(),
{
    if s.len() > 0 {
        lemma_split_on_nonempty(s.drop_last(), sep);
    }
}

/// `b` marks, within `chars`, the characters of `piece`.
pub open spec fn marks(chars: Seq<char>, b: (usize, usize), piece: Seq<char>) -> bool {
    b.0 <= b.1 <= chars.len() && chars.subrange(b.0 as int, b.1 as int) == piece
}

/// Start and end positions (in characters) of the pieces of `chars`
/// between occurrences of `sep`.
pub fn split_bounds(chars: &Vec<char>, sep: char) -> (r: Vec<(usize, usize)>)
    ensures
        r.len() == split_on(chars@, sep).len(),
        forall|k: int| 0 <= k < r.len() ==> marks(chars@, #[trigger] r[k], split_on(chars@, sep)[k]),
{
    let mut r: Vec<(usize, usize)> = Vec::new();
    let mut start: usize = 0;
    let n = chars.len();
    let mut i: usize = 0;
    while i < n
        invariant
            n == chars.len(),
            start <= i <= n,
            split_on(chars@.take(i as int), sep).len() == r.len() + 1,
            forall|k: int|
                0 <= k < r.len() ==> marks(chars@, #[trigger] r[k], split_on(chars@.take(i as int), sep)[k]),
            chars@.subrange(start as int, i as int) == split_on(chars@.take(i as int), sep).last(),
        decreases n - i,
    {
        proof {
            lemma_split_on_nonempty(chars@.take(i as int), sep);
        }
        assert(chars@.take(i + 1).drop_last() =~= chars@.take(i as int));
        assert(chars@.take(i + 1).last() == chars[i as int]);
        let ghost rest = split_on(chars@.take(i as int), sep);
        let ghost next = split_on(chars@.take(i + 1), sep);
        let ghost old_r = r@;
        let ghost old_start = start;
        if chars[i] == sep {
            assert(next == rest.push(seq![]));
            r.push((start, i));
            start = i + 1;
            assert(chars@.subrange(start as int, i + 1) =~= seq![]);
            assert forall|k: int| 0 <= k < r.len() implies marks(chars@, #[trigger] r[k], next[k]) by {
                assert(next[k] == rest[k]);
                if k == r.len() - 1 {
                    assert(r[k] == (old_start, i));
                } else {
                    assert(r[k] == old_r[k]);
                    assert(marks(chars@, old_r[k], rest[k]));
                }
            }
        } else {
            assert(next == rest.update(rest.len() - 1, rest.last().push(chars[i as int])));
            assert(chars@.subrange(start as int, i + 1) =~= chars@.subrange(start as int, i as int).push(chars[i as int]));
            assert forall|k: int| 0 <= k < r.len() implies marks(chars@, #[trigger] r[k], next[k]) by {
                assert(next[k] == rest[k]);
                assert(marks(chars@, old_r[k], rest[k]));
            }
        }
        i = i + 1;
        assert(next == split_on(chars@.take(i as int), sep));
    }
    r.push((start, n));
    assert(chars@.take(n as int) =~= chars@);
    r
}

/// The pieces of `s` between commas, each without surrounding white space.
pub fn split_commas_trimmed(s: &str) -> (r: Vec<String>)
    ensures
        r.len() == split_on(s@, ',').len(),
        forall|k: int| 0 <= k < r.len() ==> #[trigger] r[k]@ == trim(split_on(s@, ',')[k]),
{
    let cs = chars_of(s);
    let bounds = split_bounds(&cs, ',');
    let mut r: Vec<String> = Vec::new();
    let mut k: usize = 0;
    while k < bounds.len()
        invariant
            cs@ == s@,
            k <= bounds.len(),
            r.len() == k,
            bounds.len() == split_on(s@, ',').len(),
            forall|t: int| 0 <= t < bounds.len() ==> marks(cs@, #[trigger] bounds[t], split_on(s@, ',')[t]),
            forall|t: int| 0 <= t < k ==> #[trigger] r[t]@ == trim(split_on(s@, ',')[t]),
        decreases bounds.len() - k,
    {
        let (lo, hi) = bounds[k];
        let piece = trim_chars(&cs, lo, hi);
        r.push(piece);
        k = k + 1;
    }
    r
}

/// Whether `c` is one of `0`..`9` (`char::is_ascii_digit`).
pub open spec fn is_digit(c: char) -> bool {
    '0' <= c && c <= '9'
}

/// The decimal digits of `s`, in order, with every other character dropped.
pub open spec fn digits_only(s: Seq<char>) -> Seq<char>
    decreases s.len(),
{
    if s.len() == 0 {
        seq![]
    } else if is_digit(s.last()) {
        digits_only(s.drop_last()).push(s.last())
    } else {
        digits_only(s.drop_last())
    }
}

pub proof fn lemma_digits_only_all_digits(s: Seq<char>)
    ensures
        forall|k: int| 0 <= k < digits_only(s).len() ==> is_digit(#[trigger] digits_only(s)[k]),
        digits_only(s).len() <= s.len(),
    decreases s.len(),
{
    if s.len() > 0 {
        lemma_digits_only_all_digits(s.drop_last());
    }
}

/// Keeps only the ASCII digits of `s`.
pub fn keep_digits(s: &str) -> (r: Vec<char>)
    ensures
        r@ == digits_only(s@),
{
    let cs = chars_of(s);
    let mut r: Vec<char> = Vec::new();
    let mut i: usize = 0;
    while i < cs.len()
        invariant
            cs@ == s@,
            i <= cs.len(),
            r@ == digits_only(cs@.take(i as int)),
        decreases cs.len() - i,
    {
        assert(cs@.take(i + 1).drop_last() =~= cs@.take(i as int));
        let c = cs[i];
        if '0' <= c && c <= '9' {
            r.push(c);
        }
        i = i + 1;
    }
    assert(cs@.take(cs.len() as int) =~= cs@);
    r
}

} // verus!

verus! {

/// Whether two texts are the same.
pub fn same_text(a: &str, b: &str) -> (r: bool)
    ensures
        r == (a@ == b@),
{
    let ac = chars_of(a);
    let bc = chars_of(b);
    if ac.len() != bc.len() {
        return false;
    }
    let mut i: usize = 0;
    while i < ac.len()
        invariant
            ac@ == a@,
            bc@ == b@,
            ac.len() == bc.len(),
            i <= ac.len(),
            forall|k: int| 0 <= k < i ==> ac@[k] == bc@[k],
        decreases ac.len() - i,
    {
        if ac[i] != bc[i] {
            return false;
        }
        i = i + 1;
    }
    assert(ac@ =~= bc@);
    true
}

} // verus!
