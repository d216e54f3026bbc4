use vstd::prelude::*;
use crate::models::BrandRating;
use crate::text::{decimal, digit_char, join, push_char, push_decimal, push_joined, views_of};
use crate::text::chars_of;

verus! {

/// The characters that stand for one character inside a quoted CSV field:
/// a double quote is doubled, anything else is kept.
pub open spec fn escaped_char(c: char) -> Seq<char> {
    if c == '"' {
        seq!['"', '"']
    } else {
        seq![c]
    }
}

/// `s` with every double quote doubled.
pub open spec fn double_quotes(s: Seq<char>) -> Seq<char>
    decreases s.len(),
{
    if s.len() == 0 {
        seq![]
    } else {
        escaped_char(s[0]) + double_quotes(s.drop_first())
    }
}

/// A CSV field holding `s`: quoted, with inner quotes doubled.
pub open spec fn csv_field_text(s: Seq<char>) -> Seq<char> {
    seq!['"'] + double_quotes(s) + seq!['"']
}

/// Reads back the content of a quoted field's interior: pairs of double
/// quotes stand for one, a lone double quote is malformed.
pub open spec fn undouble_quotes(t: Seq<char>) -> Option<Seq<char>>
    decreases t.len(),
{
    if t.len() == 0 {
        Some(seq![])
    } else if t[0] == '"' {
        if t.len() >= 2 && t[1] == '"' {
            match undouble_quotes(t.skip(2)) {
                Some(rest) => Some(seq!['"'] + rest),
                None => None,
            }
        } else {
            None
        }
    } else {
        match undouble_quotes(t.drop_first()) {
            Some(rest) => Some(seq![t[0]] + rest),
            None => None,
        }
    }
}

/// Reads a quoted CSV field back to its content.
pub open spec fn read_csv_field(f: Seq<char>) -> Option<Seq<char>> {
    if f.len() >= 2 && f[0] == '"' && f.last() == '"' {
        undouble_quotes(f.subrange(1, f.len() - 1))
    } else {
        None
    }
}

pub proof fn lemma_double_quotes_append(a: Seq<char>, b: Seq<char>)
    ensures
        double_quotes(a + b) == double_quotes(a) + double_quotes(b),
    decreases a.len(),
{
    if a.len() == 0 {
        assert(a + b =~= b);
    } else {
        assert((a + b).drop_first() =~= a.drop_first() + b);
        lemma_double_quotes_append(a.drop_first(), b);
        assert(double_quotes(a + b) =~= escaped_char(a[0]) + (double_quotes(a.drop_first()) + double_quotes(b)));
    }
}

pub proof fn lemma_undouble_double(s: Seq<char>)
    ensures
        undouble_quotes(double_quotes(s)) == Some(s),
    decreases s.len(),
{
    if s.len() > 0 {
        lemma_undouble_double(s.drop_first());
        let t = double_quotes(s);
        let rest = double_quotes(s.drop_first());
        if s[0] == '"' {
            assert(t.skip(2) =~= rest);
        } else {
            assert(t.drop_first() =~= rest);
        }
        assert(s =~= seq![s[0]] + s.drop_first());
    }
}

/// A quoted CSV field reads back to exactly the text it was made from.
pub proof fn law_csv_field_round_trip(s: Seq<char>)
    ensures
        read_csv_field(csv_field_text(s)) == Some(s),
{
    let f = csv_field_text(s);
    assert(f.subrange(1, f.len() - 1) =~= double_quotes(s));
    lemma_undouble_double(s);
}

/// Appends the CSV field for `s`.
pub fn push_csv_field(out: &mut String, s: &str)
    ensures
        final(out)@ == old(out)@ + csv_field_text(s@),
{
    let cs = chars_of(s);
    let ghost start = out@;
    push_char(out, '"');
    let mut i: usize = 0;
    while i < cs.len()
        invariant
            cs@ == s@,
            i <= cs.len(),
            out@ == start + seq!['"'] + double_quotes(cs@.take(i as int)),
        decreases cs.len() - i,
    {
        let c = cs[i];
        proof {
            lemma_double_quotes_append(cs@.take(i as int), seq![c]);
            assert(cs@.take(i + 1) =~= cs@.take(i as int) + seq![c]);
            assert(double_quotes(seq![c]) =~= escaped_char(c)) by {
                assert(seq![c].drop_first() =~= Seq::<char>::empty());
                assert(double_quotes(Seq::<char>::empty()) =~= Seq::<char>::empty());
                assert(escaped_char(c) + Seq::<char>::empty() =~= escaped_char(c));
            }
        }
        if c == '"' {
            push_char(out, '"');
            push_char(out, '"');
        } else {
            push_char(out, c);
        }
        i = i + 1;
    }
    push_char(out, '"');
    assert(cs@.take(cs.len() as int) =~= cs@);
}

/// The CSV field holding `s`: `s` in double quotes with every inner double
/// quote doubled.
pub fn csv_field(s: &str) -> (r: String)
    ensures
        r@ == csv_field_text(s@),
{
    let mut r = String::new();
    push_csv_field(&mut r, s);
    r
}

} // verus!

verus! {

/// First line of the CSV export.
pub const CSV_HEADER: &'static str = "name,slug,overall_score,grade,environmental_score,labor_score,transparency_score,animal_welfare_score,price_range,country,category,certifications,summary,website\n";

/// Name, slug, overall score and grade fields of a brand's CSV line, each followed by a comma.
pub open spec fn csv_row_head(b: BrandRating) -> Seq<char> {
    csv_field_text(b.name@) + seq![','] + csv_field_text(b.slug@) + seq![','] + decimal(
        b.overall_score as nat,
    ) + seq![','] + csv_field_text(b.grade@) + seq![',']
}

/// The four dimension scores of a brand's CSV line, each followed by a comma.
pub open spec fn csv_row_scores(b: BrandRating) -> Seq<char> {
    decimal(b.environmental_score as nat) + seq![','] + decimal(b.labor_score as nat) + seq![',']
        + decimal(b.transparency_score as nat) + seq![','] + decimal(b.animal_welfare_score as nat)
        + seq![',']
}

/// Price range, country, category, certifications (joined with `"; "`),
/// summary and website fields ending a brand's CSV line.
pub open spec fn csv_row_tail(b: BrandRating) -> Seq<char> {
    csv_field_text(b.price_range@) + seq![','] + csv_field_text(b.country@) + seq![','] + csv_field_text(
        b.category@,
    ) + seq![','] + csv_field_text(join(views_of(b.certifications@), "; "@)) + seq![',']
        + csv_field_text(b.summary@) + seq![','] + csv_field_text(b.website@) + seq!['\n']
}

/// The CSV line for one brand.
pub open spec fn csv_row_text(b: BrandRating) -> Seq<char> {
    csv_row_head(b) + csv_row_scores(b) + csv_row_tail(b)
}

/// The CSV lines of a list of brands, in order.
pub open spec fn csv_rows(bs: Seq<BrandRating>) -> Seq<char>
    decreases bs.len(),
{
    if bs.len() == 0 {
        seq![]
    } else {
        csv_rows(bs.drop_last()) + csv_row_text(bs.last())
    }
}

fn push_csv_row_head(out: &mut String, b: &BrandRating)
    ensures
        final(out)@ == old(out)@ + csv_row_head(*b),
{
    push_csv_field(out, b.name.as_str());
    push_char(out, ',');
    push_csv_field(out, b.slug.as_str());
    push_char(out, ',');
    push_decimal(out, b.overall_score as u64);
    push_char(out, ',');
    push_csv_field(out, b.grade.as_str());
    push_char(out, ',');
}

fn push_csv_row_scores(out: &mut String, b: &BrandRating)
    ensures
        final(out)@ == old(out)@ + csv_row_scores(*b),
{
    push_decimal(out, b.environmental_score as u64);
    push_char(out, ',');
    push_decimal(out, b.labor_score as u64);
    push_char(out, ',');
    push_decimal(out, b.transparency_score as u64);
    push_char(out, ',');
    push_decimal(out, b.animal_welfare_score as u64);
    push_char(out, ',');
}

fn push_csv_row_tail(out: &mut String, b: &BrandRating)
    ensures
        final(out)@ == old(out)@ + csv_row_tail(*b),
{
    let mut certs = String::new();
    push_joined(&mut certs, b.certifications.as_slice(), "; ");
    push_csv_field(out, b.price_range.as_str());
    push_char(out, ',');
    push_csv_field(out, b.country.as_str());
    push_char(out, ',');
    push_csv_field(out, b.category.as_str());
    push_char(out, ',');
    push_csv_field(out, certs.as_str());
    push_char(out, ',');
    push_csv_field(out, b.summary.as_str());
    push_char(out, ',');
    push_csv_field(out, b.website.as_str());
    push_char(out, '\n');
}

/// Appends the CSV line for `b`.
pub fn push_csv_row(out: &mut String, b: &BrandRating)
    ensures
        final(out)@ == old(out)@ + csv_row_text(*b),
{
    let ghost start = out@;
    push_csv_row_head(out, b);
    push_csv_row_scores(out, b);
    push_csv_row_tail(out, b);
    assert(out@ =~= start + csv_row_text(*b));
}

/// The CSV export: the header line, then one line per brand in order.
pub fn csv_document(brands: &Vec<BrandRating>) -> (r: String)
    ensures
        r@ == CSV_HEADER@ + csv_rows(brands@),
{
    let mut out = String::new();
    out.append(CSV_HEADER);
    let mut i: usize = 0;
    while i < brands.len()
        invariant
            i <= brands.len(),
            out@ == CSV_HEADER@ + csv_rows(brands@.take(i as int)),
        decreases brands.len() - i,
    {
        push_csv_row(&mut out, &brands[i]);
        assert(brands@.take(i + 1).drop_last() =~= brands@.take(i as int));
        i = i + 1;
    }
    assert(brands@.take(brands.len() as int) =~= brands@);
    out
}

} // verus!

verus! {

/// Where a scan of `s` ends, starting inside double quotes or not: `None`
/// when it meets a comma outside quotes, else whether it ends inside quotes.
pub open spec fn scan_field(s: Seq<char>, quoted: bool) -> Option<bool>
    decreases s.len(),
{
    if s.len() == 0 {
        Some(quoted)
    } else if s[0] == ',' && !quoted {
        None
    } else {
        scan_field(s.drop_first(), if s[0] == '"' { !quoted } else { quoted })
    }
}

/// Splits the rest `s` of a CSV line at the commas outside double quotes,
/// `cur` being the part of the current field read so far.
pub open spec fn csv_split(s: Seq<char>, quoted: bool, cur: Seq<char>) -> Seq<Seq<char>>
    decreases s.len(),
{
    if s.len() == 0 {
        seq![cur]
    } else if s[0] == ',' && !quoted {
        seq![cur] + csv_split(s.drop_first(), false, seq![])
    } else {
        csv_split(s.drop_first(), if s[0] == '"' { !quoted } else { quoted }, cur.push(s[0]))
    }
}

/// The fields of a CSV line (without its line break), as a CSV reader
/// splits it: at the commas that stand outside double quotes.
pub open spec fn csv_line_fields(line: Seq<char>) -> Seq<Seq<char>> {
    csv_split(line, false, seq![])
}

proof fn lemma_split_over_field(f: Seq<char>, rest: Seq<char>, q: bool, cur: Seq<char>)
    requires
        scan_field(f, q) is Some,
    ensures
        csv_split(f + rest, q, cur) == csv_split(rest, scan_field(f, q)->0, cur + f),
    decreases f.len(),
{
    if f.len() == 0 {
        assert(f + rest =~= rest);
        assert(cur + f =~= cur);
    } else {
        let nq = if f[0] == '"' { !q } else { q };
        assert((f + rest)[0] == f[0]);
        assert((f + rest).drop_first() =~= f.drop_first() + rest);
        lemma_split_over_field(f.drop_first(), rest, nq, cur.push(f[0]));
        assert(cur.push(f[0]) + f.drop_first() =~= cur + f);
    }
}

proof fn lemma_scan_concat(a: Seq<char>, b: Seq<char>, q: bool)
    ensures
        scan_field(a + b, q) == (match scan_field(a, q) {
            Some(e) => scan_field(b, e),
            None => None,
        }),
    decreases a.len(),
{
    if a.len() == 0 {
        assert(a + b =~= b);
    } else {
        assert((a + b)[0] == a[0]);
        assert((a + b).drop_first() =~= a.drop_first() + b);
        lemma_scan_concat(a.drop_first(), b, if a[0] == '"' { !q } else { q });
    }
}

proof fn lemma_scan_one(c: char, q: bool)
    ensures
        scan_field(seq![c], q) == (if c == ',' && !q {
            None
        } else {
            Some(if c == '"' { !q } else { q })
        }),
{
    reveal_with_fuel(scan_field, 2);
    assert(seq![c].drop_first() =~= Seq::<char>::empty());
}

proof fn lemma_scan_doubled(s: Seq<char>)
    ensures
        scan_field(double_quotes(s), true) == Some(true),
    decreases s.len(),
{
    if s.len() > 0 {
        lemma_scan_doubled(s.drop_first());
        lemma_scan_concat(escaped_char(s[0]), double_quotes(s.drop_first()), true);
        if s[0] == '"' {
            lemma_scan_one('"', true);
            lemma_scan_one('"', false);
            lemma_scan_concat(seq!['"'], seq!['"'], true);
            assert(seq!['"'] + seq!['"'] =~= seq!['"', '"']);
        } else {
            lemma_scan_one(s[0], true);
        }
    }
}

proof fn lemma_scan_quoted_field(s: Seq<char>)
    ensures
        scan_field(csv_field_text(s), false) == Some(false),
{
    lemma_scan_doubled(s);
    lemma_scan_one('"', false);
    lemma_scan_one('"', true);
    lemma_scan_concat(seq!['"'], double_quotes(s), false);
    lemma_scan_concat(seq!['"'] + double_quotes(s), seq!['"'], false);
}

proof fn lemma_scan_decimal(n: nat)
    ensures
        scan_field(decimal(n), false) == Some(false),
    decreases n,
{
    let d = digit_char(n % 10);
    assert(d != ',' && d != '"') by {
        assert(48 <= 48 + n % 10 <= 57);
    }
    lemma_scan_one(d, false);
    if n >= 10 {
        lemma_scan_decimal(n / 10);
        lemma_scan_concat(decimal(n / 10), seq![d], false);
        assert(decimal(n / 10).push(d) =~= decimal(n / 10) + seq![d]);
    }
}

/// Fields joined by single commas.
pub open spec fn comma_join(fields: Seq<Seq<char>>) -> Seq<char>
    decreases fields.len(),
{
    if fields.len() <= 1 {
        if fields.len() == 1 { fields[0] } else { seq![] }
    } else {
        fields[0] + seq![','] + comma_join(fields.drop_first())
    }
}

proof fn lemma_split_comma_join(fields: Seq<Seq<char>>)
    requires
        fields.len() >= 1,
        forall|k: int| 0 <= k < fields.len() ==> scan_field(#[trigger] fields[k], false) == Some(false),
    ensures
        csv_line_fields(comma_join(fields)) == fields,
    decreases fields.len(),
{
    let f = fields[0];
    assert(scan_field(fields[0], false) == Some(false));
    if fields.len() == 1 {
        lemma_split_over_field(f, seq![], false, seq![]);
        assert(f + Seq::<char>::empty() =~= f);
        assert(Seq::<char>::empty() + f =~= f);
        assert(csv_split(seq![], false, f) == seq![f]);
        assert(seq![f] =~= fields);
    } else {
        let rest = fields.drop_first();
        assert forall|k: int| 0 <= k < rest.len() implies scan_field(#[trigger] rest[k], false) == Some(false) by {
            assert(rest[k] == fields[k + 1]);
        }
        lemma_split_comma_join(rest);
        let tail = seq![','] + comma_join(rest);
        assert(comma_join(fields) =~= f + tail);
        lemma_split_over_field(f, tail, false, seq![]);
        assert(Seq::<char>::empty() + f =~= f);
        assert(tail[0] == ',');
        assert(tail.drop_first() =~= comma_join(rest));
        assert(csv_split(tail, false, f) == seq![f] + csv_split(comma_join(rest), false, seq![]));
        assert(seq![f] + rest =~= fields);
    }
}

/// The fields of a brand's CSV line, as written.
pub open spec fn csv_row_fields(b: BrandRating) -> Seq<Seq<char>> {
    seq![
        csv_field_text(b.name@),
        csv_field_text(b.slug@),
        decimal(b.overall_score as nat),
        csv_field_text(b.grade@),
        decimal(b.environmental_score as nat),
        decimal(b.labor_score as nat),
        decimal(b.transparency_score as nat),
        decimal(b.animal_welfare_score as nat),
        csv_field_text(b.price_range@),
        csv_field_text(b.country@),
        csv_field_text(b.category@),
        csv_field_text(join(views_of(b.certifications@), "; "@)),
        csv_field_text(b.summary@),
        csv_field_text(b.website@),
    ]
}

proof fn lemma_comma_join_concat(a: Seq<Seq<char>>, b: Seq<Seq<char>>)
    requires
        a.len() >= 1,
        b.len() >= 1,
    ensures
        comma_join(a + b) == comma_join(a) + seq![','] + comma_join(b),
    decreases a.len(),
{
    if a.len() == 1 {
        assert((a + b).drop_first() =~= b);
        assert((a + b)[0] == a[0]);
    } else {
        assert((a + b).drop_first() =~= a.drop_first() + b);
        assert((a + b)[0] == a[0]);
        lemma_comma_join_concat(a.drop_first(), b);
        assert(comma_join(a + b) =~= a[0] + seq![','] + (comma_join(a.drop_first()) + seq![','] + comma_join(b)));
    }
}

proof fn lemma_comma_join_four(f0: Seq<char>, f1: Seq<char>, f2: Seq<char>, f3: Seq<char>)
    ensures
        comma_join(seq![f0, f1, f2, f3]) == f0 + seq![','] + f1 + seq![','] + f2 + seq![','] + f3,
{
    let s = seq![f0, f1, f2, f3];
    assert(s.drop_first() =~= seq![f1, f2, f3]);
    assert(seq![f1, f2, f3].drop_first() =~= seq![f2, f3]);
    assert(seq![f2, f3].drop_first() =~= seq![f3]);
    assert(comma_join(seq![f3]) == f3);
    assert(comma_join(seq![f2, f3]) == f2 + seq![','] + f3);
    assert(comma_join(seq![f1, f2, f3]) == f1 + seq![','] + (f2 + seq![','] + f3));
    assert(comma_join(s) == f0 + seq![','] + (f1 + seq![','] + (f2 + seq![','] + f3)));
    assert(comma_join(s) =~= f0 + seq![','] + f1 + seq![','] + f2 + seq![','] + f3);
}

proof fn lemma_comma_join_six(f0: Seq<char>, f1: Seq<char>, f2: Seq<char>, f3: Seq<char>, f4: Seq<char>, f5: Seq<char>)
    ensures
        comma_join(seq![f0, f1, f2, f3, f4, f5]) == f0 + seq![','] + f1 + seq![','] + f2 + seq![','] + f3
            + seq![','] + f4 + seq![','] + f5,
{
    lemma_comma_join_four(f2, f3, f4, f5);
    let s = seq![f0, f1, f2, f3, f4, f5];
    assert(s.drop_first() =~= seq![f1, f2, f3, f4, f5]);
    assert(seq![f1, f2, f3, f4, f5].drop_first() =~= seq![f2, f3, f4, f5]);
    let r = f2 + seq![','] + f3 + seq![','] + f4 + seq![','] + f5;
    assert(comma_join(seq![f1, f2, f3, f4, f5]) == f1 + seq![','] + r);
    assert(comma_join(s) == f0 + seq![','] + (f1 + seq![','] + r));
    assert(comma_join(s) =~= f0 + seq![','] + f1 + seq![','] + f2 + seq![','] + f3 + seq![','] + f4
        + seq![','] + f5);
}

proof fn lemma_row_is_comma_join(b: BrandRating)
    ensures
        csv_row_text(b) == comma_join(csv_row_fields(b)) + seq!['\n'],
{
    let f = csv_row_fields(b);
    let h = f.subrange(0, 4);
    let m = f.subrange(4, 8);
    let t = f.subrange(8, 14);
    assert(h =~= seq![f[0], f[1], f[2], f[3]]);
    assert(m =~= seq![f[4], f[5], f[6], f[7]]);
    assert(t =~= seq![f[8], f[9], f[10], f[11], f[12], f[13]]);
    lemma_comma_join_four(f[0], f[1], f[2], f[3]);
    lemma_comma_join_four(f[4], f[5], f[6], f[7]);
    lemma_comma_join_six(f[8], f[9], f[10], f[11], f[12], f[13]);
    assert(csv_row_head(b) =~= comma_join(h) + seq![',']);
    assert(csv_row_scores(b) =~= comma_join(m) + seq![',']);
    assert(csv_row_tail(b) =~= comma_join(t) + seq!['\n']);
    lemma_comma_join_concat(h, m);
    lemma_comma_join_concat(h + m, t);
    assert(h + m + t =~= f);
    assert(csv_row_text(b) =~= comma_join(h) + seq![','] + comma_join(m) + seq![','] + comma_join(t) + seq!['\n']);
}

proof fn lemma_scan_plain(s: Seq<char>)
    requires
        forall|i: int| 0 <= i < s.len() ==> #[trigger] s[i] != ',' && s[i] != '"',
    ensures
        scan_field(s, false) == Some(false),
    decreases s.len(),
{
    if s.len() > 0 {
        assert(s[0] != ',' && s[0] != '"');
        assert forall|i: int| 0 <= i < s.drop_first().len() implies #[trigger] s.drop_first()[i] != ',' && s.drop_first()[i] != '"' by {
            assert(s.drop_first()[i] == s[i + 1]);
        }
        lemma_scan_plain(s.drop_first());
    }
}

/// The column names of the CSV export, in order.
pub open spec fn csv_columns() -> Seq<Seq<char>> {
    seq!["name"@, "slug"@, "overall_score"@, "grade"@, "environmental_score"@, "labor_score"@, "transparency_score"@, "animal_welfare_score"@, "price_range"@, "country"@, "category"@, "certifications"@, "summary"@, "website"@]
}

/// The header line names the 14 columns, in order, split as a CSV reader
/// splits any line of the export.
pub proof fn law_csv_header_columns()
    ensures
        CSV_HEADER@.len() > 0,
        CSV_HEADER@.last() == '\n',
        csv_line_fields(CSV_HEADER@.drop_last()) == csv_columns(),
        csv_columns().len() == 14,
{
    reveal_strlit("name,slug,overall_score,grade,environmental_score,labor_score,transparency_score,animal_welfare_score,price_range,country,category,certifications,summary,website\n");
    reveal_strlit("name");
    reveal_strlit("slug");
    reveal_strlit("overall_score");
    reveal_strlit("grade");
    reveal_strlit("environmental_score");
    reveal_strlit("labor_score");
    reveal_strlit("transparency_score");
    reveal_strlit("animal_welfare_score");
    reveal_strlit("price_range");
    reveal_strlit("country");
    reveal_strlit("category");
    reveal_strlit("certifications");
    reveal_strlit("summary");
    reveal_strlit("website");
    lemma_scan_plain("name"@);
    lemma_scan_plain("slug"@);
    lemma_scan_plain("overall_score"@);
    lemma_scan_plain("grade"@);
    lemma_scan_plain("environmental_score"@);
    lemma_scan_plain("labor_score"@);
    lemma_scan_plain("transparency_score"@);
    lemma_scan_plain("animal_welfare_score"@);
    lemma_scan_plain("price_range"@);
    lemma_scan_plain("country"@);
    lemma_scan_plain("category"@);
    lemma_scan_plain("certifications"@);
    lemma_scan_plain("summary"@);
    lemma_scan_plain("website"@);
    let c = csv_columns();
    let h = c.subrange(0, 4);
    let m = c.subrange(4, 8);
    let t = c.subrange(8, 14);
    assert(h =~= seq![c[0], c[1], c[2], c[3]]);
    assert(m =~= seq![c[4], c[5], c[6], c[7]]);
    assert(t =~= seq![c[8], c[9], c[10], c[11], c[12], c[13]]);
    lemma_comma_join_four(c[0], c[1], c[2], c[3]);
    lemma_comma_join_four(c[4], c[5], c[6], c[7]);
    lemma_comma_join_six(c[8], c[9], c[10], c[11], c[12], c[13]);
    lemma_comma_join_concat(h, m);
    lemma_comma_join_concat(h + m, t);
    assert(h + m + t =~= c);
    assert(CSV_HEADER@.drop_last() =~= comma_join(c));
    assert forall|k: int| 0 <= k < c.len() implies scan_field(#[trigger] c[k], false) == Some(false) by {
    }
    lemma_split_comma_join(c);
}

/// Every CSV line of the export has the header's 14 fields, whatever the
/// brand's texts hold (commas, quotes, nothing): split at the commas outside
/// quotes, the line without its break has 14 fields, each text field reads
/// back to the brand's text and each score field is the score in decimal.
pub proof fn law_csv_row_fields(b: BrandRating)
    ensures
        csv_row_text(b).len() > 0,
        csv_row_text(b).last() == '\n',
        csv_line_fields(csv_row_text(b).drop_last()).len() == 14,
        read_csv_field(csv_line_fields(csv_row_text(b).drop_last())[0]) == Some(b.name@),
        read_csv_field(csv_line_fields(csv_row_text(b).drop_last())[1]) == Some(b.slug@),
        csv_line_fields(csv_row_text(b).drop_last())[2] == decimal(b.overall_score as nat),
        read_csv_field(csv_line_fields(csv_row_text(b).drop_last())[3]) == Some(b.grade@),
        csv_line_fields(csv_row_text(b).drop_last())[4] == decimal(b.environmental_score as nat),
        csv_line_fields(csv_row_text(b).drop_last())[5] == decimal(b.labor_score as nat),
        csv_line_fields(csv_row_text(b).drop_last())[6] == decimal(b.transparency_score as nat),
        csv_line_fields(csv_row_text(b).drop_last())[7] == decimal(b.animal_welfare_score as nat),
        read_csv_field(csv_line_fields(csv_row_text(b).drop_last())[8]) == Some(b.price_range@),
        read_csv_field(csv_line_fields(csv_row_text(b).drop_last())[9]) == Some(b.country@),
        read_csv_field(csv_line_fields(csv_row_text(b).drop_last())[10]) == Some(b.category@),
        read_csv_field(csv_line_fields(csv_row_text(b).drop_last())[11]) == Some(
            join(views_of(b.certifications@), "; "@),
        ),
        read_csv_field(csv_line_fields(csv_row_text(b).drop_last())[12]) == Some(b.summary@),
        read_csv_field(csv_line_fields(csv_row_text(b).drop_last())[13]) == Some(b.website@),
{
    let f = csv_row_fields(b);
    lemma_row_is_comma_join(b);
    assert((comma_join(f) + seq!['\n']).drop_last() =~= comma_join(f));
    lemma_scan_quoted_field(b.name@);
    lemma_scan_quoted_field(b.slug@);
    lemma_scan_decimal(b.overall_score as nat);
    lemma_scan_quoted_field(b.grade@);
    lemma_scan_decimal(b.environmental_score as nat);
    lemma_scan_decimal(b.labor_score as nat);
    lemma_scan_decimal(b.transparency_score as nat);
    lemma_scan_decimal(b.animal_welfare_score as nat);
    lemma_scan_quoted_field(b.price_range@);
    lemma_scan_quoted_field(b.country@);
    lemma_scan_quoted_field(b.category@);
    lemma_scan_quoted_field(join(views_of(b.certifications@), "; "@));
    lemma_scan_quoted_field(b.summary@);
    lemma_scan_quoted_field(b.website@);
    assert forall|k: int| 0 <= k < f.len() implies scan_field(#[trigger] f[k], false) == Some(false) by {
    }
    lemma_split_comma_join(f);
    law_csv_field_round_trip(b.name@);
    law_csv_field_round_trip(b.slug@);
    law_csv_field_round_trip(b.grade@);
    law_csv_field_round_trip(b.price_range@);
    law_csv_field_round_trip(b.country@);
    law_csv_field_round_trip(b.category@);
    law_csv_field_round_trip(join(views_of(b.certifications@), "; "@));
    law_csv_field_round_trip(b.summary@);
    law_csv_field_round_trip(b.website@);
}

} // verus!

verus! {

pub const EXPORT_LICENSE: &'static str = "CC BY 4.0";

pub const EXPORT_LICENSE_URL: &'static str = "https://creativecommons.org/licenses/by/4.0/";

pub const EXPORT_ATTRIBUTION: &'static str = "Rewoven (rewovenapp.com)";

pub const EXPORT_SOURCE: &'static str = "https://api.rewovenapp.com";

pub const EXPORT_DISCLAIMER: &'static str = "Ratings are Rewoven's editorial assessments (expressions of opinion, not statements of fact). Methodology: https://rewovenapp.com/methodology/";

/// How many brands an export reads at most.
pub const EXPORT_MAX_BRANDS: usize = 10000;

/// The full dataset with its license and attribution.
pub struct ExportResponse {
    pub license: &'static str,
    pub license_url: &'static str,
    pub attribution: &'static str,
    pub source: &'static str,
    pub disclaimer: &'static str,
    pub count: usize,
    pub brands: Vec<BrandRating>,
}

/// The JSON export of `brands`, of which there are `count` in all.
pub fn export_response(brands: Vec<BrandRating>, count: usize) -> (r: ExportResponse)
    ensures
        r.license@ == EXPORT_LICENSE@,
        r.license_url@ == EXPORT_LICENSE_URL@,
        r.attribution@ == EXPORT_ATTRIBUTION@,
        r.source@ == EXPORT_SOURCE@,
        r.disclaimer@ == EXPORT_DISCLAIMER@,
        r.count == count,
        r.brands@ == brands@,
{
    ExportResponse {
        license: EXPORT_LICENSE,
        license_url: EXPORT_LICENSE_URL,
        attribution: EXPORT_ATTRIBUTION,
        source: EXPORT_SOURCE,
        disclaimer: EXPORT_DISCLAIMER,
        count,
        brands,
    }
}

} // verus!
