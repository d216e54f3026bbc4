use vstd::prelude::*;
use crate::text::{decimal, join, lowercase, push_decimal, same_text, to_lowercase};

verus! {

/// Columns of a brand row, in the order in which rows are read.
pub const BRAND_COLUMNS: &'static str = "slug, name, overall_score, environmental_score, labor_score, transparency_score, animal_welfare_score, price_range, country, category, certifications, summary, website";

/// `ORDER BY` clause for a listing's sort option (none for an unknown option).
pub open spec fn order_clause(sort: Option<Seq<char>>) -> Seq<char> {
    match sort {
        Some(s) => if s == "score_desc"@ {
            "ORDER BY overall_score DESC"@
        } else if s == "score_asc"@ {
            "ORDER BY overall_score ASC"@
        } else if s == "name_asc"@ {
            "ORDER BY name COLLATE NOCASE ASC"@
        } else if s == "name_desc"@ {
            "ORDER BY name COLLATE NOCASE DESC"@
        } else {
            ""@
        },
        None => ""@,
    }
}

/// The `ORDER BY` clause for a sort option.
pub fn order_sql(sort: Option<&str>) -> (r: &'static str)
    ensures
        r@ == order_clause(match sort {
            Some(s) => Some(s@),
            None => None,
        }),
{
    match sort {
        Some(s) => if same_text(s, "score_desc") {
            "ORDER BY overall_score DESC"
        } else if same_text(s, "score_asc") {
            "ORDER BY overall_score ASC"
        } else if same_text(s, "name_asc") {
            "ORDER BY name COLLATE NOCASE ASC"
        } else if same_text(s, "name_desc") {
            "ORDER BY name COLLATE NOCASE DESC"
        } else {
            ""
        },
        None => "",
    }
}

/// The conditions of a listing, in the order of their parameters: category
/// (compared without case), lowest and highest overall score, name pattern.
pub open spec fn filter_conditions(category: bool, min_score: bool, max_score: bool, search: bool) -> Seq<Seq<char>> {
    (if category { seq!["LOWER(category) = LOWER(?)"@] } else { seq![] }) + (if min_score {
        seq!["overall_score >= ?"@]
    } else {
        seq![]
    }) + (if max_score { seq!["overall_score <= ?"@] } else { seq![] }) + (if search {
        seq!["LOWER(name) LIKE ?"@]
    } else {
        seq![]
    })
}

/// The `WHERE` clause joining the given conditions with `AND` (empty when there are none).
pub open spec fn where_clause(conds: Seq<Seq<char>>) -> Seq<char> {
    if conds.len() == 0 {
        ""@
    } else {
        "WHERE "@ + join(conds, " AND "@)
    }
}

/// A value bound to a listing's statements.
#[derive(PartialEq, Eq, Structural, Debug, Clone, Copy)]
pub enum FilterParam {
    /// The requested category.
    Category,
    /// The lowest overall score.
    MinScore,
    /// The highest overall score.
    MaxScore,
    /// The name pattern (`search_pattern`).
    SearchPattern,
}

/// The values bound to a listing's conditions, in the order of the conditions.
pub open spec fn filter_params(category: bool, min_score: bool, max_score: bool, search: bool) -> Seq<FilterParam> {
    (if category { seq![FilterParam::Category] } else { seq![] }) + (if min_score {
        seq![FilterParam::MinScore]
    } else {
        seq![]
    }) + (if max_score { seq![FilterParam::MaxScore] } else { seq![] }) + (if search {
        seq![FilterParam::SearchPattern]
    } else {
        seq![]
    })
}

/// The statements and pattern of a filtered, sorted listing.
pub struct ListQuery {
    /// Counts the rows that pass the filter.
    pub count_sql: String,
    /// Reads one page of them (its last two parameters are limit and offset).
    pub query_sql: String,
    /// Pattern for the name condition: the search text in lowercase, inside `%`.
    pub search_pattern: Option<String>,
    /// What to bind, in order, before the page's limit and offset.
    pub params: Vec<FilterParam>,
}

pub open spec fn count_statement(where_sql: Seq<char>) -> Seq<char> {
    "SELECT COUNT(*) FROM brands "@ + where_sql
}

pub open spec fn page_statement(where_sql: Seq<char>, order: Seq<char>) -> Seq<char> {
    "SELECT "@ + BRAND_COLUMNS@ + " FROM brands "@ + where_sql + " "@ + order + " LIMIT ? OFFSET ?"@
}

/// `%text%`, the pattern of names containing `text`.
pub open spec fn contains_pattern(text: Seq<char>) -> Seq<char> {
    "%"@ + text + "%"@
}

/// The statements of a listing with the given filters and sort option.
pub fn list_query(
    category: bool,
    min_score: bool,
    max_score: bool,
    search: Option<&str>,
    sort: Option<&str>,
) -> (r: ListQuery)
    ensures
        ({
            let w = where_clause(filter_conditions(category, min_score, max_score, search is Some));
            let o = order_clause(match sort {
                Some(s) => Some(s@),
                None => None,
            });
            &&& r.params@ == filter_params(category, min_score, max_score, search is Some)
            &&& r.count_sql@ == count_statement(w)
            &&& r.query_sql@ == page_statement(w, o)
            &&& match search {
                Some(s) => r.search_pattern matches Some(p) && p@ == contains_pattern(lowercase(s@)),
                None => r.search_pattern is None,
            }
        }),
{
    let ghost conds = filter_conditions(category, min_score, max_score, search is Some);
    let mut clauses: Vec<&'static str> = Vec::new();
    let mut params: Vec<FilterParam> = Vec::new();
    if category {
        clauses.push("LOWER(category) = LOWER(?)");
        params.push(FilterParam::Category);
    }
    if min_score {
        clauses.push("overall_score >= ?");
        params.push(FilterParam::MinScore);
    }
    if max_score {
        clauses.push("overall_score <= ?");
        params.push(FilterParam::MaxScore);
    }
    let search_pattern = match search {
        Some(s) => {
            clauses.push("LOWER(name) LIKE ?");
            params.push(FilterParam::SearchPattern);
            let mut p = String::from_str("%");
            let l = to_lowercase(s);
            p.append(l.as_str());
            p.append("%");
            Some(p)
        },
        None => None,
    };
    assert(clauses@.map_values(|c: &'static str| c@) =~= conds);
    assert(params@ =~= filter_params(category, min_score, max_score, search is Some));
    let mut where_sql = String::new();
    if clauses.len() > 0 {
        where_sql.append("WHERE ");
        let mut i: usize = 0;
        while i < clauses.len()
            invariant
                i <= clauses.len(),
                clauses.len() > 0,
                clauses@.map_values(|c: &'static str| c@) == conds,
                where_sql@ == "WHERE "@ + join(conds.take(i as int), " AND "@),
            decreases clauses.len() - i,
        {
            if i > 0 {
                where_sql.append(" AND ");
            }
            where_sql.append(clauses[i]);
            assert(conds.take(i + 1).drop_last() =~= conds.take(i as int));
            assert(conds.take(i + 1).last() == clauses[i as int]@);
            assert(conds.take(i + 1).len() == i + 1);
            i = i + 1;
        }
        assert(conds.take(clauses.len() as int) =~= conds);
    } else {
        proof {
            reveal_strlit("");
        }
        assert(where_sql@ =~= ""@);
    }
    assert(where_sql@ == where_clause(conds));
    let order = order_sql(sort);
    let mut count_sql = String::from_str("SELECT COUNT(*) FROM brands ");
    count_sql.append(where_sql.as_str());
    let mut query_sql = String::from_str("SELECT ");
    query_sql.append(BRAND_COLUMNS);
    query_sql.append(" FROM brands ");
    query_sql.append(where_sql.as_str());
    query_sql.append(" ");
    query_sql.append(order);
    query_sql.append(" LIMIT ? OFFSET ?");
    ListQuery { count_sql, query_sql, search_pattern, params }
}

} // verus!

verus! {

/// Numbered parameters `?from`, `?from+1`, ... (`count` of them).
pub open spec fn numbered_params(from: nat, count: nat) -> Seq<Seq<char>> {
    Seq::new(count, |i: int| "?"@ + decimal((from + i) as nat))
}

/// Appends `?from, ?from+1, ...` (`count` parameters).
fn push_numbered_params(s: &mut String, from: usize, count: usize)
    requires
        from + count <= usize::MAX,
    ensures
        final(s)@ == old(s)@ + join(numbered_params(from as nat, count as nat), ", "@),
{
    let ghost start = s@;
    let ghost all = numbered_params(from as nat, count as nat);
    let mut i: usize = 0;
    while i < count
        invariant
            from + count <= usize::MAX,
            i <= count,
            all == numbered_params(from as nat, count as nat),
            s@ == start + join(all.take(i as int), ", "@),
        decreases count - i,
    {
        if i > 0 {
            s.append(", ");
        }
        let ghost before = s@;
        s.append("?");
        push_decimal(s, (from + i) as u64);
        assert(s@ == before + all[i as int]);
        assert(all.take(i + 1).drop_last() =~= all.take(i as int));
        assert(all.take(i + 1).last() == all[i as int]);
        assert(all.take(i + 1).len() == i + 1);
        i = i + 1;
    }
    assert(all.take(count as int) =~= all);
}

/// The statement reading the brands whose slug is one of `count` parameters.
pub open spec fn slugs_statement(count: nat) -> Seq<char> {
    "SELECT "@ + BRAND_COLUMNS@ + " FROM brands WHERE slug IN ("@ + join(numbered_params(1, count), ", "@)
        + ")"@
}

/// The statement reading the brands with any of `count` slugs; none when
/// there are no slugs (nothing is read then).
pub fn slugs_query(count: usize) -> (r: Option<String>)
    requires
        count < usize::MAX,
    ensures
        count == 0 ==> r is None,
        count > 0 ==> (r matches Some(s) && s@ == slugs_statement(count as nat)),
{
    if count == 0 {
        return None;
    }
    let mut s = String::from_str("SELECT ");
    s.append(BRAND_COLUMNS);
    s.append(" FROM brands WHERE slug IN (");
    push_numbered_params(&mut s, 1, count);
    s.append(")");
    Some(s)
}

/// The condition on the price tier in the alternatives ranking: never true
/// without tiers, else membership in the tiers given as parameters 4 onwards.
pub open spec fn price_condition(tier_count: nat) -> Seq<char> {
    if tier_count == 0 {
        "0"@
    } else {
        "price_range IN ("@ + join(numbered_params(4, tier_count), ", "@) + ")"@
    }
}

/// The statement ranking alternatives: same category (parameter 1) counts
/// 100, a similar price tier 50, plus the overall score; the brand itself
/// (parameter 2) and brands under the score floor (parameter 3) are left
/// out; the last parameter is the limit.
pub open spec fn alternatives_statement(tier_count: nat) -> Seq<char> {
    "SELECT "@ + BRAND_COLUMNS@ + ", (CASE WHEN LOWER(category) = LOWER(?1) THEN 100 ELSE 0 END + CASE WHEN "@
        + price_condition(tier_count)
        + " THEN 50 ELSE 0 END + overall_score) AS relevance FROM brands WHERE slug != ?2 AND overall_score >= ?3 ORDER BY relevance DESC LIMIT ?"@
        + decimal(tier_count + 4)
}

/// `needle` occurs somewhere in `hay`.
pub open spec fn contains_text(hay: Seq<char>, needle: Seq<char>) -> bool {
    exists|i: int| 0 <= i && i + needle.len() <= hay.len() && #[trigger] hay.subrange(i, i + needle.len()) == needle
}

proof fn lemma_contains_in_longer(a: Seq<char>, b: Seq<char>, needle: Seq<char>)
    requires
        contains_text(b, needle),
    ensures
        contains_text(a + b, needle),
        contains_text(b + a, needle),
{
    let i = choose|i: int| 0 <= i && i + needle.len() <= b.len() && #[trigger] b.subrange(i, i + needle.len()) == needle;
    assert((a + b).subrange(a.len() + i, a.len() + i + needle.len()) =~= needle);
    assert((b + a).subrange(i, i + needle.len()) =~= needle);
}

proof fn lemma_contains_at(hay: Seq<char>, needle: Seq<char>, i: int)
    requires
        0 <= i,
        i + needle.len() <= hay.len(),
        hay.subrange(i, i + needle.len()) =~= needle,
    ensures
        contains_text(hay, needle),
{
}

/// The alternatives are ranked by a relevance that adds 100 for the same
/// category, 50 for a similar price tier and the overall score itself
/// (so, other things equal, a better-scoring brand ranks higher), highest
/// relevance first; the brand itself and brands under the score floor are
/// left out.
pub proof fn law_alternatives_ranked_by_relevance(tier_count: nat)
    ensures
        contains_text(
            alternatives_statement(tier_count),
            "(CASE WHEN LOWER(category) = LOWER(?1) THEN 100 ELSE 0 END + CASE WHEN "@,
        ),
        contains_text(alternatives_statement(tier_count), " THEN 50 ELSE 0 END + overall_score) AS relevance"@),
        contains_text(alternatives_statement(tier_count), "WHERE slug != ?2 AND overall_score >= ?3"@),
        contains_text(alternatives_statement(tier_count), "ORDER BY relevance DESC LIMIT ?"@),
{
    let l1 = ", (CASE WHEN LOWER(category) = LOWER(?1) THEN 100 ELSE 0 END + CASE WHEN "@;
    let l2 = " THEN 50 ELSE 0 END + overall_score) AS relevance FROM brands WHERE slug != ?2 AND overall_score >= ?3 ORDER BY relevance DESC LIMIT ?"@;
    let n1 = "(CASE WHEN LOWER(category) = LOWER(?1) THEN 100 ELSE 0 END + CASE WHEN "@;
    let n2 = " THEN 50 ELSE 0 END + overall_score) AS relevance"@;
    let n3 = "WHERE slug != ?2 AND overall_score >= ?3"@;
    let n4 = "ORDER BY relevance DESC LIMIT ?"@;
    reveal_strlit(", (CASE WHEN LOWER(category) = LOWER(?1) THEN 100 ELSE 0 END + CASE WHEN ");
    reveal_strlit(" THEN 50 ELSE 0 END + overall_score) AS relevance FROM brands WHERE slug != ?2 AND overall_score >= ?3 ORDER BY relevance DESC LIMIT ?");
    reveal_strlit("(CASE WHEN LOWER(category) = LOWER(?1) THEN 100 ELSE 0 END + CASE WHEN ");
    reveal_strlit(" THEN 50 ELSE 0 END + overall_score) AS relevance");
    reveal_strlit("WHERE slug != ?2 AND overall_score >= ?3");
    reveal_strlit("ORDER BY relevance DESC LIMIT ?");
    lemma_contains_at(l1, n1, 2);
    lemma_contains_at(l2, n2, 0);
    lemma_contains_at(l2, n3, 62);
    lemma_contains_at(l2, n4, 103);
    let w = "SELECT "@ + BRAND_COLUMNS@;
    let pc = price_condition(tier_count);
    let dec = decimal(tier_count + 4);
    lemma_contains_in_longer(w, l1, n1);
    lemma_contains_in_longer(pc, w + l1, n1);
    lemma_contains_in_longer(l2, w + l1 + pc, n1);
    lemma_contains_in_longer(dec, w + l1 + pc + l2, n1);
    let front = w + l1 + pc;
    lemma_contains_in_longer(front, l2, n2);
    lemma_contains_in_longer(dec, front + l2, n2);
    lemma_contains_in_longer(front, l2, n3);
    lemma_contains_in_longer(dec, front + l2, n3);
    lemma_contains_in_longer(front, l2, n4);
    lemma_contains_in_longer(dec, front + l2, n4);
}

/// The statement ranking alternatives for `tier_count` price tiers.
pub fn alternatives_query(tier_count: usize) -> (r: String)
    requires
        tier_count + 4 <= usize::MAX,
    ensures
        r@ == alternatives_statement(tier_count as nat),
{
    let mut s = String::from_str("SELECT ");
    s.append(BRAND_COLUMNS);
    s.append(", (CASE WHEN LOWER(category) = LOWER(?1) THEN 100 ELSE 0 END + CASE WHEN ");
    let ghost before = s@;
    if tier_count == 0 {
        s.append("0");
    } else {
        s.append("price_range IN (");
        push_numbered_params(&mut s, 4, tier_count);
        s.append(")");
    }
    assert(s@ == before + price_condition(tier_count as nat));
    s.append(" THEN 50 ELSE 0 END + overall_score) AS relevance FROM brands WHERE slug != ?2 AND overall_score >= ?3 ORDER BY relevance DESC LIMIT ?");
    push_decimal(&mut s, (tier_count + 4) as u64);
    s
}

/// The name search statement: names containing the query (parameter 1),
/// exact matches (parameter 2) first, then names starting with it
/// (parameter 3), then the rest, each group by descending score.
pub const SEARCH_SQL: &'static str = "SELECT slug, name, overall_score, environmental_score, labor_score, transparency_score, animal_welfare_score, price_range, country, category, certifications, summary, website FROM brands WHERE LOWER(name) LIKE ?1 ORDER BY CASE WHEN LOWER(name) = ?2 THEN 0 WHEN LOWER(name) LIKE ?3 THEN 1 ELSE 2 END, overall_score DESC";

/// Parameters of the name search: contains, equals, starts with the query in lowercase.
pub struct SearchPatterns {
    pub contains: String,
    pub exact: String,
    pub starts_with: String,
}

/// The parameters of the name search for `query`.
pub fn search_patterns(query: &str) -> (r: SearchPatterns)
    ensures
        r.contains@ == contains_pattern(lowercase(query@)),
        r.exact@ == lowercase(query@),
        r.starts_with@ == lowercase(query@) + "%"@,
{
    let q = to_lowercase(query);
    let mut contains = String::from_str("%");
    contains.append(q.as_str());
    contains.append("%");
    let mut starts_with = q.clone();
    starts_with.append("%");
    SearchPatterns { contains, exact: q, starts_with }
}

} // verus!

verus! {

/// Whether the brand table is seeded: only when it holds no brands yet.
pub fn seeding_needed(existing_brands: i64) -> (r: bool)
    ensures
        r == (existing_brands <= 0),
{
    existing_brands <= 0
}

/// Rows skipped to reach the median score in ascending order: the upper
/// median, at position `total / 2`.
pub fn median_offset(total: usize) -> (r: usize)
    ensures
        r == total / 2,
        total > 0 ==> r < total,
{
    total / 2
}

} // verus!
