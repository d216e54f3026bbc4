use rewoven_api::sql::{
    FilterParam,
    alternatives_query, list_query, median_offset, order_sql, search_patterns, seeding_needed,
    slugs_query, BRAND_COLUMNS,
};

#[test]
fn list_query_without_filters() {
    let q = list_query(false, false, false, None, None);
    assert_eq!(q.count_sql, "SELECT COUNT(*) FROM brands ");
    assert_eq!(q.query_sql, format!("SELECT {} FROM brands   LIMIT ? OFFSET ?", BRAND_COLUMNS));
    assert!(q.search_pattern.is_none());
}

#[test]
fn list_query_with_all_filters() {
    let q = list_query(true, true, true, Some("ZaRa"), Some("score_desc"));
    let w = "WHERE LOWER(category) = LOWER(?) AND overall_score >= ? AND overall_score <= ? AND LOWER(name) LIKE ?";
    assert_eq!(q.count_sql, format!("SELECT COUNT(*) FROM brands {}", w));
    assert_eq!(
        q.query_sql,
        format!("SELECT {} FROM brands {} ORDER BY overall_score DESC LIMIT ? OFFSET ?", BRAND_COLUMNS, w)
    );
    assert_eq!(q.search_pattern.as_deref(), Some("%zara%"));
    assert_eq!(
        q.params,
        vec![FilterParam::Category, FilterParam::MinScore, FilterParam::MaxScore, FilterParam::SearchPattern]
    );
}

#[test]
fn list_query_some_filters() {
    let q = list_query(false, true, false, None, Some("name_asc"));
    assert_eq!(q.count_sql, "SELECT COUNT(*) FROM brands WHERE overall_score >= ?");
    assert_eq!(q.params, vec![FilterParam::MinScore]);
    assert!(list_query(false, false, false, None, None).params.is_empty());
}

#[test]
fn order_clauses() {
    assert_eq!(order_sql(Some("score_desc")), "ORDER BY overall_score DESC");
    assert_eq!(order_sql(Some("score_asc")), "ORDER BY overall_score ASC");
    assert_eq!(order_sql(Some("name_asc")), "ORDER BY name COLLATE NOCASE ASC");
    assert_eq!(order_sql(Some("name_desc")), "ORDER BY name COLLATE NOCASE DESC");
    assert_eq!(order_sql(Some("random")), "");
    assert_eq!(order_sql(None), "");
}

#[test]
fn slugs_query_placeholders() {
    assert_eq!(
        slugs_query(3),
        Some(format!("SELECT {} FROM brands WHERE slug IN (?1, ?2, ?3)", BRAND_COLUMNS))
    );
    assert!(slugs_query(12).unwrap().ends_with("?10, ?11, ?12)"));
    assert_eq!(slugs_query(0), None);
}

#[test]
fn alternatives_query_text() {
    let q = alternatives_query(2);
    assert!(q.contains("CASE WHEN price_range IN (?4, ?5) THEN 50 ELSE 0 END"));
    assert!(q.ends_with("ORDER BY relevance DESC LIMIT ?6"));
    assert!(q.contains("WHERE slug != ?2 AND overall_score >= ?3"));
    let q = alternatives_query(0);
    assert!(q.contains("CASE WHEN 0 THEN 50"));
    assert!(q.ends_with("LIMIT ?4"));
}

#[test]
fn search_pattern_values() {
    let p = search_patterns("ZaRa");
    assert_eq!(p.contains, "%zara%");
    assert_eq!(p.exact, "zara");
    assert_eq!(p.starts_with, "zara%");
}

#[test]
fn seeding_and_median() {
    assert!(seeding_needed(0));
    assert!(!seeding_needed(505));
    assert_eq!(median_offset(505), 252);
    assert_eq!(median_offset(0), 0);
}
