use rewoven_api::paging::SearchParams;
use rewoven_api::search::{fuzzy_match, fuzzy_rank, fuzzy_search, levenshtein, needs_fuzzy_fallback, search_text};

fn strings(v: &[&str]) -> Vec<String> {
    v.iter().map(|s| s.to_string()).collect()
}

#[test]
fn levenshtein_known_values() {
    assert_eq!(levenshtein("kitten", "sitting"), 3);
    assert_eq!(levenshtein("flaw", "lawn"), 2);
    assert_eq!(levenshtein("zara", "zara"), 0);
    assert_eq!(levenshtein("zara", "zarx"), 1);
    assert_eq!(levenshtein("abc", "cab"), 2);
}

#[test]
fn levenshtein_empty_sides() {
    assert_eq!(levenshtein("", "abc"), 3);
    assert_eq!(levenshtein("abc", ""), 3);
    assert_eq!(levenshtein("", ""), 0);
}

#[test]
fn levenshtein_ascii_is_symmetric() {
    for (a, b) in [("patagonia", "patagucci"), ("h&m", "hm"), ("nike", "")] {
        assert_eq!(levenshtein(a, b), levenshtein(b, a));
    }
}

#[test]
fn levenshtein_counts_characters() {
    assert_eq!(levenshtein("", "\u{f1}"), 1);
    assert_eq!(levenshtein("\u{f1}", ""), 1);
    assert_eq!(levenshtein("a", "\u{e9}"), 1);
    assert_eq!(levenshtein("ab", "\u{f1}"), 2);
    assert_eq!(levenshtein("pi\u{f1}a", "pina"), 1);
    assert_eq!(levenshtein("\u{f1}\u{f1}", "\u{f1}\u{f1}"), 0);
    assert_eq!(levenshtein("caf\u{e9}", "cafe"), 1);
}

#[test]
fn levenshtein_triangle_examples() {
    let words = ["zara", "zaro", "hm", "h&m", "", "patagonia", "pi\u{f1}atex"];
    for a in words {
        for b in words {
            for c in words {
                assert!(levenshtein(a, c) <= levenshtein(a, b) + levenshtein(b, c));
            }
        }
    }
}

#[test]
fn fuzzy_match_measures_needle_in_bytes() {
    // Two characters, four bytes: long enough, one edit allowed.
    assert!(fuzzy_match("x\u{f1}", "\u{f1}\u{f1}"));
    // Four characters, five bytes: two edits allowed.
    assert!(fuzzy_match("ax\u{e9}", "abc\u{e9}"));
    // One character, two bytes: too short.
    assert!(!fuzzy_match("\u{f1}", "\u{f1}"));
    // Six bytes: two edits allowed, distance one.
    assert!(fuzzy_match("\u{f1}\u{f1}x", "\u{f1}\u{f1}\u{f1}"));
    // Four bytes: one edit allowed, distance three.
    assert!(!fuzzy_match("xyz", "\u{f1}\u{f1}"));
}

#[test]
fn fuzzy_match_thresholds() {
    assert!(!fuzzy_match("ab", "ab"));
    assert!(fuzzy_match("zara", "zarx"));
    assert!(!fuzzy_match("zara", "zxrx"));
    assert!(fuzzy_match("patagonia", "patagoina"));
    assert!(!fuzzy_match("patagonia", "pxtxgxnia"));
    assert!(fuzzy_match("adidas", "adidsa"));
}

#[test]
fn fuzzy_rank_orders_by_distance_then_position() {
    let names = strings(&["zarb", "zara", "lara", "zzzz", "zaraa"]);
    // distances to "zara": 1, 0, 1, 3, 1
    assert_eq!(fuzzy_rank(&names, "zara"), vec![1, 0, 2, 4]);
}

#[test]
fn fuzzy_rank_no_match() {
    let names = strings(&["patagonia", "nike"]);
    assert!(fuzzy_rank(&names, "zara").is_empty());
    assert!(fuzzy_rank(&names, "ni").is_empty());
}

#[test]
fn fuzzy_search_compares_in_lowercase() {
    let names = strings(&["ZARA", "Patagonia"]);
    assert_eq!(fuzzy_search(&names, "ZARX"), vec![0]);
    assert_eq!(fuzzy_search(&names, "patagoniA"), vec![1]);
}

#[test]
fn search_text_needs_a_query() {
    assert_eq!(search_text(&SearchParams { q: None }), None);
    assert_eq!(search_text(&SearchParams { q: Some(String::new()) }), None);
    let p = SearchParams { q: Some("zara".to_string()) };
    assert_eq!(search_text(&p).map(|s| s.as_str()), Some("zara"));
}

#[test]
fn fuzzy_fallback_only_without_hits() {
    assert!(needs_fuzzy_fallback(0));
    assert!(!needs_fuzzy_fallback(3));
}
