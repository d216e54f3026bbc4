use rewoven_api::export::{csv_document, csv_field, export_response, CSV_HEADER};
use rewoven_api::json::{certifications_from_json, certifications_to_json};
use rewoven_api::models::BrandRating;

fn brand(name: &str, certs: &[&str]) -> BrandRating {
    BrandRating {
        name: name.to_string(),
        slug: name.to_lowercase(),
        overall_score: 50,
        grade: "C-".to_string(),
        environmental_score: 51,
        labor_score: 52,
        transparency_score: 53,
        animal_welfare_score: 54,
        price_range: "$$".to_string(),
        country: "US".to_string(),
        category: "Mid-Range".to_string(),
        certifications: certs.iter().map(|c| c.to_string()).collect(),
        summary: "says \"hi\"".to_string(),
        website: "w".to_string(),
        updated_at: String::new(),
        sources: vec![],
        rationale: String::new(),
    }
}

#[test]
fn csv_field_escapes_quotes_and_commas() {
    assert_eq!(csv_field("plain"), "\"plain\"");
    assert_eq!(csv_field("a,b"), "\"a,b\"");
    assert_eq!(csv_field("say \"hi\""), "\"say \"\"hi\"\"\"");
}

#[test]
fn csv_field_edge_cases() {
    assert_eq!(csv_field(""), "\"\"");
    assert_eq!(csv_field("\""), "\"\"\"\"");
    assert_eq!(csv_field("line\nbreak"), "\"line\nbreak\"");
}

/// Reads a quoted field back, as a CSV reader would.
fn read_field(f: &str) -> String {
    let inner = &f[1..f.len() - 1];
    inner.replace("\"\"", "\"")
}

#[test]
fn csv_field_round_trips() {
    for s in ["", "plain", "a,b", "say \"hi\"", "\"\"", "Pi\u{f1}atex"] {
        assert_eq!(read_field(&csv_field(s)), s);
    }
}

#[test]
fn csv_document_rows() {
    let doc = csv_document(&vec![brand("Acme", &["B Corp", "GOTS"]), brand("Zed", &[])]);
    let expected = format!(
        "{}{}{}",
        CSV_HEADER,
        "\"Acme\",\"acme\",50,\"C-\",51,52,53,54,\"$$\",\"US\",\"Mid-Range\",\"B Corp; GOTS\",\"says \"\"hi\"\"\",\"w\"\n",
        "\"Zed\",\"zed\",50,\"C-\",51,52,53,54,\"$$\",\"US\",\"Mid-Range\",\"\",\"says \"\"hi\"\"\",\"w\"\n"
    );
    assert_eq!(doc, expected);
}

#[test]
fn csv_document_empty_is_header_only() {
    assert_eq!(csv_document(&vec![]), CSV_HEADER);
    assert!(CSV_HEADER.starts_with("name,slug,overall_score,grade,"));
}

#[test]
fn export_response_carries_license() {
    let r = export_response(vec![brand("Acme", &[])], 1);
    assert_eq!(r.license, "CC BY 4.0");
    assert_eq!(r.license_url, "https://creativecommons.org/licenses/by/4.0/");
    assert_eq!(r.attribution, "Rewoven (rewovenapp.com)");
    assert_eq!(r.source, "https://api.rewovenapp.com");
    assert!(r.disclaimer.contains("expressions of opinion"));
    assert_eq!(r.count, 1);
    assert_eq!(r.brands.len(), 1);
}

#[test]
fn certifications_json_encoding() {
    let v = vec!["B Corp".to_string(), "Fair \"Trade\"".to_string()];
    assert_eq!(certifications_to_json(&v), "[\"B Corp\",\"Fair \\\"Trade\\\"\"]");
    assert_eq!(certifications_to_json(&vec![]), "[]");
    let v = vec!["a\\b\n\t\u{1}\u{1f}/\u{7f}\u{e9}".to_string(), String::new()];
    assert_eq!(certifications_to_json(&v), "[\"a\\\\b\\n\\t\\u0001\\u001f/\u{7f}\u{e9}\",\"\"]");
}

#[test]
fn certifications_json_decoding() {
    assert_eq!(certifications_from_json("[\"a\", \"b\"]"), vec!["a".to_string(), "b".to_string()]);
    assert!(certifications_from_json("[1, 2]").is_empty());
    assert!(certifications_from_json("").is_empty());
    let v = vec!["GOTS".to_string(), "OEKO-TEX".to_string()];
    assert_eq!(certifications_from_json(&certifications_to_json(&v)), v);
}

#[test]
fn certifications_round_trip_with_escapes() {
    let v = vec!["a\\b\n\t\u{1}\"q\"".to_string(), String::new(), "\u{e9}\u{2022}".to_string()];
    assert_eq!(certifications_from_json(&certifications_to_json(&v)), v);
    let empty: Vec<String> = vec![];
    assert_eq!(certifications_from_json(&certifications_to_json(&empty)), empty);
}
