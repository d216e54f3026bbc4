use rewoven_api::models::{brand_from_columns, brand_with_rationale, build_rationale, compute_grade, health_response};

#[test]
fn grade_boundaries() {
    assert_eq!(compute_grade(100), "A+");
    assert_eq!(compute_grade(90), "A+");
    assert_eq!(compute_grade(89), "A");
    assert_eq!(compute_grade(35), "D-");
    assert_eq!(compute_grade(0), "F-");
}

#[test]
fn rationale_is_grounded_and_disclaimed() {
    let r = build_rationale(
        "Acme",
        35,
        30,
        30,
        36,
        44,
        "Luxury",
        &["B Corp".to_string()],
        "Some summary.",
    );
    assert!(r.contains("Acme"));
    assert!(r.contains("35/100"));
    assert!(r.contains("Luxury"));
    assert!(r.contains("B Corp"));
    assert!(r.contains("opinion"));
    assert!(r.contains("arhan@rewovenapp.com"));
}

#[test]
fn rationale_handles_no_certifications() {
    let r = build_rationale("X", 50, 50, 50, 50, 50, "Mid-Range", &[], "s");
    assert!(r.contains("No third-party"));
}

#[test]
fn grade_every_band() {
    let cases: [(u8, &str); 14] = [
        (99, "A+"),
        (80, "A"),
        (79, "B"),
        (70, "B"),
        (69, "C"),
        (60, "C"),
        (59, "C-"),
        (45, "D"),
        (30, "D-"),
        (29, "E"),
        (20, "E"),
        (19, "F"),
        (10, "F"),
        (9, "F-"),
    ];
    for (score, grade) in cases {
        assert_eq!(compute_grade(score), grade, "score {}", score);
    }
}

#[test]
fn grade_above_hundred_is_lowest() {
    assert_eq!(compute_grade(101), "F-");
    assert_eq!(compute_grade(255), "F-");
}

#[test]
fn rationale_full_text() {
    let r = build_rationale(
        "Acme",
        82,
        70,
        55,
        40,
        10,
        "Outdoor/Active",
        &["B Corp".to_string(), "bluesign".to_string()],
        "Good.",
    );
    let expected = "Rewoven rates Acme 82/100 (grade A) - an industry leader overall for sustainability. \
This composite is the equal-weighted average of four dimensions:\n\n\
\u{2022} Environmental (70/100): strong use of lower-impact materials and documented action to cut emissions, water use, and waste.\n\
\u{2022} Labor practices (55/100): some labor commitments with partial supply-chain oversight.\n\
\u{2022} Transparency (40/100): limited public reporting or traceability.\n\
\u{2022} Animal welfare (10/100): little publicly available animal-welfare policy.\n\n\
Recognised certifications in our records: B Corp, bluesign. Assessed within the Outdoor/Active category. Good.\n\n\
This rating is Rewoven's editorial assessment based on publicly available information and may not reflect a brand's most recent changes. \
It is an expression of opinion, not a statement of fact, and is provided for general information only. \
Brands may request a review at arhan@rewovenapp.com.";
    assert_eq!(r, expected);
}

#[test]
fn rationale_band_and_notes() {
    let r = build_rationale("B", 65, 50, 30, 65, 64, "Luxury", &[], "");
    assert!(r.contains("(grade C) - strong overall"));
    assert!(r.contains("Environmental (50/100): some lower-impact materials"));
    assert!(r.contains("Labor practices (30/100): limited public disclosure"));
    assert!(r.contains("Transparency (65/100): detailed public reporting"));
    assert!(r.contains("Animal welfare (64/100): some animal-welfare policies in place."));
    let poor = build_rationale("P", 0, 0, 0, 0, 0, "Fast Fashion", &[], "");
    assert!(poor.contains("(grade F-) - poor overall"));
    let mid = build_rationale("M", 50, 0, 0, 0, 0, "Fast Fashion", &[], "");
    assert!(mid.contains("- moderate overall"));
    let low = build_rationale("L", 49, 0, 0, 0, 0, "Fast Fashion", &[], "");
    assert!(low.contains("- below average overall"));
}

#[test]
fn brand_from_columns_derives_grade_and_reads_certifications() {
    let b = brand_from_columns(
        "patagonia".to_string(),
        "Patagonia".to_string(),
        85,
        80,
        75,
        70,
        65,
        "$$$".to_string(),
        "US".to_string(),
        "Outdoor/Active".to_string(),
        "[\"B Corp\",\"Fair Trade\"]",
        "summary".to_string(),
        "https://patagonia.com".to_string(),
    );
    assert_eq!(b.grade, "A");
    assert_eq!(b.certifications, vec!["B Corp".to_string(), "Fair Trade".to_string()]);
    assert_eq!(b.slug, "patagonia");
    assert_eq!(b.overall_score, 85);
    assert_eq!(b.updated_at, "");
    assert!(b.sources.is_empty());
    assert_eq!(b.rationale, "");
}

#[test]
fn brand_from_columns_bad_certifications_json_is_empty() {
    let b = brand_from_columns(
        "x".to_string(),
        "X".to_string(),
        5,
        5,
        5,
        5,
        5,
        "$".to_string(),
        "US".to_string(),
        "Fast Fashion".to_string(),
        "not json",
        String::new(),
        String::new(),
    );
    assert_eq!(b.grade, "F-");
    assert!(b.certifications.is_empty());
}

#[test]
fn health_response_reports_ok() {
    let h = health_response("0.1.0", 505);
    assert_eq!(h.status, "ok");
    assert_eq!(h.version, "0.1.0");
    assert_eq!(h.total_brands, 505);
}

#[test]
fn single_brand_carries_its_rationale() {
    let b = brand_from_columns(
        "acme".to_string(),
        "Acme".to_string(),
        35,
        30,
        30,
        36,
        44,
        "$$".to_string(),
        "US".to_string(),
        "Luxury".to_string(),
        "[\"B Corp\"]",
        "Some summary.".to_string(),
        "https://acme.example".to_string(),
    );
    let expected = build_rationale("Acme", 35, 30, 30, 36, 44, "Luxury", &["B Corp".to_string()], "Some summary.");
    let r = brand_with_rationale(b);
    assert_eq!(r.rationale, expected);
    assert_eq!(r.slug, "acme");
    assert_eq!(r.grade, "D-");
    assert_eq!(r.certifications, vec!["B Corp".to_string()]);
}

#[test]
fn rationale_opens_with_score_and_closes_with_review_note() {
    let r = build_rationale("Acme", 82, 90, 70, 60, 40, "Outdoor", &[], "Good.");
    assert!(r.starts_with(
        "Rewoven rates Acme 82/100 (grade A) - an industry leader overall for sustainability. \
This composite is the equal-weighted average of four dimensions:\n\n"
    ));
    assert!(r.ends_with("Brands may request a review at arhan@rewovenapp.com."));
}
