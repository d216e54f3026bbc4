use rewoven_api::brands::{
    alternatives_limit, alternatives_min_score, alternatives_response, compare_slugs, price_tiers,
    slug_key,
};
use rewoven_api::models::BrandRating;
use rewoven_api::paging::{AlternativesParams, CompareParams};

#[test]
fn compare_slugs_split_trim_lowercase() {
    let p = CompareParams { brands: Some(" Zara , PATAGONIA,nike".to_string()) };
    assert_eq!(
        compare_slugs(&p),
        Some(vec!["zara".to_string(), "patagonia".to_string(), "nike".to_string()])
    );
    let p = CompareParams { brands: Some("a,,b,".to_string()) };
    assert_eq!(
        compare_slugs(&p),
        Some(vec!["a".to_string(), String::new(), "b".to_string(), String::new()])
    );
    assert_eq!(compare_slugs(&CompareParams { brands: None }), None);
    assert_eq!(compare_slugs(&CompareParams { brands: Some(String::new()) }), Some(vec![String::new()]));
}

#[test]
fn price_tiers_neighbours() {
    assert_eq!(price_tiers("$"), vec!["$", "$$"]);
    assert_eq!(price_tiers("$$"), vec!["$", "$$", "$$$"]);
    assert_eq!(price_tiers("$$$"), vec!["$$", "$$$", "$$$$"]);
    assert_eq!(price_tiers("$$$$"), vec!["$$$", "$$$$"]);
    assert_eq!(price_tiers("cheap"), vec!["$", "$$", "$$$", "$$$$"]);
}

#[test]
fn alternatives_parameters() {
    let p = AlternativesParams { limit: None, min_score: None };
    assert_eq!(alternatives_limit(&p), 5);
    assert_eq!(alternatives_min_score(&p, 40), 50);
    assert_eq!(alternatives_min_score(&p, 250), 255);
    let p = AlternativesParams { limit: Some(50), min_score: Some(10) };
    assert_eq!(alternatives_limit(&p), 20);
    assert_eq!(alternatives_min_score(&p, 90), 10);
}

#[test]
fn alternatives_reason_text() {
    let b = BrandRating {
        name: "Shein".to_string(),
        slug: "shein".to_string(),
        overall_score: 12,
        grade: "F".to_string(),
        environmental_score: 10,
        labor_score: 10,
        transparency_score: 10,
        animal_welfare_score: 10,
        price_range: "$".to_string(),
        country: "CN".to_string(),
        category: "Fast Fashion".to_string(),
        certifications: vec![],
        summary: String::new(),
        website: String::new(),
        updated_at: String::new(),
        sources: vec![],
        rationale: String::new(),
    };
    let r = alternatives_response(b, vec![]);
    assert_eq!(
        r.reason,
        "Showing sustainable alternatives to Shein (score: 12/100, grade: F). These brands score higher on sustainability while offering similar style and price range."
    );
    assert_eq!(r.original.slug, "shein");
    assert!(r.alternatives.is_empty());
}

#[test]
fn slug_key_lowercases() {
    assert_eq!(slug_key("H-And-M"), "h-and-m");
}
