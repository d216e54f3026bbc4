use rewoven_api::barcode::{
    barcode_hit, barcode_miss, barcode_prefix_candidates, clean_barcode, contribution_accepted,
    first_lookup_step, next_lookup_step, first_submit_action, LookupStep, next_submit_action, plan_contribution, seed_prefix_allowed,
    ContributeRequest, SubmitAction, SubmitEvent,
};
use rewoven_api::barcode_seeds::{count, SEED_PREFIXES};

#[test]
fn clean_barcode_keeps_digits() {
    assert_eq!(clean_barcode("0-88571-01712 3"), "088571017123");
    assert_eq!(clean_barcode("abc"), "");
    assert_eq!(clean_barcode(&clean_barcode("8-4-0-9")), "8409");
}

#[test]
fn candidates_longest_first() {
    assert_eq!(
        barcode_prefix_candidates("885710171234"),
        vec!["885710171", "88571017", "8857101", "885710"]
    );
    assert_eq!(barcode_prefix_candidates("88-57-101"), vec!["8857101", "885710"]);
    assert_eq!(barcode_prefix_candidates("885710"), vec!["885710"]);
    assert!(barcode_prefix_candidates("88571").is_empty());
    assert!(barcode_prefix_candidates("ab-cd-ef-gh").is_empty());
}

#[test]
fn lookup_answers() {
    let m = barcode_miss("123".to_string());
    assert_eq!(m.barcode, "123");
    assert_eq!(m.source, "miss");
    assert!(m.prefix_source.is_none() && m.confidence.is_none() && m.brand.is_none());
    let h = barcode_hit("885710171234".to_string(), "manual".to_string(), 100, None);
    assert_eq!(h.source, "ours");
    assert_eq!(h.prefix_source.as_deref(), Some("manual"));
    assert_eq!(h.confidence, Some(100));
}

#[test]
fn contribution_needs_eight_digits() {
    let req = ContributeRequest {
        barcode: "1234-567".to_string(),
        brand_slug: "zara".to_string(),
        user_hash: None,
    };
    match plan_contribution(&req) {
        Err(resp) => {
            assert!(!resp.ok);
            assert_eq!(resp.message, "Barcode too short (need at least 8 digits)");
        }
        Ok(_) => panic!("a 7-digit barcode was accepted"),
    }
    let req = ContributeRequest {
        barcode: "8409-1540-1234".to_string(),
        brand_slug: "zara".to_string(),
        user_hash: Some("u1".to_string()),
    };
    match plan_contribution(&req) {
        Ok(prefix) => assert_eq!(prefix, "84091540"),
        Err(_) => panic!("a 12-digit barcode was refused"),
    }
    let ok = contribution_accepted();
    assert!(ok.ok);
    assert_eq!(ok.message, "Thanks \u{2014} we'll use this to improve our barcode database.");
}

#[test]
fn submission_steps() {
    assert!(matches!(first_submit_action(), SubmitAction::CountBrand));
    match next_submit_action("nope", SubmitEvent::BrandCount(0)) {
        SubmitAction::RejectUnknownBrand(m) => assert_eq!(m, "Unknown brand_slug: nope"),
        _ => panic!("unknown brand accepted"),
    }
    assert!(matches!(next_submit_action("zara", SubmitEvent::BrandCount(1)), SubmitAction::InsertReport));
    assert!(matches!(next_submit_action("zara", SubmitEvent::ReportInserted), SubmitAction::CountAgreement));
    assert!(matches!(next_submit_action("zara", SubmitEvent::AgreementCount(2)), SubmitAction::Finish));
    assert!(matches!(next_submit_action("zara", SubmitEvent::AgreementCount(3)), SubmitAction::ReadExistingPrefix));
    assert!(matches!(next_submit_action("zara", SubmitEvent::AgreementCount(7)), SubmitAction::ReadExistingPrefix));
    assert!(matches!(next_submit_action("zara", SubmitEvent::ExistingPrefix(None)), SubmitAction::Promote));
    assert!(matches!(next_submit_action("zara", SubmitEvent::ExistingPrefix(Some(70))), SubmitAction::Promote));
    assert!(matches!(next_submit_action("zara", SubmitEvent::ExistingPrefix(Some(100))), SubmitAction::Finish));
    assert!(matches!(next_submit_action("zara", SubmitEvent::ExistingPrefix(Some(71))), SubmitAction::Finish));
    assert!(matches!(next_submit_action("zara", SubmitEvent::Promoted), SubmitAction::Finish));
}

#[test]
fn seed_prefixes_table() {
    assert_eq!(count(), 117);
    assert_eq!(SEED_PREFIXES[0], ("88571017", "shein", "China Shein Group main UPC block"));
    assert!(SEED_PREFIXES.iter().all(|(p, _, _)| p.len() == 8));
    assert!(seed_prefix_allowed(1));
    assert!(!seed_prefix_allowed(0));
}

/// Drives a lookup over candidates whose registration answers are given.
fn run_lookup(registered: &[bool]) -> LookupStep {
    let mut step = first_lookup_step(registered.len());
    loop {
        match step {
            LookupStep::Try(i) => step = next_lookup_step(i, registered.len(), registered[i]),
            other => return other,
        }
    }
}

#[test]
fn lookup_steps() {
    assert_eq!(first_lookup_step(0), LookupStep::NotFound);
    assert_eq!(first_lookup_step(4), LookupStep::Try(0));
    assert_eq!(next_lookup_step(0, 4, false), LookupStep::Try(1));
    assert_eq!(next_lookup_step(2, 4, true), LookupStep::Found(2));
    assert_eq!(next_lookup_step(3, 4, false), LookupStep::NotFound);
}

#[test]
fn lookup_first_registered_prefix_wins() {
    assert_eq!(run_lookup(&[false, true, true, false]), LookupStep::Found(1));
    assert_eq!(run_lookup(&[true, true]), LookupStep::Found(0));
    assert_eq!(run_lookup(&[false, false, false, true]), LookupStep::Found(3));
    assert_eq!(run_lookup(&[false, false]), LookupStep::NotFound);
    assert_eq!(run_lookup(&[]), LookupStep::NotFound);
}
