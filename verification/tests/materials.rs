use rewoven_api::materials::{find_material, order_by_score_desc};

#[test]
fn materials_ordered_by_score_stably() {
    assert_eq!(order_by_score_desc(&vec![35, 72, 20, 72, 90]), vec![4, 1, 3, 0, 2]);
    assert!(order_by_score_desc(&vec![]).is_empty());
}

#[test]
fn material_found_by_lowercase_slug() {
    let slugs = vec!["linen".to_string(), "hemp".to_string(), "hemp".to_string()];
    assert_eq!(find_material(&slugs, "HEMP"), Some(1));
    assert_eq!(find_material(&slugs, "silk"), None);
}
