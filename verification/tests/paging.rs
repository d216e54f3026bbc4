use rewoven_api::paging::{
    capped_limit, page_count, page_window, paginated_response, ranking_limit, LimitParams,
};

#[test]
fn page_window_defaults() {
    let w = page_window(None, None);
    assert_eq!((w.limit, w.page, w.offset), (50, 1, 0));
}

#[test]
fn page_window_offsets_and_caps() {
    let w = page_window(Some(3), Some(20));
    assert_eq!((w.limit, w.page, w.offset), (20, 3, 40));
    let w = page_window(Some(2), Some(500));
    assert_eq!((w.limit, w.page, w.offset), (100, 2, 100));
    let w = page_window(Some(0), Some(10));
    assert_eq!((w.limit, w.page, w.offset), (10, 1, 0));
}

#[test]
fn page_count_values() {
    assert_eq!(page_count(0, 50), 1);
    assert_eq!(page_count(0, 0), 1);
    assert_eq!(page_count(505, 50), 11);
    assert_eq!(page_count(100, 50), 2);
    assert_eq!(page_count(101, 50), 3);
    assert_eq!(page_count(1, 100), 1);
}

#[test]
fn page_count_covers_all_rows() {
    for total in 1..300usize {
        for limit in 1..40usize {
            let p = page_count(total, limit);
            assert!((p - 1) * limit < total && total <= p * limit);
        }
    }
}

#[test]
fn paginated_response_fields() {
    let w = page_window(Some(2), Some(10));
    let r = paginated_response(vec![], 25, &w);
    assert_eq!((r.total, r.page, r.pages), (25, 2, 3));
    assert!(r.brands.is_empty());
}

#[test]
fn ranking_and_capped_limits() {
    assert_eq!(ranking_limit(&LimitParams { limit: None }), 10);
    assert_eq!(ranking_limit(&LimitParams { limit: Some(7) }), 7);
    assert_eq!(ranking_limit(&LimitParams { limit: Some(80) }), 50);
    assert_eq!(capped_limit(None, 5, 20), 5);
    assert_eq!(capped_limit(Some(21), 5, 20), 20);
}
