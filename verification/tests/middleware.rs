use std::hash::{Hash, Hasher};
use rewoven_api::middleware::{
    body_etag, client_key, etag_for, is_cacheable, is_not_modified, quota_per_minute, CACHE_CONTROL_VALUE,
    RATE_LIMITED_BODY,
};

#[test]
fn client_key_prefers_cloudflare_header() {
    assert_eq!(
        client_key(Some(" 1.2.3.4 ".to_string()), Some("5.6.7.8".to_string())),
        "1.2.3.4"
    );
}

#[test]
fn client_key_first_forwarded_address() {
    assert_eq!(client_key(None, Some(" 9.9.9.9 , 10.0.0.1".to_string())), "9.9.9.9");
    assert_eq!(client_key(None, Some("10.0.0.2".to_string())), "10.0.0.2");
    assert_eq!(client_key(None, Some(",x".to_string())), "");
}

#[test]
fn client_key_unknown() {
    assert_eq!(client_key(None, None), "unknown");
}

#[test]
fn quota_at_least_one() {
    assert_eq!(quota_per_minute(0), 1);
    assert_eq!(quota_per_minute(120), 120);
}

#[test]
fn etag_format() {
    assert_eq!(etag_for(0), "\"0000000000000000\"");
    assert_eq!(etag_for(0xdead_beef), "\"00000000deadbeef\"");
    assert_eq!(etag_for(u64::MAX), "\"ffffffffffffffff\"");
    assert_eq!(etag_for(0x0123_4567_89ab_cdef), format!("\"{:016x}\"", 0x0123_4567_89ab_cdefu64));
}

#[test]
fn not_modified_only_on_exact_tag() {
    let tag = etag_for(42);
    assert!(is_not_modified(Some(tag.clone()), &tag));
    assert!(!is_not_modified(Some("\"x\"".to_string()), &tag));
    assert!(!is_not_modified(None, &tag));
}

#[test]
fn only_successful_gets_are_cached() {
    assert!(is_cacheable(true, 200));
    assert!(!is_cacheable(false, 200));
    assert!(!is_cacheable(true, 404));
    assert_eq!(CACHE_CONTROL_VALUE, "public, max-age=300");
    assert_eq!(RATE_LIMITED_BODY, r#"{"error":"Rate limit exceeded. Try again shortly.","status":429}"#);
}

#[test]
fn body_etag_is_a_quoted_content_hash() {
    let body: &[u8] = b"{\"brands\":[]}";
    let mut hasher = std::collections::hash_map::DefaultHasher::new();
    body.hash(&mut hasher);
    assert_eq!(body_etag(body), etag_for(hasher.finish()));
    let e = body_etag(body);
    assert_eq!(e.len(), 18);
    assert!(e.starts_with('"') && e.ends_with('"'));
    assert_eq!(body_etag(body), e);
    assert_ne!(body_etag(b"other"), e);
}
