use rewoven_api::error::{brand_not_found, error_response, material_not_found, AppError};

#[test]
fn error_statuses_and_messages() {
    let r = error_response(&AppError::Db("disk I/O error".to_string()));
    assert_eq!((r.status, r.error.as_str()), (500, "Internal database error"));
    let r = error_response(&AppError::Pool("timed out".to_string()));
    assert_eq!((r.status, r.error.as_str()), (500, "Service temporarily unavailable"));
    let r = error_response(&AppError::NotFound("Brand 'x' not found".to_string()));
    assert_eq!((r.status, r.error.as_str()), (404, "Brand 'x' not found"));
}

#[test]
fn not_found_messages() {
    match brand_not_found("Zaraa") {
        AppError::NotFound(m) => assert_eq!(m, "Brand 'Zaraa' not found"),
        _ => panic!("wrong variant"),
    }
    match material_not_found("kevlar") {
        AppError::NotFound(m) => assert_eq!(m, "Material 'kevlar' not found"),
        _ => panic!("wrong variant"),
    }
}
