use vstd::prelude::*;

verus! {

/// Failures of a request.
pub enum AppError {
    /// A database query failed; the text describes the failure.
    Db(String),
    /// The requested item does not exist; the text says which.
    NotFound(String),
    /// No database connection could be had; the text describes why.
    Pool(String),
}

/// Body of an error answer.
pub struct ErrorResponse {
    pub error: String,
    pub status: u16,
}

pub const DB_ERROR_MESSAGE: &'static str = "Internal database error";

pub const POOL_ERROR_MESSAGE: &'static str = "Service temporarily unavailable";

/// The HTTP status and message for an error: database and pool failures
/// are answered with 500 and a generic message (their details stay in the
/// log), a missing item with 404 and its own message.
pub fn error_response(e: &AppError) -> (r: ErrorResponse)
    ensures
        match e {
            AppError::Db(_) => r.status == 500 && r.error@ == DB_ERROR_MESSAGE@,
            AppError::NotFound(m) => r.status == 404 && r.error@ == m@,
            AppError::Pool(_) => r.status == 500 && r.error@ == POOL_ERROR_MESSAGE@,
        },
{
    match e {
        AppError::Db(_) => ErrorResponse { error: String::from_str(DB_ERROR_MESSAGE), status: 500 },
        AppError::NotFound(m) => ErrorResponse { error: m.clone(), status: 404 },
        AppError::Pool(_) => ErrorResponse { error: String::from_str(POOL_ERROR_MESSAGE), status: 500 },
    }
}

/// The message for an item that does not exist: `"<kind> '<slug>' not found"`.
pub open spec fn not_found_text(kind: Seq<char>, slug: Seq<char>) -> Seq<char> {
    kind + " '"@ + slug + "' not found"@
}

fn not_found(kind: &str, slug: &str) -> (r: AppError)
    ensures
        r matches AppError::NotFound(m) && m@ == not_found_text(kind@, slug@),
{
    let mut m = String::from_str(kind);
    m.append(" '");
    m.append(slug);
    m.append("' not found");
    AppError::NotFound(m)
}

/// The error for a brand slug that matches no brand.
pub fn brand_not_found(slug: &str) -> (r: AppError)
    ensures
        r matches AppError::NotFound(m) && m@ == not_found_text("Brand"@, slug@),
{
    not_found("Brand", slug)
}

/// The error for a material slug that matches no material.
pub fn material_not_found(slug: &str) -> (r: AppError)
    ensures
        r matches AppError::NotFound(m) && m@ == not_found_text("Material"@, slug@),
{
    not_found("Material", slug)
}

} // verus!
