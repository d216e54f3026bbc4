//! Sustainability ratings for fashion brands: grading, rationale text,
//! fuzzy name search, CSV export, pagination and barcode-prefix rules.

pub mod models;
pub mod text;
pub mod search;
pub mod json;
pub mod export;
pub mod paging;
pub mod barcode;
pub mod barcode_seeds;
pub mod brands;
pub mod error;
pub mod middleware;
pub mod sql;
pub mod materials;
