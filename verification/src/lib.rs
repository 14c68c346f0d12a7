//! Signed payloads, request extractors and transaction retries for a web service.

pub mod axum_extractors;
pub mod codec;
pub mod ed25519;
pub mod encoding;
pub mod laws;
pub mod signed_data;
pub mod sqlx_transaction;
pub mod text;
