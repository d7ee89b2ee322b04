//! Verified core of the MySK API library: request and response models, error
//! classification, query-clause construction, pagination, API keys and OAuth helpers.
pub mod auth;
pub mod cache;
pub mod common;
pub mod crypto;
pub mod error;
pub mod helpers;
pub mod ids;
pub mod models;
pub mod query;
pub mod text;
