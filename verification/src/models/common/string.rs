//! Multilingual strings, shared with `common::string`.
pub use crate::common::string::{FlexibleMultiLangString, MultiLangString};
