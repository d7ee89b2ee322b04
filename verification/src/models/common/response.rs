//! The envelopes of API responses, shared with `common::response`.
pub use crate::common::pagination::PaginationType;
pub use crate::common::response::{ErrorResponseType, ErrorType, MetadataType, ResponseType};
