//! The parts of a list request as the model layer receives them.
use vstd::prelude::*;
pub use crate::common::pagination::PaginationConfig;
pub use crate::common::requests::{FetchLevel, FilterConfig, QueryablePlaceholder, SortablePlaceholder};

verus! {

/// The order of results: the fields to sort by, and whether ascending.
pub struct SortingConfig<T> {
    pub by: Vec<T>,
    pub ascending: Option<bool>,
}

/// A list request: its payload, page, filter, sort order and detail levels for the records
/// and the records they refer to.
pub struct RequestType<T, Q, S> {
    pub data: Option<T>,
    pub pagination: Option<PaginationConfig>,
    pub filter: Option<FilterConfig<Q>>,
    pub sorting: Option<SortingConfig<S>>,
    pub fetch_level: Option<FetchLevel>,
    pub descendant_fetch_level: Option<FetchLevel>,
}

} // verus!
