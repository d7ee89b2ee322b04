//! A record returned at the detail level a request asks for.
use vstd::prelude::*;
use crate::common::requests::FetchLevel;

verus! {

/// A record in the form of one of the four detail levels: `I` by identifier, `C` compact,
/// `D` default and `T` detailed.
pub enum TopLevelVariant<I, C, D, T> {
    IdOnly(Box<I>),
    Compact(Box<C>),
    Default(Box<D>),
    Detailed(Box<T>),
}

/// The level at which a record is returned: the one the request asks for, or `IdOnly` when
/// it asks for none.
pub open spec fn requested_level(fetch_level: Option<FetchLevel>) -> FetchLevel {
    match fetch_level {
        Some(l) => l,
        None => FetchLevel::IdOnly,
    }
}

impl<I, C, D, T> TopLevelVariant<I, C, D, T> {
    /// The level of the form the record is in.
    pub open spec fn spec_level(&self) -> FetchLevel {
        match self {
            TopLevelVariant::IdOnly(_) => FetchLevel::IdOnly,
            TopLevelVariant::Compact(_) => FetchLevel::Compact,
            TopLevelVariant::Default(_) => FetchLevel::Default,
            TopLevelVariant::Detailed(_) => FetchLevel::Detailed,
        }
    }

    /// The level of the form the record is in.
    pub fn level(&self) -> (r: FetchLevel)
        ensures
            r == self.spec_level(),
    {
        match self {
            TopLevelVariant::IdOnly(_) => FetchLevel::IdOnly,
            TopLevelVariant::Compact(_) => FetchLevel::Compact,
            TopLevelVariant::Default(_) => FetchLevel::Default,
            TopLevelVariant::Detailed(_) => FetchLevel::Detailed,
        }
    }

    /// The level at which a record is built for a request: the one asked for, `IdOnly` when
    /// none is.
    pub fn variant_level(fetch_level: Option<FetchLevel>) -> (r: FetchLevel)
        ensures
            r == requested_level(fetch_level),
    {
        match fetch_level {
            Some(l) => l,
            None => FetchLevel::IdOnly,
        }
    }

    /// The levels for the records that a record refers to, and for those they refer to in
    /// turn: the first as the request's descendant level, the second always `IdOnly`.
    pub fn descendant_levels(descendant_fetch_level: Option<FetchLevel>) -> (r: (Option<FetchLevel>, FetchLevel))
        ensures
            r.0 == descendant_fetch_level,
            r.1 == FetchLevel::IdOnly,
    {
        (descendant_fetch_level, FetchLevel::IdOnly)
    }
}

} // verus!
