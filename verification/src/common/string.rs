//! Strings that carry a Thai and an optional English rendering.
use vstd::prelude::*;

verus! {

/// A string with a mandatory Thai value and an optional English (en-US) value.
pub struct MultiLangString {
    pub en: Option<String>,
    pub th: String,
}

/// A string whose Thai and English (en-US) values are both optional.
pub struct FlexibleMultiLangString {
    pub en: Option<String>,
    pub th: Option<String>,
}

impl MultiLangString {
    pub fn new(th: String, en: Option<String>) -> (r: MultiLangString)
        ensures
            r.th == th,
            r.en == en,
    {
        MultiLangString { en, th }
    }
}

impl FlexibleMultiLangString {
    pub fn new(th: Option<String>, en: Option<String>) -> (r: FlexibleMultiLangString)
        ensures
            r.th == th,
            r.en == en,
    {
        FlexibleMultiLangString { en, th }
    }

    /// Combines an optional Thai and an optional English value into a flexible string;
    /// there is none when both are absent.
    pub fn from_parts(th: Option<String>, en: Option<String>) -> (r: Option<FlexibleMultiLangString>)
        ensures
            r == flexible_of(th, en),
    {
        match (th, en) {
            (Some(th), Some(en)) => Some(FlexibleMultiLangString { th: Some(th), en: Some(en) }),
            (Some(th), None) => Some(FlexibleMultiLangString { th: Some(th), en: None }),
            (None, Some(en)) => Some(FlexibleMultiLangString { th: None, en: Some(en) }),
            (None, None) => None,
        }
    }
}

/// The flexible string of an optional Thai and an optional English value: none when both
/// are absent, and otherwise the string that holds both as they are.
pub open spec fn flexible_of(th: Option<String>, en: Option<String>) -> Option<FlexibleMultiLangString> {
    if th is None && en is None {
        None
    } else {
        Some(FlexibleMultiLangString { en, th })
    }
}

} // verus!
