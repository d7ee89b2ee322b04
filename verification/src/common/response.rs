//! The envelopes of API responses: data with metadata, or an error.
use vstd::prelude::*;
use crate::common::pagination::PaginationType;
use crate::error::Error;
use crate::ids::{hyphenated, is_random_v4, now_utc, random_uuid, uuid_text, Timestamp, Uuid};
use crate::text::{i64_text, signed_decimal};

verus! {

/// The version of the API that answers.
pub const API_VERSION: &'static str = "0.1.0";

/// When a response was made, and the page summary of a list response.
pub struct MetadataType {
    timestamp: Timestamp,
    pagination: Option<PaginationType>,
}

impl MetadataType {
    /// The page summary carried by the metadata.
    pub closed spec fn spec_pagination(&self) -> Option<PaginationType> {
        self.pagination
    }

    /// Metadata stamped with the present time.
    pub fn new(pagination: Option<PaginationType>) -> (r: Self)
        ensures
            r.spec_pagination() == pagination,
    {
        MetadataType { timestamp: now_utc(), pagination }
    }

    /// The time stamp and the page summary.
    pub fn into_parts(self) -> (r: (Timestamp, Option<PaginationType>))
        ensures
            r.1 == self.spec_pagination(),
    {
        (self.timestamp, self.pagination)
    }
}

impl Default for MetadataType {
    fn default() -> (r: Self)
        ensures
            r.spec_pagination() is None,
    {
        MetadataType { timestamp: now_utc(), pagination: None }
    }
}

/// A successful response: the API version, the data and the metadata; its error is always
/// absent.
pub struct ResponseType<T> {
    api_version: String,
    data: Option<T>,
    error: Option<String>,
    meta: MetadataType,
}

impl<T> ResponseType<T> {
    pub closed spec fn spec_api_version(&self) -> Seq<char> {
        self.api_version@
    }

    pub closed spec fn spec_data(&self) -> Option<T> {
        self.data
    }

    pub closed spec fn spec_error(&self) -> Option<Seq<char>> {
        match self.error {
            Some(e) => Some(e@),
            None => None,
        }
    }

    pub closed spec fn spec_meta(&self) -> MetadataType {
        self.meta
    }

    /// Wraps data with the given metadata, or with fresh metadata without a page summary.
    pub fn new(data: T, meta: Option<MetadataType>) -> (r: Self)
        ensures
            r.spec_api_version() == API_VERSION@,
            r.spec_data() == Some(data),
            r.spec_error() is None,
            meta matches Some(m) ==> r.spec_meta() == m,
            meta is None ==> r.spec_meta().spec_pagination() is None,
    {
        let meta = match meta {
            Some(m) => m,
            None => MetadataType::default(),
        };
        ResponseType { api_version: String::from_str(API_VERSION), data: Some(data), error: None, meta }
    }

    /// The API version, data, error and metadata.
    pub fn into_parts(self) -> (r: (String, Option<T>, Option<String>, MetadataType))
        ensures
            r.0@ == self.spec_api_version(),
            r.1 == self.spec_data(),
            r.2 is None <==> self.spec_error() is None,
            r.3 == self.spec_meta(),
    {
        (self.api_version, self.data, self.error, self.meta)
    }
}

/// The data of a response that carries none.
pub struct EmptyResponseData;

/// An error as reported to clients: an identifier, the HTTP status code, the kind, the
/// detail and the source.
pub struct ErrorType {
    pub id: Uuid,
    pub code: i64,
    pub error_type: String,
    pub detail: String,
    pub source: String,
}

impl ErrorType {
    /// The report of an error under a given identifier.
    pub fn with_id(value: &Error, id: Uuid) -> (r: ErrorType)
        ensures
            r.id == id,
            r.code == value.http_status() as i64,
            r.error_type@ == value.kind_name(),
            r.detail@ == value.detail(),
            r.source@ == value.source(),
    {
        let (detail, source) = value.parts();
        ErrorType {
            id,
            code: value.status_code() as i64,
            error_type: String::from_str(value.kind_text()),
            detail: detail.clone(),
            source: source.clone(),
        }
    }

    /// The report of an error under a fresh random (version 4) identifier; none when the
    /// operating system's random source fails.
    pub fn from(value: &Error) -> (r: Option<ErrorType>)
        ensures
            r matches Some(t) ==> {
                &&& t.code == value.http_status() as i64
                &&& t.error_type@ == value.kind_name()
                &&& t.detail@ == value.detail()
                &&& t.source@ == value.source()
                &&& is_random_v4(t.id.bits)
            },
    {
        match random_uuid() {
            Some(id) => Some(ErrorType::with_id(value, id)),
            None => None,
        }
    }

    /// The HTTP status code of the report: 400, 401, 403, 404 and 405 are kept, and every
    /// other code answers with 500.
    pub fn to_status_code(&self) -> (r: u16)
        ensures
            r == report_status(self.code),
    {
        match self.code {
            400 => 400,
            401 => 401,
            403 => 403,
            404 => 404,
            405 => 405,
            _ => 500,
        }
    }
}

/// The text of an error report:
/// `{ id: <id>, code: <code>, error_type: <kind>, detail: <detail>, source: <source> }`.
pub open spec fn error_report_text(e: ErrorType) -> Seq<char> {
    "{ id: "@ + hyphenated(e.id.bits) + ", code: "@ + signed_decimal(e.code as int) + ", error_type: "@
        + e.error_type@ + ", detail: "@ + e.detail@ + ", source: "@ + e.source@ + " }"@
}

impl ErrorType {
    /// The text of the report.
    pub fn to_string(&self) -> (r: String)
        ensures
            r@ == error_report_text(*self),
    {
        let mut r = String::from_str("{ id: ");
        r.append(uuid_text(self.id).as_str());
        r.append(", code: ");
        r.append(i64_text(self.code).as_str());
        r.append(", error_type: ");
        r.append(self.error_type.as_str());
        r.append(", detail: ");
        r.append(self.detail.as_str());
        r.append(", source: ");
        r.append(self.source.as_str());
        r.append(" }");
        r
    }
}

/// A failed response: the API version, the error report and optional metadata; its data
/// is always absent.
pub struct ErrorResponseType {
    api_version: String,
    error: ErrorType,
    data: Option<String>,
    meta: Option<MetadataType>,
}

impl ErrorResponseType {
    pub closed spec fn spec_api_version(&self) -> Seq<char> {
        self.api_version@
    }

    pub closed spec fn spec_error(&self) -> ErrorType {
        self.error
    }

    pub closed spec fn spec_data(&self) -> Option<Seq<char>> {
        match self.data {
            Some(d) => Some(d@),
            None => None,
        }
    }

    pub closed spec fn spec_meta(&self) -> Option<MetadataType> {
        self.meta
    }

    pub fn new(error: ErrorType, meta: Option<MetadataType>) -> (r: Self)
        ensures
            r.spec_api_version() == API_VERSION@,
            r.spec_error() == error,
            r.spec_data() is None,
            r.spec_meta() == meta,
    {
        ErrorResponseType { api_version: String::from_str(API_VERSION), error, data: None, meta }
    }

    /// The HTTP status code of the response, that of its error report.
    pub fn status_code(&self) -> (r: u16)
        ensures
            r == report_status(self.spec_error().code),
    {
        self.error.to_status_code()
    }

    /// The API version, error report, data and metadata.
    pub fn into_parts(self) -> (r: (String, ErrorType, Option<String>, Option<MetadataType>))
        ensures
            r.0@ == self.spec_api_version(),
            r.1 == self.spec_error(),
            r.2 is None <==> self.spec_data() is None,
            r.3 == self.spec_meta(),
    {
        (self.api_version, self.error, self.data, self.meta)
    }
}

/// The HTTP status code that a report with the given code is answered with: 400, 401, 403,
/// 404 and 405 are kept, and every other code answers with 500.
pub open spec fn report_status(code: i64) -> u16 {
    if code == 400 || code == 401 || code == 403 || code == 404 || code == 405 {
        code as u16
    } else {
        500u16
    }
}

/// An error response carries the status code of the error itself, except for conflicts
/// (409) and unavailable services (503), whose reports are answered with 500.
pub proof fn lemma_report_status_of_error(e: Error)
    ensures
        report_status(e.http_status() as i64) == (if e is Conflicted || e is ServiceUnavailable {
            500u16
        } else {
            e.http_status()
        }),
{
}

} // verus!
