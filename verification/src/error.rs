//! The errors that the API reports, their messages and their HTTP status codes.
use vstd::prelude::*;

verus! {

/// An error of the API. The first string is the detail, the second the source.
#[derive(Debug)]
pub enum Error {
    /// HTTP 400 Bad Request.
    InvalidRequest(String, String),
    /// HTTP 404 Not Found.
    EntityNotFound(String, String),
    /// HTTP 409 Conflict.
    Conflicted(String, String),
    /// HTTP 401 Unauthorized.
    MissingApiKey(String, String),
    /// HTTP 401 Unauthorized.
    InvalidApiKey(String, String),
    /// HTTP 401 Unauthorized.
    InvalidAuthorizationScheme(String, String),
    /// HTTP 401 Unauthorized.
    MissingToken(String, String),
    /// HTTP 401 Unauthorized.
    InvalidToken(String, String),
    /// HTTP 403 Forbidden.
    InvalidPermission(String, String),
    /// HTTP 500 Internal Server Error.
    InternalServerError(String, String),
    /// HTTP 503 Service Unavailable.
    ServiceUnavailable(String, String),
}

/// How a database call failed, as far as the error mapping tells failures apart.
#[derive(Debug)]
pub enum DatabaseFailure {
    /// The database rejected the statement, with its message.
    Database(String),
    /// The query returned no row.
    RowNotFound,
    /// The database could not be reached: an I/O or TLS failure, a pool that timed out
    /// or was closed.
    Unavailable,
    /// Any other failure, with its rendering.
    Other(String),
}

impl Error {
    /// The detail of the error.
    pub open spec fn detail(self) -> Seq<char> {
        match self {
            Error::InvalidRequest(d, _) => d@,
            Error::EntityNotFound(d, _) => d@,
            Error::Conflicted(d, _) => d@,
            Error::MissingApiKey(d, _) => d@,
            Error::InvalidApiKey(d, _) => d@,
            Error::InvalidAuthorizationScheme(d, _) => d@,
            Error::MissingToken(d, _) => d@,
            Error::InvalidToken(d, _) => d@,
            Error::InvalidPermission(d, _) => d@,
            Error::InternalServerError(d, _) => d@,
            Error::ServiceUnavailable(d, _) => d@,
        }
    }

    /// Where the error arose.
    pub open spec fn source(self) -> Seq<char> {
        match self {
            Error::InvalidRequest(_, s) => s@,
            Error::EntityNotFound(_, s) => s@,
            Error::Conflicted(_, s) => s@,
            Error::MissingApiKey(_, s) => s@,
            Error::InvalidApiKey(_, s) => s@,
            Error::InvalidAuthorizationScheme(_, s) => s@,
            Error::MissingToken(_, s) => s@,
            Error::InvalidToken(_, s) => s@,
            Error::InvalidPermission(_, s) => s@,
            Error::InternalServerError(_, s) => s@,
            Error::ServiceUnavailable(_, s) => s@,
        }
    }

    /// The words that open the message of the error.
    pub open spec fn label(self) -> Seq<char> {
        match self {
            Error::InvalidRequest(..) => "Invalid request"@,
            Error::EntityNotFound(..) => "Entity not found"@,
            Error::Conflicted(..) => "Conflicted"@,
            Error::MissingApiKey(..) => "Missing API key"@,
            Error::InvalidApiKey(..) => "Invalid API key"@,
            Error::InvalidAuthorizationScheme(..) => "Invalid authorization scheme"@,
            Error::MissingToken(..) => "Missing token"@,
            Error::InvalidToken(..) => "Invalid token"@,
            Error::InvalidPermission(..) => "Invalid permission"@,
            Error::InternalServerError(..) => "Internal server error"@,
            Error::ServiceUnavailable(..) => "Service unavailable"@,
        }
    }

    /// The snake-case name of the kind of error.
    pub open spec fn kind_name(self) -> Seq<char> {
        match self {
            Error::InvalidRequest(..) => "invalid_request"@,
            Error::EntityNotFound(..) => "entity_not_found"@,
            Error::Conflicted(..) => "conflicted"@,
            Error::MissingApiKey(..) => "missing_api_key"@,
            Error::InvalidApiKey(..) => "invalid_api_key"@,
            Error::InvalidAuthorizationScheme(..) => "invalid_authorization_scheme"@,
            Error::MissingToken(..) => "missing_token"@,
            Error::InvalidToken(..) => "invalid_token"@,
            Error::InvalidPermission(..) => "invalid_permission"@,
            Error::InternalServerError(..) => "internal_server_error"@,
            Error::ServiceUnavailable(..) => "service_unavailable"@,
        }
    }

    /// The HTTP status code that answers the error.
    pub open spec fn http_status(self) -> u16 {
        match self {
            Error::InvalidRequest(..) => 400,
            Error::EntityNotFound(..) => 404,
            Error::Conflicted(..) => 409,
            Error::MissingApiKey(..) => 401,
            Error::InvalidApiKey(..) => 401,
            Error::InvalidAuthorizationScheme(..) => 401,
            Error::MissingToken(..) => 401,
            Error::InvalidToken(..) => 401,
            Error::InvalidPermission(..) => 403,
            Error::InternalServerError(..) => 500,
            Error::ServiceUnavailable(..) => 503,
        }
    }

    /// The message of the error: `<label>: <detail> (source: <source>)`.
    pub open spec fn message(self) -> Seq<char> {
        self.label() + ": "@ + self.detail() + " (source: "@ + self.source() + ")"@
    }

    /// The detail and source of the error.
    pub fn parts(&self) -> (r: (&String, &String))
        ensures
            r.0@ == self.detail(),
            r.1@ == self.source(),
    {
        match self {
            Error::InvalidRequest(d, s) => (d, s),
            Error::EntityNotFound(d, s) => (d, s),
            Error::Conflicted(d, s) => (d, s),
            Error::MissingApiKey(d, s) => (d, s),
            Error::InvalidApiKey(d, s) => (d, s),
            Error::InvalidAuthorizationScheme(d, s) => (d, s),
            Error::MissingToken(d, s) => (d, s),
            Error::InvalidToken(d, s) => (d, s),
            Error::InvalidPermission(d, s) => (d, s),
            Error::InternalServerError(d, s) => (d, s),
            Error::ServiceUnavailable(d, s) => (d, s),
        }
    }

    /// The words that open the message of the error.
    pub fn label_text(&self) -> (r: &'static str)
        ensures
            r@ == self.label(),
    {
        match self {
            Error::InvalidRequest(..) => "Invalid request",
            Error::EntityNotFound(..) => "Entity not found",
            Error::Conflicted(..) => "Conflicted",
            Error::MissingApiKey(..) => "Missing API key",
            Error::InvalidApiKey(..) => "Invalid API key",
            Error::InvalidAuthorizationScheme(..) => "Invalid authorization scheme",
            Error::MissingToken(..) => "Missing token",
            Error::InvalidToken(..) => "Invalid token",
            Error::InvalidPermission(..) => "Invalid permission",
            Error::InternalServerError(..) => "Internal server error",
            Error::ServiceUnavailable(..) => "Service unavailable",
        }
    }

    /// The snake-case name of the kind of error.
    pub fn kind_text(&self) -> (r: &'static str)
        ensures
            r@ == self.kind_name(),
    {
        match self {
            Error::InvalidRequest(..) => "invalid_request",
            Error::EntityNotFound(..) => "entity_not_found",
            Error::Conflicted(..) => "conflicted",
            Error::MissingApiKey(..) => "missing_api_key",
            Error::InvalidApiKey(..) => "invalid_api_key",
            Error::InvalidAuthorizationScheme(..) => "invalid_authorization_scheme",
            Error::MissingToken(..) => "missing_token",
            Error::InvalidToken(..) => "invalid_token",
            Error::InvalidPermission(..) => "invalid_permission",
            Error::InternalServerError(..) => "internal_server_error",
            Error::ServiceUnavailable(..) => "service_unavailable",
        }
    }

    /// The message of the error: `<label>: <detail> (source: <source>)`.
    pub fn to_string(&self) -> (r: String)
        ensures
            r@ == self.message(),
    {
        let (detail, source) = self.parts();
        let mut r = String::from_str(self.label_text());
        r.append(": ");
        r.append(detail.as_str());
        r.append(" (source: ");
        r.append(source.as_str());
        r.append(")");
        r
    }

    /// The HTTP status code that answers the error.
    pub fn status_code(&self) -> (r: u16)
        ensures
            r == self.http_status(),
    {
        match self {
            Error::InvalidRequest(..) => 400,
            Error::EntityNotFound(..) => 404,
            Error::Conflicted(..) => 409,
            Error::MissingApiKey(..) => 401,
            Error::InvalidApiKey(..) => 401,
            Error::InvalidAuthorizationScheme(..) => 401,
            Error::MissingToken(..) => 401,
            Error::InvalidToken(..) => 401,
            Error::InvalidPermission(..) => 403,
            Error::InternalServerError(..) => 500,
            Error::ServiceUnavailable(..) => 503,
        }
    }

    /// The error that answers a failed database call. The statement's message becomes the
    /// detail of a bad request; a missing row is an entity not found; an unreachable
    /// database makes the service unavailable; anything else is an internal server error,
    /// whose detail is the failure's rendering when `verbose` and a generic text otherwise.
    pub fn from_database_failure(failure: DatabaseFailure, verbose: bool) -> (r: Error)
        ensures
            failure matches DatabaseFailure::Database(m) ==> r matches Error::InvalidRequest(d, s)
                && d@ == m@ && s@ == "SQLx"@,
            failure is RowNotFound ==> (r matches Error::EntityNotFound(d, s)
                && d@ == "Entity not found"@ && s@ == "SQLx"@),
            failure is Unavailable ==> (r matches Error::ServiceUnavailable(d, s)
                && d@ == "Service unavailable"@ && s@ == "SQLx"@),
            failure matches DatabaseFailure::Other(m) ==> r matches Error::InternalServerError(d, s)
                && d@ == (if verbose { m@ } else { "Internal server error"@ }) && s@ == "SQLx"@,
    {
        match failure {
            DatabaseFailure::Database(m) => Error::InvalidRequest(m, String::from_str("SQLx")),
            DatabaseFailure::RowNotFound => Error::EntityNotFound(
                String::from_str("Entity not found"),
                String::from_str("SQLx"),
            ),
            DatabaseFailure::Unavailable => Error::ServiceUnavailable(
                String::from_str("Service unavailable"),
                String::from_str("SQLx"),
            ),
            DatabaseFailure::Other(m) => {
                let detail = if verbose { m } else { String::from_str("Internal server error") };
                Error::InternalServerError(detail, String::from_str("SQLx"))
            },
        }
    }

    /// The error that answers a failure to build a query string: an internal server error
    /// whose detail is the failure's rendering when `verbose` and a generic text otherwise.
    pub fn from_query_string_failure(message: String, verbose: bool) -> (r: Error)
        ensures
            r matches Error::InternalServerError(d, s) && (if verbose {
                d@ == message@ && s@ == "/auth/oauth/google (serde_qs)"@
            } else {
                d@ == "Internal server error"@ && s@ == "/auth/oauth/google"@
            }),
    {
        if verbose {
            Error::InternalServerError(message, String::from_str("/auth/oauth/google (serde_qs)"))
        } else {
            Error::InternalServerError(
                String::from_str("Internal server error"),
                String::from_str("/auth/oauth/google"),
            )
        }
    }

    /// The error that answers a failed HTTP request to another service.
    pub fn from_http_client_failure(message: String, verbose: bool) -> (r: Error)
        ensures
            r matches Error::InternalServerError(d, s) && s@ == "reqwest"@
                && d@ == (if verbose { message@ } else { "Internal server error"@ }),
    {
        let detail = if verbose { message } else { String::from_str("Internal server error") };
        Error::InternalServerError(detail, String::from_str("reqwest"))
    }

    /// The error that answers a token that could not be decoded or validated.
    pub fn from_token_failure(message: String, verbose: bool) -> (r: Error)
        ensures
            r matches Error::InternalServerError(d, s) && s@ == "jsonwebtoken"@
                && d@ == (if verbose { message@ } else { "Internal server error"@ }),
    {
        let detail = if verbose { message } else { String::from_str("Internal server error") };
        Error::InternalServerError(detail, String::from_str("jsonwebtoken"))
    }

    /// The error that answers a background task that was cancelled.
    pub fn from_cancelled_task() -> (r: Error)
        ensures
            r matches Error::InternalServerError(d, s) && d@ == "Internal server error"@
                && s@ == "Tokio"@,
    {
        Error::InternalServerError(String::from_str("Internal server error"), String::from_str("Tokio"))
    }
}

} // verus!
