use mysk_lib::common::response::{ErrorResponseType, ErrorType};
use mysk_lib::error::{DatabaseFailure, Error};
use mysk_lib::ids::Uuid;

fn all_errors() -> Vec<Error> {
    let e = |f: fn(String, String) -> Error| f("d".to_string(), "s".to_string());
    vec![
        e(Error::InvalidRequest),
        e(Error::EntityNotFound),
        e(Error::Conflicted),
        e(Error::MissingApiKey),
        e(Error::InvalidApiKey),
        e(Error::InvalidAuthorizationScheme),
        e(Error::MissingToken),
        e(Error::InvalidToken),
        e(Error::InvalidPermission),
        e(Error::InternalServerError),
        e(Error::ServiceUnavailable),
    ]
}

#[test]
fn error_messages() {
    let expected = [
        "Invalid request: d (source: s)",
        "Entity not found: d (source: s)",
        "Conflicted: d (source: s)",
        "Missing API key: d (source: s)",
        "Invalid API key: d (source: s)",
        "Invalid authorization scheme: d (source: s)",
        "Missing token: d (source: s)",
        "Invalid token: d (source: s)",
        "Invalid permission: d (source: s)",
        "Internal server error: d (source: s)",
        "Service unavailable: d (source: s)",
    ];
    for (e, m) in all_errors().iter().zip(expected) {
        assert_eq!(e.to_string(), m);
    }
}

#[test]
fn error_status_codes() {
    let expected = [400u16, 404, 409, 401, 401, 401, 401, 401, 403, 500, 503];
    for (e, c) in all_errors().iter().zip(expected) {
        assert_eq!(e.status_code(), c);
    }
}

#[test]
fn error_reports_carry_kind_detail_source_and_code() {
    let kinds = [
        "invalid_request",
        "entity_not_found",
        "conflicted",
        "missing_api_key",
        "invalid_api_key",
        "invalid_authorization_scheme",
        "missing_token",
        "invalid_token",
        "invalid_permission",
        "internal_server_error",
        "service_unavailable",
    ];
    for (e, k) in all_errors().iter().zip(kinds) {
        let report = ErrorType::with_id(e, Uuid::from_u128(7));
        assert_eq!(report.id, Uuid::from_u128(7));
        assert_eq!(report.error_type, k);
        assert_eq!(report.detail, "d");
        assert_eq!(report.source, "s");
        assert_eq!(report.code, e.status_code() as i64);
    }
}

#[test]
fn error_reports_get_fresh_identifiers() {
    let e = Error::Conflicted("x".to_string(), "y".to_string());
    let a = ErrorType::from(&e).unwrap();
    let b = ErrorType::from(&e).unwrap();
    assert_ne!(a.id, b.id);
    assert_eq!(a.code, 409);
    for id in [a.id, b.id] {
        let parsed = uuid::Uuid::from_u128(id.as_u128());
        assert_eq!(parsed.get_version_num(), 4);
        assert_eq!(parsed.get_variant(), uuid::Variant::RFC4122);
    }
}

#[test]
fn report_status_codes_fall_back_to_500() {
    let statuses: Vec<u16> = all_errors()
        .iter()
        .map(|e| ErrorType::with_id(e, Uuid::from_u128(1)).to_status_code())
        .collect();
    assert_eq!(statuses, vec![400, 404, 500, 401, 401, 401, 401, 401, 403, 500, 500]);
    let mut report = ErrorType::with_id(&all_errors()[0], Uuid::from_u128(1));
    report.code = 405;
    assert_eq!(report.to_status_code(), 405);
}

#[test]
fn error_response_has_the_status_of_its_report() {
    let e = Error::EntityNotFound("gone".to_string(), "test".to_string());
    let response = ErrorResponseType::new(ErrorType::from(&e).unwrap(), None);
    assert_eq!(response.status_code(), 404);
    let (version, error, data, meta) = response.into_parts();
    assert_eq!(version, mysk_lib::common::response::API_VERSION);
    assert_eq!(error.detail, "gone");
    assert!(data.is_none());
    assert!(meta.is_none());
}

#[test]
fn database_failures_map_to_errors() {
    match Error::from_database_failure(DatabaseFailure::Database("duplicate key".to_string()), false) {
        Error::InvalidRequest(d, s) => {
            assert_eq!(d, "duplicate key");
            assert_eq!(s, "SQLx");
        }
        other => panic!("unexpected {}", other.to_string()),
    }
    assert!(matches!(
        Error::from_database_failure(DatabaseFailure::RowNotFound, true),
        Error::EntityNotFound(d, s) if d == "Entity not found" && s == "SQLx"
    ));
    assert!(matches!(
        Error::from_database_failure(DatabaseFailure::Unavailable, true),
        Error::ServiceUnavailable(d, s) if d == "Service unavailable" && s == "SQLx"
    ));
    assert!(matches!(
        Error::from_database_failure(DatabaseFailure::Other("boom".to_string()), true),
        Error::InternalServerError(d, _) if d == "boom"
    ));
    assert!(matches!(
        Error::from_database_failure(DatabaseFailure::Other("boom".to_string()), false),
        Error::InternalServerError(d, _) if d == "Internal server error"
    ));
}

#[test]
fn outside_failures_map_to_internal_errors() {
    assert!(matches!(
        Error::from_query_string_failure("bad".to_string(), true),
        Error::InternalServerError(d, s) if d == "bad" && s == "/auth/oauth/google (serde_qs)"
    ));
    assert!(matches!(
        Error::from_query_string_failure("bad".to_string(), false),
        Error::InternalServerError(d, s) if d == "Internal server error" && s == "/auth/oauth/google"
    ));
    assert!(matches!(
        Error::from_http_client_failure("timeout".to_string(), true),
        Error::InternalServerError(d, s) if d == "timeout" && s == "reqwest"
    ));
    assert!(matches!(
        Error::from_token_failure("expired".to_string(), false),
        Error::InternalServerError(d, s) if d == "Internal server error" && s == "jsonwebtoken"
    ));
    assert!(matches!(
        Error::from_cancelled_task(),
        Error::InternalServerError(d, s) if d == "Internal server error" && s == "Tokio"
    ));
}
