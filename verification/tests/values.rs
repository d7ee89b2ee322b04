use mysk_lib::common::string::{FlexibleMultiLangString, MultiLangString};
use mysk_lib::helpers::date::{
    get_current_academic_year, get_current_date, get_current_semester, is_jaturamitr_date,
    is_today_jaturamitr,
};
use mysk_lib::ids::{Date, Uuid};
use mysk_lib::models::auth::user::UserRoles;
use mysk_lib::models::common::enums::SubmissionStatus;
use mysk_lib::models::contact::enums::ContactType;

#[test]
fn submission_status_names() {
    for (s, n) in [
        (SubmissionStatus::Pending, "pending"),
        (SubmissionStatus::Approved, "approved"),
        (SubmissionStatus::Declined, "declined"),
    ] {
        assert_eq!(s.to_string(), n);
        assert_eq!(SubmissionStatus::parse(n), Some(s));
    }
    assert_eq!(SubmissionStatus::parse("Pending"), None);
    assert_eq!(SubmissionStatus::parse(""), None);
}

#[test]
fn contact_type_names() {
    for (t, n) in [
        (ContactType::Phone, "phone"),
        (ContactType::Email, "email"),
        (ContactType::Facebook, "facebook"),
        (ContactType::Line, "line"),
        (ContactType::Instagram, "instagram"),
        (ContactType::Website, "website"),
        (ContactType::Discord, "discord"),
        (ContactType::Other, "other"),
    ] {
        assert_eq!(t.to_string(), n);
        assert_eq!(ContactType::parse(n), Some(t));
    }
    assert_eq!(ContactType::parse("telegram"), None);
}

#[test]
fn user_roles_are_stored_quoted() {
    assert_eq!(UserRoles::Teacher.to_string(), "\"teacher\"");
    assert_eq!(UserRoles::Student.to_string(), "\"student\"");
    assert_eq!(UserRoles::from_string("\"teacher\""), UserRoles::Teacher);
    assert_eq!(UserRoles::from_string("\"student\""), UserRoles::Student);
    assert_eq!(UserRoles::from_string("teacher"), UserRoles::Student);
    assert_eq!(UserRoles::from_string("admin"), UserRoles::Student);
    for r in [UserRoles::Teacher, UserRoles::Student] {
        assert_eq!(UserRoles::from_string(&r.to_string()), r);
    }
}

#[test]
fn academic_year_starts_in_april() {
    assert_eq!(get_current_academic_year(Some(Date::new(2024, 1, 15))), Some(2023));
    assert_eq!(get_current_academic_year(Some(Date::new(2024, 3, 31))), Some(2023));
    assert_eq!(get_current_academic_year(Some(Date::new(2024, 4, 1))), Some(2024));
    assert_eq!(get_current_academic_year(Some(Date::new(2024, 12, 31))), Some(2024));
}

#[test]
fn semesters() {
    assert_eq!(get_current_semester(Some(Date::new(2024, 3, 31))), Some(2));
    assert_eq!(get_current_semester(Some(Date::new(2024, 4, 1))), Some(1));
    assert_eq!(get_current_semester(Some(Date::new(2024, 9, 30))), Some(1));
    assert_eq!(get_current_semester(Some(Date::new(2024, 10, 1))), Some(2));
    assert_eq!(get_current_semester(Some(Date::new(2024, 1, 1))), Some(2));
}

#[test]
fn today_is_a_valid_date() {
    let d = get_current_date().unwrap();
    assert!((1..=12).contains(&d.month));
    assert!((1..=31).contains(&d.day));
    assert!(d.year >= 2024);
    let y = get_current_academic_year(None).unwrap();
    assert!(y == i64::from(d.year) || y == i64::from(d.year) - 1 || y == i64::from(d.year) - 2);
    let s = get_current_semester(None).unwrap();
    assert!(s == 1 || s == 2);
    assert_eq!(is_today_jaturamitr(), Some(is_jaturamitr_date(get_current_date().unwrap())));
}

#[test]
fn jaturamitr_days() {
    assert!(is_jaturamitr_date(Date::new(2025, 11, 14)));
    assert!(is_jaturamitr_date(Date::new(2025, 11, 15)));
    assert!(is_jaturamitr_date(Date::new(2025, 11, 22)));
    assert!(!is_jaturamitr_date(Date::new(2025, 11, 16)));
    assert!(!is_jaturamitr_date(Date::new(2024, 11, 14)));
    assert!(!is_jaturamitr_date(Date::new(2025, 10, 14)));
}

#[test]
fn multi_language_strings() {
    let m = MultiLangString::new("ไทย".to_string(), Some("Thai".to_string()));
    assert_eq!(m.th, "ไทย");
    assert_eq!(m.en, Some("Thai".to_string()));
    let f = FlexibleMultiLangString::new(None, Some("x".to_string()));
    assert_eq!(f.th, None);
    assert_eq!(f.en, Some("x".to_string()));
    assert!(FlexibleMultiLangString::from_parts(None, None).is_none());
    let f = FlexibleMultiLangString::from_parts(Some("a".to_string()), None).unwrap();
    assert_eq!((f.th, f.en), (Some("a".to_string()), None));
    let f = FlexibleMultiLangString::from_parts(None, Some("b".to_string())).unwrap();
    assert_eq!((f.th, f.en), (None, Some("b".to_string())));
    let f = FlexibleMultiLangString::from_parts(Some("a".to_string()), Some("b".to_string())).unwrap();
    assert_eq!((f.th, f.en), (Some("a".to_string()), Some("b".to_string())));
}

#[test]
fn uuid_bits() {
    let u = Uuid::from_u128(0x870658c9_231d_454b_af62_86c0c7827ada);
    assert_eq!(u.as_u128(), 0x870658c9_231d_454b_af62_86c0c7827ada);
    assert_eq!(u.bits, 0x870658c9_231d_454b_af62_86c0c7827ada);
}

use mysk_lib::common::pagination::PaginationType;
use mysk_lib::common::response::ErrorType;
use mysk_lib::text::{i64_text, u64_text};

#[test]
fn numbers_in_decimal() {
    assert_eq!(u64_text(0), "0");
    assert_eq!(u64_text(7), "7");
    assert_eq!(u64_text(10), "10");
    assert_eq!(u64_text(1234567890), "1234567890");
    assert_eq!(u64_text(u64::MAX), u64::MAX.to_string());
    assert_eq!(i64_text(-42), "-42");
    assert_eq!(i64_text(0), "0");
    assert_eq!(i64_text(i64::MIN), i64::MIN.to_string());
    assert_eq!(i64_text(i64::MAX), i64::MAX.to_string());
}

#[test]
fn page_summary_text() {
    assert_eq!(
        PaginationType::new(2, 10, 35).to_string(),
        "{ first: 1, last: 4, next: Some(3), prev: Some(1), size: 10, total: 35 }"
    );
    assert_eq!(
        PaginationType::new(1, 10, 0).to_string(),
        "{ first: 1, last: 0, next: None, prev: None, size: 10, total: 0 }"
    );
}

#[test]
fn error_report_text() {
    let e = ErrorType {
        id: Uuid::from_u128(0x67e55044_10b1_426f_9247_bb680e5fe0c8),
        code: 404,
        error_type: "entity_not_found".to_string(),
        detail: "Entity not found".to_string(),
        source: "SQLx".to_string(),
    };
    assert_eq!(
        e.to_string(),
        "{ id: 67e55044-10b1-426f-9247-bb680e5fe0c8, code: 404, error_type: entity_not_found, detail: Entity not found, source: SQLx }"
    );
    let zero = ErrorType { id: Uuid::from_u128(1), code: -1, error_type: String::new(), detail: String::new(), source: String::new() };
    assert_eq!(
        zero.to_string(),
        "{ id: 00000000-0000-0000-0000-000000000001, code: -1, error_type: , detail: , source:  }"
    );
}

use mysk_lib::helpers::date::{date_at_offset, BANGKOK_UTC_OFFSET_SECONDS};
use mysk_lib::ids::Timestamp;

#[test]
fn dates_of_instants() {
    let epoch = Timestamp { before_epoch: false, secs: 0, nanos: 0 };
    assert_eq!(date_at_offset(epoch, 0), Some(Date::new(1970, 1, 1)));
    let evening = Timestamp { before_epoch: false, secs: 1_763_111_000, nanos: 0 };
    assert_eq!(date_at_offset(evening, 0), Some(Date::new(2025, 11, 14)));
    assert_eq!(date_at_offset(evening, BANGKOK_UTC_OFFSET_SECONDS), Some(Date::new(2025, 11, 14)));
    let late = Timestamp { before_epoch: false, secs: 1_763_139_600, nanos: 0 };
    assert_eq!(date_at_offset(late, 0), Some(Date::new(2025, 11, 14)));
    assert_eq!(date_at_offset(late, BANGKOK_UTC_OFFSET_SECONDS), Some(Date::new(2025, 11, 15)));
    let before = Timestamp { before_epoch: true, secs: 0, nanos: 1 };
    assert_eq!(date_at_offset(before, 0), Some(Date::new(1969, 12, 31)));
    let far = Timestamp { before_epoch: false, secs: u64::MAX, nanos: 0 };
    assert_eq!(date_at_offset(far, 0), None);
    let beyond_chrono = Timestamp { before_epoch: false, secs: 1 << 50, nanos: 0 };
    assert_eq!(date_at_offset(beyond_chrono, 0), None);
}

use mysk_lib::common::requests::FetchLevel;
use mysk_lib::models::common::top_level_variant::TopLevelVariant;

type Variant = TopLevelVariant<u8, u16, u32, u64>;

#[test]
fn records_are_built_at_the_requested_level() {
    assert_eq!(Variant::variant_level(None), FetchLevel::IdOnly);
    assert_eq!(Variant::variant_level(Some(FetchLevel::Detailed)), FetchLevel::Detailed);
    assert_eq!(Variant::descendant_levels(Some(FetchLevel::Compact)), (Some(FetchLevel::Compact), FetchLevel::IdOnly));
    assert_eq!(Variant::descendant_levels(None), (None, FetchLevel::IdOnly));
    assert_eq!(Variant::IdOnly(Box::new(1)).level(), FetchLevel::IdOnly);
    assert_eq!(Variant::Compact(Box::new(1)).level(), FetchLevel::Compact);
    assert_eq!(Variant::Default(Box::new(1)).level(), FetchLevel::Default);
    assert_eq!(Variant::Detailed(Box::new(1)).level(), FetchLevel::Detailed);
}

use mysk_lib::common::config::{config_from_values, host_text, ConfigValues};

fn some(s: &str) -> Option<String> {
    Some(s.to_string())
}

fn settings(host: Option<u8>, port: Option<String>, max_age: Option<String>) -> Result<ConfigValues<u8>, String> {
    config_from_values(
        some("https://mysk.school"),
        some("postgres://db"),
        some("id"),
        some("secret"),
        host,
        port,
        some("60m"),
        max_age,
        some("token-secret"),
    )
}

#[test]
fn settings_with_defaults() {
    assert_eq!(host_text(None), "0.0.0.0");
    assert_eq!(host_text(some("127.0.0.1")), "127.0.0.1");
    let c = settings(Some(1), None, some("3600")).unwrap();
    assert_eq!(c.port, 8000);
    assert_eq!(c.token_max_age, 3600);
    assert_eq!(c.host, 1);
    assert_eq!(c.client_origin, "https://mysk.school");
    assert_eq!(c.token_secret, "token-secret");
    assert_eq!(settings(Some(1), some("+80"), some("1")).unwrap().port, 80);
}

#[test]
fn settings_refused_in_order() {
    assert_eq!(
        config_from_values::<u8>(None, None, None, None, None, None, None, None, None).err(),
        some("CLIENT_ORIGIN must be set")
    );
    assert_eq!(settings(None, some("x"), None).err(), some("HOST must be a valid IP address"));
    assert_eq!(settings(Some(1), some("70000"), None).err(), some("PORT must be a valid port number"));
    assert_eq!(settings(Some(1), None, None).err(), some("TOKEN_MAXAGE must be set"));
    assert_eq!(settings(Some(1), None, some("-1")).err(), some("TOKEN_MAXAGE must be a positive integer"));
    let missing_secret = config_from_values(
        some("o"), some("d"), some("i"), None, Some(0u8), None, some("e"), some("1"), some("s"),
    );
    assert_eq!(missing_secret.err(), some("GOOGLE_OAUTH_CLIENT_SECRET must be set"));
}
