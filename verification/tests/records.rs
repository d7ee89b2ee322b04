use mysk_lib::cache::GlobalCache;
use mysk_lib::ids::{Date, Time, Timestamp, Uuid};
use mysk_lib::models::cheer_practice_period::db::DbCheerPracticePeriod;
use mysk_lib::models::classroom::db::DbClassroom;
use mysk_lib::models::classroom::fetch_levels::CompactClassroom;
use mysk_lib::models::club::db::DbClub;
use mysk_lib::models::club::fetch_levels::CompactClub;
use mysk_lib::models::contact::db::DbContact;
use mysk_lib::models::contact::enums::ContactType;
use mysk_lib::models::contact::fetch_levels::DefaultContact;

fn club(description_th: Option<&str>, description_en: Option<&str>) -> DbClub {
    DbClub {
        id: Uuid::from_u128(11),
        created_at: None,
        organization_id: Uuid::from_u128(12),
        accent_color: Some("#fff".to_string()),
        background_color: Some("#000".to_string()),
        description_en: description_en.map(str::to_string),
        description_th: description_th.map(str::to_string),
        logo_url: Some("logo.png".to_string()),
        member_count: 30,
        name_en: Some("Music".to_string()),
        name_th: "ดนตรี".to_string(),
        staff_count: 5,
    }
}

#[test]
fn compact_club_from_stored_club() {
    let c = CompactClub::from(club(Some("th"), None));
    assert_eq!(c.id, Uuid::from_u128(11));
    assert_eq!(c.name.th, "ดนตรี");
    assert_eq!(c.name.en, Some("Music".to_string()));
    let d = c.description.unwrap();
    assert_eq!(d.th, Some("th".to_string()));
    assert_eq!(d.en, None);
    assert_eq!(c.logo_url, Some("logo.png".to_string()));
    assert_eq!(c.background_color, Some("#000".to_string()));
    assert_eq!(c.member_count, 30);
    assert!(CompactClub::from(club(None, None)).description.is_none());
    let d = CompactClub::from(club(Some("a"), Some("b"))).description.unwrap();
    assert_eq!((d.th, d.en), (Some("a".to_string()), Some("b".to_string())));
}

#[test]
fn default_contact_from_stored_contact() {
    let stored = DbContact {
        id: Uuid::from_u128(5),
        created_at: Some(Timestamp { before_epoch: false, secs: 0, nanos: 0 }),
        name_th: None,
        name_en: Some("Office".to_string()),
        contact_type: ContactType::Phone,
        value: "021234567".to_string(),
    };
    let c = DefaultContact::from(stored);
    assert_eq!(c.id, Uuid::from_u128(5));
    let n = c.name.unwrap();
    assert_eq!((n.th, n.en), (None, Some("Office".to_string())));
    assert_eq!(c.contact_type, ContactType::Phone);
    assert_eq!(c.value, "021234567");
    let unnamed = DbContact {
        id: Uuid::from_u128(6),
        created_at: None,
        name_th: None,
        name_en: None,
        contact_type: ContactType::Email,
        value: "a@b".to_string(),
    };
    assert!(DefaultContact::from(unnamed).name.is_none());
}

#[test]
fn compact_classroom_from_stored_classroom() {
    let c = CompactClassroom::from(DbClassroom {
        id: Uuid::from_u128(9),
        created_at: None,
        number: 509,
        year: 2024,
        main_room: Some("1305".to_string()),
    });
    assert_eq!(c.id, Uuid::from_u128(9));
    assert_eq!(c.number, 509);
    assert_eq!(c.room, Some("1305".to_string()));
}

#[test]
fn jaturamitr_practice_periods() {
    for id in [
        0x870658c9_231d_454b_af62_86c0c7827ada_u128,
        0xa5b701d0_be27_4c52_a640_e23790457b61,
        0x0c18a3b9_3b7f_4c71_a380_1ad0c448e35a,
    ] {
        assert!(DbCheerPracticePeriod::in_jaturamitr_period(Uuid::from_u128(id)));
    }
    assert!(!DbCheerPracticePeriod::in_jaturamitr_period(Uuid::from_u128(1)));
    let p = DbCheerPracticePeriod {
        id: Uuid::from_u128(2),
        created_at: Timestamp { before_epoch: false, secs: 1, nanos: 0 },
        date: Date::new(2025, 11, 14),
        start_time: Time { hour: 7, minute: 30, second: 0, nanosecond: 0 },
        end_time: Time { hour: 8, minute: 0, second: 0, nanosecond: 0 },
        delay: Some(5),
        note: None,
    };
    assert!(!DbCheerPracticePeriod::in_jaturamitr_period(p.id));
}

#[test]
fn empty_cache_holds_nobody() {
    let c = GlobalCache::new();
    assert!(!c.contains_cheer_staff(Uuid::from_u128(1)));
    assert!(!c.contains_cheer_teacher(Uuid::from_u128(1)));
}

#[test]
fn populated_cache_holds_the_given_people() {
    let c = GlobalCache::new();
    let c = GlobalCache::populate_cache(c, vec![Uuid::from_u128(1), Uuid::from_u128(2)], vec![Uuid::from_u128(3)]);
    assert!(c.contains_cheer_staff(Uuid::from_u128(1)));
    assert!(c.contains_cheer_staff(Uuid::from_u128(2)));
    assert!(!c.contains_cheer_staff(Uuid::from_u128(3)));
    assert!(c.contains_cheer_teacher(Uuid::from_u128(3)));
    assert!(!c.contains_cheer_teacher(Uuid::from_u128(1)));
    let c = GlobalCache::populate_cache(c, vec![Uuid::from_u128(4), Uuid::from_u128(4)], vec![]);
    assert!(c.contains_cheer_staff(Uuid::from_u128(1)));
    assert!(c.contains_cheer_staff(Uuid::from_u128(4)));
    assert!(c.contains_cheer_teacher(Uuid::from_u128(3)));
}

use mysk_lib::common::requests::FilterConfig;
use mysk_lib::models::auth::key::ApiKey as StoredTextKey;
use mysk_lib::models::cheer_practice_attendance::db::DbCheerPracticeAttendance;
use mysk_lib::models::cheer_practice_attendance::fetch_levels::{
    DefaultCheerPracticeAttendance, IdOnlyCheerPracticeAttendance,
};
use mysk_lib::models::cheer_practice_attendance::request::QueryableCheerPracticeAttendance;
use mysk_lib::models::cheer_practice_period::fetch_levels::{
    DefaultCheerPracticePeriod, DetailedCheerPracticePeriod, IdOnlyCheerPracticePeriod,
};
use mysk_lib::models::classroom::fetch_levels::IdOnlyClassroom;
use mysk_lib::models::club::fetch_levels::{DefaultClub, DetailedClub, IdOnlyClub};
use mysk_lib::models::club_request::db::DbClubRequest;
use mysk_lib::models::club_request::fetch_levels::DefaultClubRequest;
use mysk_lib::models::common::enums::SubmissionStatus;
use mysk_lib::models::contact::fetch_levels::IdOnlyContact;
use mysk_lib::query::{QueryParam, SqlFragment};
use sha2::Digest;

fn period() -> DbCheerPracticePeriod {
    DbCheerPracticePeriod {
        id: Uuid::from_u128(21),
        created_at: Timestamp { before_epoch: false, secs: 7, nanos: 0 },
        date: Date::new(2025, 6, 2),
        start_time: Time { hour: 7, minute: 30, second: 0, nanosecond: 0 },
        end_time: Time { hour: 8, minute: 10, second: 0, nanosecond: 0 },
        delay: None,
        note: Some("rain plan".to_string()),
    }
}

fn attendance() -> DbCheerPracticeAttendance<u8> {
    DbCheerPracticeAttendance {
        id: Uuid::from_u128(31),
        created_at: Timestamp { before_epoch: false, secs: 8, nanos: 0 },
        practice_period_id: Uuid::from_u128(21),
        student_id: Uuid::from_u128(41),
        checker_id: None,
        presence: Some(1),
        presence_at_end: None,
        absence_reason: Some("sick".to_string()),
        disabled: false,
    }
}

#[test]
fn id_only_forms_keep_the_identifier() {
    assert_eq!(IdOnlyClub::from(club(None, None)).id, Uuid::from_u128(11));
    assert_eq!(IdOnlyCheerPracticePeriod::from(period()).id, Uuid::from_u128(21));
    assert_eq!(IdOnlyCheerPracticeAttendance::from(attendance()).id, Uuid::from_u128(31));
    let classroom = DbClassroom { id: Uuid::from_u128(3), created_at: None, number: 101, year: 2024, main_room: None };
    assert_eq!(IdOnlyClassroom::from(classroom).id, Uuid::from_u128(3));
    let contact = DbContact {
        id: Uuid::from_u128(4),
        created_at: None,
        name_th: None,
        name_en: None,
        contact_type: ContactType::Website,
        value: "https://sk.ac.th".to_string(),
    };
    assert_eq!(IdOnlyContact::from(contact).id, Uuid::from_u128(4));
}

#[test]
fn default_club_with_its_contacts() {
    let c = DefaultClub::from_relation(club(None, Some("en")), vec!["contact-a", "contact-b"]);
    assert_eq!(c.id, Uuid::from_u128(11));
    assert_eq!(c.name.th, "ดนตรี");
    let d = c.description.unwrap();
    assert_eq!((d.th, d.en), (None, Some("en".to_string())));
    assert_eq!(c.contacts, vec!["contact-a", "contact-b"]);
    assert_eq!(c.accent_color, Some("#fff".to_string()));
    assert_eq!(c.member_count, 30);
    assert_eq!(c.staff_count, 5);
}

#[test]
fn detailed_club_with_contacts_staff_and_members() {
    let c = DetailedClub::from_table(club(Some("th"), Some("en")), vec![1u8], vec!["s1"], vec!["m1", "m2"]);
    assert_eq!(c.contacts, vec![1u8]);
    assert_eq!(c.staffs, vec!["s1"]);
    assert_eq!(c.members, vec!["m1", "m2"]);
    assert_eq!(c.logo_url, Some("logo.png".to_string()));
    assert_eq!(c.background_color, Some("#000".to_string()));
    assert!(c.description.is_some());
}

#[test]
fn default_practice_period_with_classroom_ids() {
    let p = DefaultCheerPracticePeriod::from_relation(period(), vec![Uuid::from_u128(1), Uuid::from_u128(2)]);
    assert_eq!(p.id, Uuid::from_u128(21));
    assert_eq!(p.date, Date::new(2025, 6, 2));
    assert_eq!(p.start_time.minute, 30);
    assert_eq!(p.end_time.minute, 10);
    assert_eq!(p.delay, None);
    assert_eq!(p.note, Some("rain plan".to_string()));
    assert_eq!(p.classrooms, vec![Uuid::from_u128(1), Uuid::from_u128(2)]);
}

#[test]
fn detailed_practice_period_pairs_classrooms_with_attendances() {
    let p = DetailedCheerPracticePeriod::from_relation(period(), vec!["509", "510"], vec![vec![1, 2], vec![]]);
    assert_eq!(p.classrooms.len(), 2);
    assert_eq!(p.classrooms[0].classroom, "509");
    assert_eq!(p.classrooms[0].attendances, vec![1, 2]);
    assert_eq!(p.classrooms[1].classroom, "510");
    assert!(p.classrooms[1].attendances.is_empty());
    let short = DetailedCheerPracticePeriod::from_relation(period(), vec!["509", "510", "511"], vec![vec![9]]);
    assert_eq!(short.classrooms.len(), 1);
    assert_eq!(short.classrooms[0].attendances, vec![9]);
    let none = DetailedCheerPracticePeriod::<&str, u8>::from_relation(period(), vec![], vec![vec![1]]);
    assert!(none.classrooms.is_empty());
}

#[test]
fn default_club_request_with_club_and_student() {
    let stored = DbClubRequest {
        id: Uuid::from_u128(51),
        created_at: None,
        club_id: Uuid::from_u128(11),
        year: Some(2024),
        membership_status: SubmissionStatus::Pending,
        student_id: Uuid::from_u128(41),
    };
    let r = DefaultClubRequest::from_relation(stored, "club", "student");
    assert_eq!(r.id, Uuid::from_u128(51));
    assert_eq!(r.club, "club");
    assert_eq!(r.student, "student");
    assert_eq!(r.year, Some(2024));
    assert_eq!(r.membership_status, SubmissionStatus::Pending);
}

#[test]
fn default_attendance_with_student_and_period() {
    let a = DefaultCheerPracticeAttendance::from_relation(attendance(), "student", "period");
    assert_eq!(a.id, Uuid::from_u128(31));
    assert_eq!(a.student, "student");
    assert_eq!(a.practice_period, "period");
    assert_eq!(a.presence, Some(1));
    assert_eq!(a.presence_at_end, None);
    assert_eq!(a.absence_reason, Some("sick".to_string()));
    assert!(!a.disabled);
}

#[test]
fn attendance_shared_query() {
    let mut q = Vec::new();
    DbCheerPracticeAttendance::<u8>::build_shared_query(&mut q, None);
    assert!(q.is_empty());
    let f = QueryableCheerPracticeAttendance { ids: Some(vec![Uuid::from_u128(1)]), practice_period_id: None, classroom_id: None };
    DbCheerPracticeAttendance::<u8>::build_shared_query(&mut q, Some(FilterConfig { data: Some(f), q: None }));
    assert_eq!(
        q,
        vec![
            SqlFragment::Sql(" WHERE ".to_string()),
            SqlFragment::Sql("id = ANY(".to_string()),
            SqlFragment::Param(QueryParam::ArrayUuid(vec![Uuid::from_u128(1)])),
            SqlFragment::Sql(")".to_string()),
        ]
    );
}

#[test]
fn stored_hash_is_the_digest_read_as_text() {
    for token in ["6L5yRNPTuciSgXGHqYwn9N6NeoDywHBd", "", "abc"] {
        let expected = String::from_utf8(sha2::Sha256::digest(token.as_bytes()).to_vec()).ok();
        assert_eq!(StoredTextKey::stored_hash(token), expected);
    }
    assert_eq!(StoredTextKey::stored_hash("abc"), None);
}

#[test]
fn jaturamitr_period_identifiers_parse_as_written() {
    for text in [
        "870658c9-231d-454b-af62-86c0c7827ada",
        "a5b701d0-be27-4c52-a640-e23790457b61",
        "0c18a3b9-3b7f-4c71-a380-1ad0c448e35a",
    ] {
        let bits = uuid::Uuid::parse_str(text).unwrap().as_u128();
        assert!(DbCheerPracticePeriod::in_jaturamitr_period(Uuid::from_u128(bits)));
    }
}
