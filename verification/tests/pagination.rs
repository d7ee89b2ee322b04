use mysk_lib::common::pagination::{PaginationConfig, PaginationType};
use mysk_lib::error::Error;
use mysk_lib::query::{QueryParam, SqlFragment};

fn sql(s: &str) -> SqlFragment {
    SqlFragment::Sql(s.to_string())
}

#[test]
fn default_pagination_is_first_page_of_fifty() {
    let p = PaginationConfig::default();
    assert_eq!(p.p, 1);
    assert_eq!(p.size, Some(50));
}

#[test]
fn pagination_appends_limit_and_offset() {
    let mut q = vec![sql("SELECT 1")];
    PaginationConfig::new(3, Some(20)).append_into_query_builder(&mut q).unwrap();
    assert_eq!(
        q,
        vec![
            sql("SELECT 1"),
            sql(" LIMIT "),
            SqlFragment::Param(QueryParam::Int(20)),
            sql(" OFFSET "),
            SqlFragment::Param(QueryParam::Int(40)),
        ]
    );
}

#[test]
fn pagination_uses_default_size() {
    let mut q = Vec::new();
    PaginationConfig::new(2, None).append_into_query_builder(&mut q).unwrap();
    assert_eq!(q[1], SqlFragment::Param(QueryParam::Int(50)));
    assert_eq!(q[3], SqlFragment::Param(QueryParam::Int(50)));
}

#[test]
fn page_zero_is_refused() {
    let mut q = Vec::new();
    match PaginationConfig::new(0, Some(10)).append_into_query_builder(&mut q) {
        Err(Error::InvalidRequest(d, s)) => {
            assert_eq!(d, "Page number must be greater than zero");
            assert_eq!(s, "QueryDb::query");
        }
        _ => panic!("page 0 was accepted"),
    }
    assert!(q.is_empty());
}

#[test]
fn pagination_summary_of_a_middle_page() {
    let p = PaginationType::new(2, 10, 35);
    assert_eq!(p.first_p(), 1);
    assert_eq!(p.last_p(), 4);
    assert_eq!(p.next_p(), Some(3));
    assert_eq!(p.prev_p(), Some(1));
    assert_eq!(p.size(), 10);
    assert_eq!(p.total(), 35);
}

#[test]
fn pagination_summary_edges() {
    let first = PaginationType::new(1, 10, 30);
    assert_eq!(first.last_p(), 3);
    assert_eq!(first.prev_p(), None);
    assert_eq!(first.next_p(), Some(2));
    let last = PaginationType::new(3, 10, 30);
    assert_eq!(last.next_p(), None);
    let empty = PaginationType::new(1, 10, 0);
    assert_eq!(empty.last_p(), 0);
    assert_eq!(empty.next_p(), None);
}

#[test]
fn pagination_summary_with_zero_page_size() {
    assert_eq!(PaginationType::new(1, 0, 0).last_p(), 0);
    assert_eq!(PaginationType::new(1, 0, 5).last_p(), u32::MAX);
}

#[test]
fn page_count_matches_ceiling_division() {
    for (size, total) in [(1u32, 1u32), (3, 10), (7, 7), (50, 49), (u32::MAX, u32::MAX), (2, u32::MAX)] {
        let expected = (f64::from(total) / f64::from(size)).ceil() as u32;
        assert_eq!(PaginationType::new(1, size, total).last_p(), expected);
    }
}
