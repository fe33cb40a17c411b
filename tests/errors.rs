use reloop::error::{as_graphql_error, graphql_error};
use reloop::query::{MovieQuery, Paginated};
use reloop::status::Status;

#[test]
fn status_accepts_three_digit_codes_only() {
    assert!(Status::from_u16(99).is_none());
    assert!(Status::from_u16(1000).is_none());
    assert_eq!(Status::from_u16(100).unwrap().as_u16(), 100);
    assert_eq!(Status::from_u16(999).unwrap().as_u16(), 999);
}

#[test]
fn status_lines() {
    assert_eq!(Status::internal_server_error().to_line(), "500 Internal Server Error");
    assert_eq!(Status::from_u16(404).unwrap().to_line(), "404 Not Found");
    assert_eq!(Status::from_u16(599).unwrap().to_line(), "599 <unknown status code>");
}

#[test]
fn translated_error_keeps_the_reason() {
    let e = as_graphql_error("Failed to fetch resources", &Status::internal_server_error(), "timed out".to_string());
    assert_eq!(e.message, "Failed to fetch resources");
    assert_eq!(e.code, 500);
    assert_eq!(e.status, "500 Internal Server Error");
    assert_eq!(e.reason.as_deref(), Some("timed out"));
}

#[test]
fn plain_error_has_no_reason() {
    let e = graphql_error("gone".to_string(), &Status::from_u16(502).unwrap());
    assert_eq!(e.message, "gone");
    assert_eq!(e.code, 502);
    assert_eq!(e.status, "502 Bad Gateway");
    assert!(e.reason.is_none());
}

#[test]
fn resource_failure_becomes_fetch_error() {
    let r = MovieQuery.resource_result::<u32>(Err("connection refused".to_string()));
    let e = r.err().unwrap();
    assert_eq!(e.message, "Failed to fetch resources");
    assert!(e.code != 0 && !e.message.is_empty() && !e.status.is_empty());
    assert_eq!(e.reason.as_deref(), Some("connection refused"));
}

#[test]
fn resource_success_passes_through() {
    let p = Paginated { page: 2, results: vec![4u32, 5], total_results: 40, total_pages: 20 };
    let r = MovieQuery.resource_result(Ok(p)).ok().unwrap();
    assert_eq!((r.page, r.results, r.total_results, r.total_pages), (2, vec![4, 5], 40, 20));
}
