use rustman::output::decimal_string;
use rustman::output::format_status_line;
use rustman::output::response_body_heading;
use rustman::text::eq_lowercase;

#[test]
fn status_line_for_a_success_code() {
    assert_eq!(format_status_line(200), "RESPONSE STATUS CODE: 200");
}

#[test]
fn status_line_for_other_codes() {
    assert_eq!(format_status_line(404), "RESPONSE STATUS CODE: 404");
    assert_eq!(format_status_line(500), "RESPONSE STATUS CODE: 500");
}

#[test]
fn decimal_rendering_covers_the_edges() {
    assert_eq!(decimal_string(0), "0");
    assert_eq!(decimal_string(7), "7");
    assert_eq!(decimal_string(10), "10");
    assert_eq!(decimal_string(101), "101");
    assert_eq!(decimal_string(65535), "65535");
}

#[test]
fn body_heading_is_fixed() {
    assert_eq!(response_body_heading(), "RESPONSE BODY");
}

#[test]
fn lowercase_matching_ignores_ascii_case_only() {
    assert!(eq_lowercase("BEARER", "bearer"));
    assert!(eq_lowercase("BeArEr", "bearer"));
    assert!(eq_lowercase("bearer", "bearer"));
    assert!(!eq_lowercase("bearer ", "bearer"));
    assert!(!eq_lowercase("bear", "bearer"));
    assert!(!eq_lowercase("basic", "bearer"));
    assert!(!eq_lowercase("", "bearer"));
    assert!(eq_lowercase("", ""));
    // A non-ASCII character matches only itself.
    assert!(!eq_lowercase("b\u{00c9}arer", "bearer"));
    assert!(eq_lowercase("b\u{00e9}arer", "b\u{00e9}arer"));
}
