use rustman::config::build_configuration;
use rustman::config::HttpMethod;
use rustman::config::RawArguments;
use rustman::request::build_request;
use rustman::request::BuiltRequest;

fn arguments(
    method: &str,
    url: &str,
    body: Option<&str>,
    file: Option<&str>,
    content_type: Option<&str>,
    auth_type: Option<&str>,
    auth_value: Option<&str>,
) -> RawArguments {
    RawArguments {
        http_method: Some(method.to_string()),
        request_body: body.map(|s| s.to_string()),
        request_file: file.map(|s| s.to_string()),
        request_content_type: content_type.map(|s| s.to_string()),
        request_url: Some(url.to_string()),
        auth_type: auth_type.map(|s| s.to_string()),
        auth_value: auth_value.map(|s| s.to_string()),
    }
}

fn header_value<'a>(request: &'a BuiltRequest, name: &str) -> Option<&'a str> {
    request
        .headers
        .iter()
        .find(|h| h.name == name)
        .map(|h| h.value.as_str())
}

#[test]
fn get_request_matches_configuration() {
    let config =
        build_configuration(arguments("get", "https://example.test/items", None, None, None, None, None))
            .unwrap();
    let request = build_request(&config, None);
    assert_eq!(request.method, HttpMethod::Get);
    assert_eq!(request.url, "https://example.test/items");
    assert!(request.body.is_empty());
    assert_eq!(header_value(&request, "content-type"), None);
    assert_eq!(header_value(&request, "Authorization"), None);
}

#[test]
fn delete_request_attaches_no_body_or_content_type() {
    let config = build_configuration(arguments(
        "delete",
        "http://example.test/items/7",
        None,
        None,
        None,
        None,
        None,
    ))
    .unwrap();
    let request = build_request(&config, None);
    assert_eq!(request.method, HttpMethod::Delete);
    assert!(request.body.is_empty());
    assert_eq!(header_value(&request, "content-type"), None);
}

#[test]
fn post_request_carries_exact_body_and_content_type() {
    let config = build_configuration(arguments(
        "post",
        "https://example.test/items",
        Some("{\"a\":1}"),
        None,
        Some("application/json"),
        None,
        None,
    ))
    .unwrap();
    let request = build_request(&config, None);
    assert_eq!(request.method, HttpMethod::Post);
    assert_eq!(request.url, "https://example.test/items");
    assert_eq!(request.body, b"{\"a\":1}".to_vec());
    assert_eq!(header_value(&request, "content-type"), Some("application/json"));
}

#[test]
fn put_and_patch_carry_a_body_too() {
    for (name, method) in [("put", HttpMethod::Put), ("patch", HttpMethod::Patch)] {
        let config = build_configuration(arguments(
            name,
            "https://example.test/items/7",
            Some("hello"),
            None,
            Some("text/plain"),
            None,
            None,
        ))
        .unwrap();
        let request = build_request(&config, None);
        assert_eq!(request.method, method);
        assert_eq!(request.body, b"hello".to_vec());
        assert_eq!(header_value(&request, "content-type"), Some("text/plain"));
    }
}

#[test]
fn authorization_header_keeps_case_as_supplied() {
    let config = build_configuration(arguments(
        "get",
        "https://example.test/items",
        None,
        None,
        None,
        Some("bearer"),
        Some("XYZ"),
    ))
    .unwrap();
    let request = build_request(&config, None);
    assert_eq!(header_value(&request, "Authorization"), Some("bearer XYZ"));
}

#[test]
fn authorization_header_for_capitalized_basic() {
    let config = build_configuration(arguments(
        "post",
        "https://example.test/items",
        Some("x=1"),
        None,
        Some("application/x-www-form-urlencoded"),
        Some("Basic"),
        Some("dXNlcjpwYXNz"),
    ))
    .unwrap();
    let request = build_request(&config, None);
    assert_eq!(header_value(&request, "Authorization"), Some("Basic dXNlcjpwYXNz"));
    assert_eq!(
        header_value(&request, "content-type"),
        Some("application/x-www-form-urlencoded")
    );
}

#[test]
fn file_bytes_round_trip_into_the_body_unchanged() {
    let config = build_configuration(arguments(
        "post",
        "https://example.test/upload",
        None,
        Some("payload.bin"),
        Some("application/octet-stream"),
        None,
        None,
    ))
    .unwrap();
    let bytes = vec![0u8, 1, 2, 254, 255, 7, 0, 42];
    let request = build_request(&config, Some(bytes.clone()));
    assert_eq!(request.body, bytes);
}

#[test]
fn empty_file_round_trips_to_an_empty_body() {
    let config = build_configuration(arguments(
        "put",
        "https://example.test/upload",
        None,
        Some("empty.bin"),
        Some("application/octet-stream"),
        None,
        None,
    ))
    .unwrap();
    let request = build_request(&config, Some(Vec::new()));
    assert!(request.body.is_empty());
}

#[test]
fn inline_body_is_passed_through_verbatim() {
    let config = build_configuration(arguments(
        "post",
        "https://example.test/items",
        Some("line one\nline \"two\" \u{00e9}"),
        None,
        Some("text/plain"),
        None,
        None,
    ))
    .unwrap();
    let request = build_request(&config, None);
    assert_eq!(request.body, "line one\nline \"two\" \u{00e9}".as_bytes().to_vec());
}

#[test]
fn headers_come_in_order_content_type_then_authorization() {
    let config = build_configuration(arguments(
        "post",
        "https://example.test/items",
        Some("{}"),
        None,
        Some("application/json"),
        Some("bearer"),
        Some("token123"),
    ))
    .unwrap();
    let request = build_request(&config, None);
    assert_eq!(request.headers.len(), 2);
    assert_eq!(request.headers[0].name, "content-type");
    assert_eq!(request.headers[0].value, "application/json");
    assert_eq!(request.headers[1].name, "Authorization");
    assert_eq!(request.headers[1].value, "bearer token123");
}

#[test]
fn method_names_match_the_request_line() {
    assert_eq!(HttpMethod::Get.as_str(), "GET");
    assert_eq!(HttpMethod::Post.as_str(), "POST");
    assert_eq!(HttpMethod::Put.as_str(), "PUT");
    assert_eq!(HttpMethod::Patch.as_str(), "PATCH");
    assert_eq!(HttpMethod::Delete.as_str(), "DELETE");
}
