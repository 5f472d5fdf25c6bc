use termii_rust::common::errors::HttpError;
use termii_rust::http::client::{HttpClient, Method, Request, API_KEY, BASE_URL};
use termii_rust::http::response::response_or_error_text;

#[test]
fn timeout_of_zero_is_refused() {
    assert!(matches!(HttpClient::new(0), Err(HttpError::InvalidTimeout(0))));
}

#[test]
fn timeout_of_one_is_accepted() {
    let client = HttpClient::new(1).unwrap();
    assert_eq!(client.timeout(), 1);
}

#[test]
fn large_timeout_is_kept() {
    let client = HttpClient::new(u64::MAX).unwrap();
    assert_eq!(client.timeout(), u64::MAX);
}

#[test]
fn names_are_what_the_service_expects() {
    assert_eq!(BASE_URL, "https://api.ng.termii.com/api/");
    assert_eq!(API_KEY, "api_key");
}

#[test]
fn get_joins_the_path_onto_the_base() {
    let client = HttpClient::new(20).unwrap();
    let request = client.get("sender-id", Some(vec![("api_key", "k"), ("page", "2")]), None).unwrap();
    assert_eq!(request.method, Method::Get);
    assert_eq!(request.url, "https://api.ng.termii.com/api/sender-id");
    assert_eq!(request.timeout, 20);
    assert_eq!(request.params, Some(vec![("api_key", "k"), ("page", "2")]));
    assert_eq!(request.data, None);
}

#[test]
fn get_ignores_headers() {
    let client = HttpClient::new(5).unwrap();
    let request = client.get("get-balance", None, Some(vec![("accept", "text/plain")])).unwrap();
    assert_eq!(request.url, "https://api.ng.termii.com/api/get-balance");
    assert_eq!(request.params, None);
}

#[test]
fn post_carries_the_body() {
    let client = HttpClient::new(3).unwrap();
    let request = client.post("sms/send", None, None, Some(String::from("body"))).unwrap();
    assert_eq!(request.method, Method::Post);
    assert_eq!(request.url, "https://api.ng.termii.com/api/sms/send");
    assert_eq!(request.timeout, 3);
    assert_eq!(request.params, None);
    assert_eq!(request.data, Some(String::from("body")));
}

#[test]
fn patch_carries_the_body() {
    let client = HttpClient::new(3).unwrap();
    let request = client.patch("phonebooks/abc", None, None, Some(7u32)).unwrap();
    assert_eq!(request.method, Method::Patch);
    assert_eq!(request.url, "https://api.ng.termii.com/api/phonebooks/abc");
    assert_eq!(request.data, Some(7));
}

#[test]
fn delete_has_no_body() {
    let client = HttpClient::new(3).unwrap();
    let request = client.delete("phonebooks/abc", None, None).unwrap();
    assert_eq!(request.method, Method::Delete);
    assert_eq!(request.url, "https://api.ng.termii.com/api/phonebooks/abc");
    assert_eq!(request.params, None);
    assert_eq!(request.data, None);
}

#[test]
fn path_that_does_not_join_is_a_url_error() {
    let client = HttpClient::new(3).unwrap();
    match client.get("https://", None, None) {
        Err(HttpError::UrlParseError(message)) => assert!(!message.is_empty()),
        other => panic!("unexpected outcome: {:?}", other),
    }
}

#[test]
fn assemble_wraps_the_joined_address() {
    let request: Request<'_, u8> =
        Request::assemble(Ok(String::from("https://host/a")), Method::Get, 9, None, None).unwrap();
    assert_eq!(request.method, Method::Get);
    assert_eq!(request.url, "https://host/a");
    assert_eq!(request.timeout, 9);
    assert_eq!(request.params, None);
    assert_eq!(request.data, None);
}

#[test]
fn assemble_wraps_the_parser_message() {
    let outcome: Result<Request<'_, u8>, HttpError> =
        Request::assemble(Err(String::from("empty host")), Method::Post, 9, None, Some(1));
    match outcome {
        Err(HttpError::UrlParseError(message)) => assert_eq!(message, "empty host"),
        other => panic!("unexpected outcome: {:?}", other),
    }
}

#[test]
fn decoded_body_is_handed_on() {
    let outcome = response_or_error_text(200, String::from("{\"a\":1}"), Some(1u8));
    assert_eq!(outcome.unwrap(), 1);
}

#[test]
fn undecoded_body_keeps_status_and_text() {
    let outcome: Result<u8, HttpError> =
        response_or_error_text(401, String::from("{\"message\":\"Invalid key\"}"), None);
    match outcome {
        Err(HttpError::JsonError { status, message }) => {
            assert_eq!(status, 401);
            assert_eq!(message, "{\"message\":\"Invalid key\"}");
        }
        other => panic!("unexpected outcome: {:?}", other),
    }
}
