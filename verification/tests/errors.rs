use postgrest::error::{body_failure_message, request_failure_message};
use postgrest::reqwest::header::HeaderValue;
use postgrest::reqwest::{Client, ResponseBuilderExt, StatusCode, Url};
use postgrest::{DecodeError, ExecuteError, PostgrestError, ResponseMetadata};

fn metadata(status: u16) -> ResponseMetadata {
    let response = http::Response::builder()
        .status(status)
        .header("x-request-id", "request-123")
        .url(Url::parse("http://localhost:3000/items?select=*").unwrap())
        .body("")
        .unwrap();
    ResponseMetadata::from_response(&postgrest::reqwest::Response::from(response))
}

fn request_failure() -> postgrest::reqwest::Error {
    Client::new().get("not a url").build().unwrap_err()
}

fn postgrest_error(status: StatusCode) -> PostgrestError {
    let body = br#"{"code":"PGRST201","message":"ambiguous relationship","details":null,"hint":"disambiguate"}"#;
    PostgrestError::from_slice(status, body).unwrap()
}

fn decode_error(status: StatusCode) -> DecodeError {
    PostgrestError::from_slice(status, b"upstream failure: \xff").unwrap_err()
}

#[test]
fn metadata_retains_response_parts() {
    let metadata = metadata(503);
    assert_eq!(metadata.status(), StatusCode::SERVICE_UNAVAILABLE);
    assert_eq!(
        metadata.headers()["x-request-id"],
        HeaderValue::from_static("request-123")
    );
    assert_eq!(metadata.url().path(), "/items");
    assert_eq!(metadata.url().query(), Some("select=*"));
}

#[test]
fn request_failure_has_no_metadata() {
    let error = ExecuteError::Request(request_failure());
    assert!(error.response_metadata().is_none());
    assert_eq!(error.status(), None);
    assert!(error.url().is_none());
}

#[test]
fn structured_error_reports_response_status_and_url() {
    let error = ExecuteError::Postgrest {
        metadata: metadata(300),
        source: postgrest_error(StatusCode::MULTIPLE_CHOICES),
    };
    assert_eq!(error.status(), Some(StatusCode::MULTIPLE_CHOICES));
    assert_eq!(error.url().unwrap().path(), "/items");
    assert_eq!(error.url().unwrap().query(), Some("select=*"));
    let metadata = error.response_metadata().unwrap();
    assert_eq!(metadata.status(), StatusCode::MULTIPLE_CHOICES);
    assert_eq!(metadata.headers()["x-request-id"], "request-123");
}

#[test]
fn decode_error_reports_response_status() {
    let source = decode_error(StatusCode::BAD_GATEWAY);
    let source_text = source.to_string();
    let error = ExecuteError::Decode { metadata: metadata(502), source };
    assert_eq!(error.status(), Some(StatusCode::BAD_GATEWAY));
    assert_eq!(
        error.response_metadata().unwrap().headers()["x-request-id"],
        "request-123"
    );
    assert_eq!(error.to_string(), source_text);
}

#[test]
fn body_read_failure_reports_response_status() {
    let error = ExecuteError::ResponseBody {
        metadata: metadata(503),
        source: request_failure(),
    };
    assert_eq!(error.status(), Some(StatusCode::SERVICE_UNAVAILABLE));
    assert_eq!(error.url().unwrap().path(), "/items");
    assert!(error.response_metadata().is_some());
}

#[test]
fn request_failure_message_names_the_failure() {
    assert_eq!(
        request_failure_message("boom"),
        "failed to execute PostgREST request: boom"
    );
}

#[test]
fn body_failure_message_names_status_and_failure() {
    assert_eq!(
        body_failure_message("503 Service Unavailable", "boom"),
        "failed to read PostgREST response body with status 503 Service Unavailable: boom"
    );
}

#[test]
fn request_error_text_follows_prefix() {
    let source = request_failure();
    let source_text = source.to_string();
    let error = ExecuteError::Request(source);
    assert_eq!(
        error.to_string(),
        format!("failed to execute PostgREST request: {source_text}")
    );
}

#[test]
fn body_error_text_names_status() {
    let source = request_failure();
    let source_text = source.to_string();
    let error = ExecuteError::ResponseBody { metadata: metadata(503), source };
    assert_eq!(
        error.to_string(),
        format!("failed to read PostgREST response body with status 503 Service Unavailable: {source_text}")
    );
}

#[test]
fn structured_error_text_is_the_error_text() {
    let source = postgrest_error(StatusCode::MULTIPLE_CHOICES);
    let source_text = source.to_string();
    let error = ExecuteError::Postgrest { metadata: metadata(300), source };
    assert_eq!(error.to_string(), source_text);
    assert!(source_text.contains("PGRST201"));
}

#[test]
fn request_failure_reports_status_and_url_of_its_source() {
    let response = http::Response::builder()
        .status(404)
        .url(Url::parse("http://localhost:3000/missing").unwrap())
        .body("")
        .unwrap();
    let source = postgrest::reqwest::Response::from(response)
        .error_for_status()
        .unwrap_err();
    let error = ExecuteError::Request(source);
    assert_eq!(error.status(), Some(StatusCode::NOT_FOUND));
    assert_eq!(error.url().unwrap().path(), "/missing");
    assert!(error.response_metadata().is_none());
}

#[test]
fn metadata_copies_response_headers_and_url() {
    let response = http::Response::builder()
        .status(201)
        .header("x-request-id", "request-123")
        .header("content-type", "application/json")
        .url(Url::parse("http://localhost:3000/items").unwrap())
        .body("")
        .unwrap();
    let response = postgrest::reqwest::Response::from(response);
    let metadata = ResponseMetadata::from_response(&response);
    assert_eq!(metadata.status(), response.status());
    assert_eq!(metadata.headers(), response.headers());
    assert_eq!(metadata.url(), response.url());
}

#[test]
fn metadata_clone_keeps_parts() {
    let original = metadata(300);
    let copy = original.clone();
    assert_eq!(copy.status(), original.status());
    assert_eq!(copy.headers(), original.headers());
    assert_eq!(copy.url(), original.url());
}
