use bws_rest_proxy::{classify, classify_with, not_found_handler, ErrorMessage, StatusCode, UpstreamFailure};

fn status(code: u16) -> StatusCode {
    StatusCode::from_u16(code).unwrap()
}

fn detail(text: &str) -> String {
    text.to_string()
}

fn assert_error(error: &ErrorMessage, code: u16, message: &str) {
    assert_eq!(error.code.as_u16(), code);
    assert_eq!(error.message, message);
}

#[test]
fn not_authenticated_is_401_with_fixed_message() {
    assert_error(&classify(UpstreamFailure::NotAuthenticated), 401, "Unauthorized");
}

#[test]
fn vault_locked_is_423_with_fixed_message() {
    assert_error(&classify(UpstreamFailure::VaultLocked), 423, "Vault Locked");
}

#[test]
fn access_token_invalid_is_401_with_detail() {
    let cause = UpstreamFailure::AccessTokenInvalid { detail: detail("Has the wrong number of parts") };
    assert_error(&classify(cause), 401, "Has the wrong number of parts");
}

#[test]
fn invalid_response_is_422_with_fixed_message() {
    assert_error(&classify(UpstreamFailure::InvalidResponse), 422, "Invalid Response");
}

#[test]
fn missing_fields_is_422_with_fixed_message() {
    assert_error(&classify(UpstreamFailure::MissingFields), 422, "Missing Fields");
}

#[test]
fn crypto_is_401_with_detail() {
    let cause = UpstreamFailure::Crypto { detail: detail("The cipher's MAC doesn't match the expected value") };
    assert_error(&classify(cause), 401, "The cipher's MAC doesn't match the expected value");
}

#[test]
fn invalid_enc_string_is_401_with_detail() {
    let cause = UpstreamFailure::InvalidEncString { detail: detail("No type detected, missing '.' separator") };
    assert_error(&classify(cause), 401, "No type detected, missing '.' separator");
}

#[test]
fn identity_fail_is_401_with_detail() {
    let cause = UpstreamFailure::IdentityFail { detail: detail("invalid_client") };
    assert_error(&classify(cause), 401, "invalid_client");
}

#[test]
fn transport_failure_is_500_without_detail() {
    let cause = UpstreamFailure::Reqwest { detail: detail("connection refused: 10.0.0.7:443") };
    assert_error(&classify(cause), 500, "Internal Server Error");
}

#[test]
fn serialization_failure_is_500_without_detail() {
    let cause = UpstreamFailure::Serde { detail: detail("expected value at line 1 column 1") };
    assert_error(&classify(cause), 500, "Internal Server Error");
}

#[test]
fn io_failure_is_500_without_detail() {
    let cause = UpstreamFailure::Io { detail: detail("/var/run/state: permission denied") };
    assert_error(&classify(cause), 500, "Internal Server Error");
}

#[test]
fn base64_failure_is_500_without_detail() {
    let cause = UpstreamFailure::InvalidBase64 { detail: detail("Invalid byte 61, offset 3.") };
    assert_error(&classify(cause), 500, "Internal Server Error");
}

#[test]
fn date_parse_failure_is_500_without_detail() {
    let cause = UpstreamFailure::Chrono { detail: detail("input contains invalid characters") };
    assert_error(&classify(cause), 500, "Internal Server Error");
}

#[test]
fn state_file_version_is_500() {
    assert_error(&classify(UpstreamFailure::InvalidStateFileVersion), 500, "Internal Server Error");
}

#[test]
fn state_file_is_500() {
    assert_error(&classify(UpstreamFailure::InvalidStateFile), 500, "Internal Server Error");
}

#[test]
fn internal_failure_is_500_without_detail() {
    let cause = UpstreamFailure::Internal { detail: detail("poisoned lock") };
    assert_error(&classify(cause), 500, "Internal Server Error");
}

#[test]
fn upstream_error_passes_status_and_message_through() {
    let cause = UpstreamFailure::ResponseContent {
        status: status(429),
        message: detail("{\"message\": \"rate limited\"}"),
    };
    assert_error(&classify(cause), 429, "rate limited");
}

#[test]
fn upstream_error_with_unparsable_body_forwards_body() {
    let cause = UpstreamFailure::ResponseContent { status: status(429), message: detail("oops") };
    assert_error(&classify(cause), 429, "oops");
}

#[test]
fn upstream_error_without_message_member_forwards_body() {
    let body = "{\"error\": \"rate limited\"}";
    let cause = UpstreamFailure::ResponseContent { status: status(503), message: detail(body) };
    assert_error(&classify(cause), 503, body);
}

#[test]
fn upstream_error_with_message_that_is_no_string_forwards_body() {
    let body = "{\"message\": 17}";
    let cause = UpstreamFailure::ResponseContent { status: status(404), message: detail(body) };
    assert_error(&classify(cause), 404, body);
}

#[test]
fn upstream_error_that_is_no_object_forwards_body() {
    let body = "[\"rate limited\"]";
    let cause = UpstreamFailure::ResponseContent { status: status(429), message: detail(body) };
    assert_error(&classify(cause), 429, body);
}

#[test]
fn upstream_error_ignores_other_members() {
    let body = "{\"object\": \"error\", \"message\": \"Resource not found.\", \"validationErrors\": null}";
    let cause = UpstreamFailure::ResponseContent { status: status(404), message: detail(body) };
    assert_error(&classify(cause), 404, "Resource not found.");
}

#[test]
fn upstream_error_message_is_unescaped() {
    let body = "{\"message\": \"a \\\"quoted\\\" word\"}";
    let cause = UpstreamFailure::ResponseContent { status: status(400), message: detail(body) };
    assert_error(&classify(cause), 400, "a \"quoted\" word");
}

#[test]
fn classify_with_reads_the_extracted_message_only_for_upstream_errors() {
    let upstream = UpstreamFailure::ResponseContent { status: status(429), message: detail("body") };
    assert_error(&classify_with(upstream, Some(detail("found"))), 429, "found");
    let upstream = UpstreamFailure::ResponseContent { status: status(429), message: detail("body") };
    assert_error(&classify_with(upstream, None), 429, "body");
    assert_error(&classify_with(UpstreamFailure::VaultLocked, Some(detail("found"))), 423, "Vault Locked");
    let token = UpstreamFailure::AccessTokenInvalid { detail: detail("Is the wrong version") };
    assert_error(&classify_with(token, Some(detail("found"))), 401, "Is the wrong version");
}

#[test]
fn unmatched_path_is_404() {
    assert_error(&not_found_handler(), 404, "Not Found");
}

#[test]
fn error_message_clone_keeps_both_fields() {
    let error = classify(UpstreamFailure::VaultLocked);
    let copy = error.clone();
    assert_error(&copy, 423, "Vault Locked");
}

#[test]
fn status_code_accepts_100_to_999() {
    assert!(StatusCode::from_u16(99).is_none());
    assert_eq!(StatusCode::from_u16(100).unwrap().as_u16(), 100);
    assert_eq!(StatusCode::from_u16(999).unwrap().as_u16(), 999);
    assert!(StatusCode::from_u16(1000).is_none());
    assert!(StatusCode::from_u16(0).is_none());
}

#[test]
fn status_code_constants() {
    assert_eq!(StatusCode::ok().as_u16(), 200);
    assert_eq!(StatusCode::bad_request().as_u16(), 400);
    assert_eq!(StatusCode::unauthorized().as_u16(), 401);
    assert_eq!(StatusCode::not_found().as_u16(), 404);
    assert_eq!(StatusCode::unprocessable_entity().as_u16(), 422);
    assert_eq!(StatusCode::locked().as_u16(), 423);
    assert_eq!(StatusCode::internal_server_error().as_u16(), 500);
    assert_eq!(StatusCode::ok(), StatusCode::from_u16(200).unwrap());
}
