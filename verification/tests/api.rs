use cfpack::api::{check_status, i32_to_string, ApiError, Curseforge, ErrorStringify};

#[test]
fn decimal_rendering_exact_values() {
    assert_eq!(i32_to_string(0), "0");
    assert_eq!(i32_to_string(7), "7");
    assert_eq!(i32_to_string(123), "123");
    assert_eq!(i32_to_string(305000), "305000");
    assert_eq!(i32_to_string(-456), "-456");
    assert_eq!(i32_to_string(i32::MAX), "2147483647");
    assert_eq!(i32_to_string(i32::MIN), "-2147483648");
}

#[test]
fn status_success_passes_through() {
    assert!(matches!(check_status(200, "u"), Ok(200)));
    assert!(matches!(check_status(204, "u"), Ok(204)));
    assert!(matches!(check_status(299, "u"), Ok(299)));
}

#[test]
fn status_known_failures_get_their_variant() {
    match check_status(403, "https://x") {
        Err(ApiError::ForbiddenError(u)) => assert_eq!(u, "https://x"),
        other => panic!("403 misclassified: {:?}", other.is_ok()),
    }
    match check_status(404, "https://x") {
        Err(ApiError::NotFoundError(u)) => assert_eq!(u, "https://x"),
        other => panic!("404 misclassified: {:?}", other.is_ok()),
    }
    match check_status(500, "https://x") {
        Err(ApiError::ServerError(u)) => assert_eq!(u, "https://x"),
        other => panic!("500 misclassified: {:?}", other.is_ok()),
    }
}

#[test]
fn status_other_failures_keep_their_code() {
    match check_status(418, "u") {
        Err(ApiError::BadHTTPResponse(u, code)) => {
            assert_eq!(u, "u");
            assert_eq!(code, 418);
        },
        other => panic!("418 misclassified: {:?}", other.is_ok()),
    }
    match check_status(199, "u") {
        Err(ApiError::BadHTTPResponse(_, 199)) => (),
        other => panic!("199 misclassified: {:?}", other.is_ok()),
    }
    match check_status(300, "u") {
        Err(ApiError::BadHTTPResponse(_, 300)) => (),
        other => panic!("300 misclassified: {:?}", other.is_ok()),
    }
}

#[test]
fn error_messages_exact_text() {
    let forbidden = ApiError::ForbiddenError("https://x".to_string());
    assert_eq!(forbidden.message(), "URL https://x returned 403 Forbidden");

    let not_found = ApiError::NotFoundError("https://x".to_string());
    assert_eq!(not_found.message(), "URL https://x returned 404 Not Found");

    let server = ApiError::ServerError("https://x".to_string());
    assert_eq!(server.message(), "URL https://x returned 500 Server Error");

    let bad = ApiError::BadHTTPResponse("https://x".to_string(), 418);
    assert_eq!(bad.message(), "URL https://x returned HTTP error 418");

    let other = ApiError::OtherError("https://x".to_string(), "boom".to_string());
    assert_eq!(other.message(), "Error requesting API at https://x: boom");
}

#[test]
fn stringify_error_prefixes_the_message() {
    let failed: Result<u32, ApiError> = Err(ApiError::NotFoundError("u".to_string()));
    assert_eq!(failed.stringify_error("Error fetching download URL"),
        Err("Error fetching download URL: URL u returned 404 Not Found".to_string()));

    let fine: Result<u32, ApiError> = Ok(17);
    assert_eq!(fine.stringify_error("unused"), Ok(17));
}

#[test]
fn client_construction() {
    let cf = Curseforge::new("key-text".to_string());
    let _cf2 = cf.clone();
}

#[test]
fn error_message_http_variant_mentions_url() {
    let e = ApiError::HTTPError(minreq::Error::MalformedChunkLength, "https://x".to_string());
    let m = e.message();
    assert!(m.starts_with("Error contacting https://x: "));
}

#[test]
fn error_message_parse_variant_carries_response() {
    let bad_json = serde_json::from_str::<serde_json::Value>("{").unwrap_err();
    let e = ApiError::ResponseParseError(bad_json, "https://x".to_string(), "{".to_string());
    let m = e.message();
    assert!(m.starts_with("Received invalid API data from https://x: "));
    assert!(m.ends_with("\nResponse:{"));
}
