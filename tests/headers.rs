use auth_core::error::ApiError;
use auth_core::extract::{extract_token, parse_auth_header, AuthHeader};

#[test]
fn bearer_header_gives_token() {
    assert_eq!(parse_auth_header("Bearer abc".to_string()), Ok("abc".to_string()));
}

#[test]
fn signature_scheme_is_not_supported() {
    assert_eq!(parse_auth_header("Signature abc".to_string()), Err(ApiError::SignatureAuthNotSupported));
}

#[test]
fn other_scheme_is_bad_format() {
    assert_eq!(parse_auth_header("Foo abc".to_string()), Err(ApiError::InvalidAuthHeaderFormat));
    assert_eq!(parse_auth_header("bearer abc".to_string()), Err(ApiError::InvalidAuthHeaderFormat));
}

#[test]
fn empty_header_is_bad_format() {
    assert_eq!(parse_auth_header(String::new()), Err(ApiError::InvalidAuthHeaderFormat));
}

#[test]
fn wrong_segment_count_is_bad_format() {
    assert_eq!(parse_auth_header("Bearer".to_string()), Err(ApiError::InvalidAuthHeaderFormat));
    assert_eq!(parse_auth_header("Bearer a b".to_string()), Err(ApiError::InvalidAuthHeaderFormat));
    assert_eq!(parse_auth_header("Bearer  abc".to_string()), Err(ApiError::InvalidAuthHeaderFormat));
    assert_eq!(parse_auth_header("Bearer ".to_string()), Ok(String::new()));
}

#[test]
fn absent_header_and_cookie_needs_authorization() {
    assert_eq!(extract_token(AuthHeader::Absent, None), Err(ApiError::AuthorizationRequired));
}

#[test]
fn cookie_is_the_fallback() {
    assert_eq!(extract_token(AuthHeader::Absent, Some("tok".to_string())), Ok("tok".to_string()));
    assert_eq!(
        extract_token(AuthHeader::Present("Bearer h".to_string()), Some("tok".to_string())),
        Ok("h".to_string())
    );
    assert_eq!(
        extract_token(AuthHeader::Present("Foo h".to_string()), Some("tok".to_string())),
        Err(ApiError::InvalidAuthHeaderFormat)
    );
    assert_eq!(extract_token(AuthHeader::Unreadable, Some("tok".to_string())), Err(ApiError::InternalServerError));
}
