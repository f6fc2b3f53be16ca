use auth_core::error::{ApiError, ErrorResponseBody, UnknownErrorCode};
use auth_core::revocation::InvalidationReason;

fn all_errors() -> Vec<ApiError> {
    let mut v = vec![
        ApiError::UserNotFound,
        ApiError::InvalidUserIdSize,
        ApiError::InternalServerError,
        ApiError::InvalidBodyPayload,
        ApiError::WeakUserPasswordError,
        ApiError::UsernameTooBig,
        ApiError::UserEmailTooBig,
        ApiError::InvalidUserData,
        ApiError::UserAlreadyExists,
        ApiError::UserUnauthorized,
        ApiError::InvalidAuthToken,
        ApiError::ExpiredAuthToken,
        ApiError::AuthorizationRequired,
        ApiError::SignatureAuthNotSupported,
        ApiError::InvalidAuthHeaderFormat,
        ApiError::DataMutationDenied,
        ApiError::PostNotFound,
        ApiError::InvalidPostIdSize,
        ApiError::InvalidPostThumbIdSize,
        ApiError::InvalidPostTitleSize,
        ApiError::InvalidPostData,
        ApiError::FailedToGetPostDescription,
    ];
    for r in [
        InvalidationReason::PasswordChanged,
        InvalidationReason::PermissionChanged,
        InvalidationReason::TooManyAuthFailures,
        InvalidationReason::UserDeleted,
        InvalidationReason::UserRequest,
    ]
    .iter()
    {
        v.push(ApiError::UserUnderTokenInvalidation(*r));
    }
    v
}

#[test]
fn every_code_names_its_error() {
    let all = all_errors();
    for e in all.iter() {
        assert_eq!(ApiError::from_code(e.code()), Ok(*e));
    }
    for (i, a) in all.iter().enumerate() {
        for b in all.iter().skip(i + 1) {
            assert_ne!(a.code(), b.code());
        }
    }
}

#[test]
fn known_codes() {
    assert_eq!(ApiError::ExpiredAuthToken.code(), 4012);
    assert_eq!(ApiError::InvalidAuthToken.code(), 4011);
    assert_eq!(ApiError::AuthorizationRequired.code(), 4013);
    assert_eq!(ApiError::InternalServerError.code(), 5000);
    assert_eq!(ApiError::UserUnderTokenInvalidation(InvalidationReason::UserRequest).code(), 40155);
    assert_eq!(ApiError::from_code(40151), Ok(ApiError::UserUnderTokenInvalidation(InvalidationReason::PasswordChanged)));
    assert_eq!(ApiError::from_code(40010), Ok(ApiError::InvalidPostData));
}

#[test]
fn unknown_code_is_refused() {
    assert_eq!(ApiError::from_code(0), Err(UnknownErrorCode { code: 0 }));
    assert_eq!(ApiError::from_code(4015), Err(UnknownErrorCode { code: 4015 }));
    assert_eq!(ApiError::from_code(40156), Err(UnknownErrorCode { code: 40156 }));
}

#[test]
fn status_per_kind() {
    assert_eq!(ApiError::ExpiredAuthToken.status_code(), 401);
    assert_eq!(ApiError::InvalidAuthToken.status_code(), 401);
    assert_eq!(ApiError::UserUnderTokenInvalidation(InvalidationReason::UserDeleted).status_code(), 401);
    assert_eq!(ApiError::AuthorizationRequired.status_code(), 401);
    assert_eq!(ApiError::InvalidAuthHeaderFormat.status_code(), 401);
    assert_eq!(ApiError::SignatureAuthNotSupported.status_code(), 400);
    assert_eq!(ApiError::InvalidBodyPayload.status_code(), 400);
    assert_eq!(ApiError::UserNotFound.status_code(), 404);
    assert_eq!(ApiError::UserAlreadyExists.status_code(), 409);
    assert_eq!(ApiError::InternalServerError.status_code(), 500);
}

#[test]
fn response_body_holds_message_and_code() {
    let b = ApiError::ExpiredAuthToken.response_body();
    assert_eq!(b, ErrorResponseBody::new("Your jwt token is no longer valid, expired!".to_string(), 4012));
    assert_eq!(b.error, ApiError::ExpiredAuthToken.message());
    assert_eq!(
        ApiError::UserUnderTokenInvalidation(InvalidationReason::UserDeleted).message(),
        "Your authentication token is not longer valid, please login again"
    );
}
