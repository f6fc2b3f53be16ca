use crate::revocation::InvalidationReason;
use vstd::prelude::*;

verus! {

/// Every failure the service reports to a client.
#[derive(Clone, Copy, Debug, PartialEq, Eq, Structural)]
pub enum ApiError {
    UserNotFound,
    InvalidUserIdSize,
    InternalServerError,
    InvalidBodyPayload,
    WeakUserPasswordError,
    UsernameTooBig,
    UserEmailTooBig,
    InvalidUserData,
    UserAlreadyExists,
    UserUnauthorized,
    InvalidAuthToken,
    ExpiredAuthToken,
    AuthorizationRequired,
    SignatureAuthNotSupported,
    InvalidAuthHeaderFormat,
    UserUnderTokenInvalidation(InvalidationReason),
    DataMutationDenied,
    PostNotFound,
    InvalidPostIdSize,
    InvalidPostThumbIdSize,
    InvalidPostTitleSize,
    InvalidPostData,
    FailedToGetPostDescription,
}

/// A numeric code that names no error.
#[derive(Clone, Copy, Debug, PartialEq, Eq, Structural)]
pub struct UnknownErrorCode {
    pub code: usize,
}

/// The wire code of each error kind; distinct for distinct kinds.
pub open spec fn error_code(e: ApiError) -> nat {
    match e {
        ApiError::UserNotFound => 4041,
        ApiError::InvalidUserIdSize => 4001,
        ApiError::InternalServerError => 5000,
        ApiError::InvalidBodyPayload => 4000,
        ApiError::WeakUserPasswordError => 4002,
        ApiError::UsernameTooBig => 4003,
        ApiError::UserEmailTooBig => 4004,
        ApiError::InvalidUserData => 4005,
        ApiError::UserAlreadyExists => 4070,
        ApiError::UserUnauthorized => 4010,
        ApiError::InvalidAuthToken => 4011,
        ApiError::ExpiredAuthToken => 4012,
        ApiError::AuthorizationRequired => 4013,
        ApiError::SignatureAuthNotSupported => 4006,
        ApiError::InvalidAuthHeaderFormat => 4014,
        ApiError::DataMutationDenied => 4016,
        ApiError::PostNotFound => 4042,
        ApiError::InvalidPostIdSize => 4007,
        ApiError::InvalidPostThumbIdSize => 4008,
        ApiError::InvalidPostTitleSize => 4009,
        ApiError::InvalidPostData => 40010,
        ApiError::FailedToGetPostDescription => 4043,
        ApiError::UserUnderTokenInvalidation(r) => match r {
            InvalidationReason::PasswordChanged => 40151,
            InvalidationReason::PermissionChanged => 40152,
            InvalidationReason::TooManyAuthFailures => 40153,
            InvalidationReason::UserDeleted => 40154,
            InvalidationReason::UserRequest => 40155,
        },
    }
}

/// The HTTP status that goes with each error kind.
pub open spec fn error_status(e: ApiError) -> nat {
    match e {
        ApiError::UserNotFound | ApiError::PostNotFound => 404,
        ApiError::InternalServerError => 500,
        ApiError::UserAlreadyExists => 409,
        ApiError::UserUnauthorized
        | ApiError::AuthorizationRequired
        | ApiError::UserUnderTokenInvalidation(_)
        | ApiError::DataMutationDenied
        | ApiError::InvalidAuthToken
        | ApiError::InvalidAuthHeaderFormat
        | ApiError::ExpiredAuthToken => 401,
        _ => 400,
    }
}

/// The human-readable text of each error kind.
pub open spec fn error_message(e: ApiError) -> Seq<char> {
    match e {
        ApiError::UserNotFound => "User could not be found"@,
        ApiError::InvalidUserIdSize => "Users id's have a fixed size of 18 characters"@,
        ApiError::InternalServerError => "Something went wrong while processing your request, try again later"@,
        ApiError::InvalidBodyPayload => "Failed to decode request body, invalid payload!"@,
        ApiError::WeakUserPasswordError => "Your password length must be greater than 6 and must not contain your username or email"@,
        ApiError::UsernameTooBig => "Usernames must be less than 42 characters"@,
        ApiError::UserEmailTooBig => "Emails must be less than 64 characters"@,
        ApiError::InvalidUserData => "User payload contain invalid fields"@,
        ApiError::UserAlreadyExists => "User already exists, maybe try a different email"@,
        ApiError::UserUnauthorized => "Password do not match or user doesn't exist"@,
        ApiError::InvalidAuthToken => "Your jwt token does not contain valid metadata"@,
        ApiError::ExpiredAuthToken => "Your jwt token is no longer valid, expired!"@,
        ApiError::AuthorizationRequired => "This route requires authorization but no headers or cookies was provided"@,
        ApiError::SignatureAuthNotSupported => "This route does not support sinature based authentication"@,
        ApiError::InvalidAuthHeaderFormat => "The provided authorization header is not valid, ex: `Bearer <token>` or `Signature <token>`"@,
        ApiError::DataMutationDenied => "You can only mutate information if you own them or if you are a mod/admin"@,
        ApiError::PostNotFound => "Post could not be found"@,
        ApiError::InvalidPostIdSize => "Users id's have a fixed size of 24 characters"@,
        ApiError::InvalidPostThumbIdSize => "Posts 'thumbImage' prop must be a nullable string up to 128 characters"@,
        ApiError::InvalidPostTitleSize => "Post title must at least 12 and up to 192 characters"@,
        ApiError::InvalidPostData => "Post payload contain invalid fields"@,
        ApiError::FailedToGetPostDescription => "Failed to get post description from it's content"@,
        ApiError::UserUnderTokenInvalidation(_) => "Your authentication token is not longer valid, please login again"@,
    }
}

/// The error that a wire code names, if any.
pub open spec fn error_of_code(c: nat) -> Option<ApiError> {
    if c == 4041 {
        Some(ApiError::UserNotFound)
    } else if c == 4001 {
        Some(ApiError::InvalidUserIdSize)
    } else if c == 5000 {
        Some(ApiError::InternalServerError)
    } else if c == 4000 {
        Some(ApiError::InvalidBodyPayload)
    } else if c == 4002 {
        Some(ApiError::WeakUserPasswordError)
    } else if c == 4003 {
        Some(ApiError::UsernameTooBig)
    } else if c == 4004 {
        Some(ApiError::UserEmailTooBig)
    } else if c == 4005 {
        Some(ApiError::InvalidUserData)
    } else if c == 4070 {
        Some(ApiError::UserAlreadyExists)
    } else if c == 4010 {
        Some(ApiError::UserUnauthorized)
    } else if c == 4011 {
        Some(ApiError::InvalidAuthToken)
    } else if c == 4012 {
        Some(ApiError::ExpiredAuthToken)
    } else if c == 4013 {
        Some(ApiError::AuthorizationRequired)
    } else if c == 4006 {
        Some(ApiError::SignatureAuthNotSupported)
    } else if c == 4014 {
        Some(ApiError::InvalidAuthHeaderFormat)
    } else if c == 4016 {
        Some(ApiError::DataMutationDenied)
    } else if c == 4042 {
        Some(ApiError::PostNotFound)
    } else if c == 4007 {
        Some(ApiError::InvalidPostIdSize)
    } else if c == 4008 {
        Some(ApiError::InvalidPostThumbIdSize)
    } else if c == 4009 {
        Some(ApiError::InvalidPostTitleSize)
    } else if c == 40010 {
        Some(ApiError::InvalidPostData)
    } else if c == 4043 {
        Some(ApiError::FailedToGetPostDescription)
    } else if c == 40151 {
        Some(ApiError::UserUnderTokenInvalidation(InvalidationReason::PasswordChanged))
    } else if c == 40152 {
        Some(ApiError::UserUnderTokenInvalidation(InvalidationReason::PermissionChanged))
    } else if c == 40153 {
        Some(ApiError::UserUnderTokenInvalidation(InvalidationReason::TooManyAuthFailures))
    } else if c == 40154 {
        Some(ApiError::UserUnderTokenInvalidation(InvalidationReason::UserDeleted))
    } else if c == 40155 {
        Some(ApiError::UserUnderTokenInvalidation(InvalidationReason::UserRequest))
    } else {
        None
    }
}

impl ApiError {
    /// The wire code of this error.
    pub fn code(&self) -> (r: usize)
        ensures
            r == error_code(*self),
    {
        match self {
            ApiError::UserNotFound => 4041,
            ApiError::InvalidUserIdSize => 4001,
            ApiError::InternalServerError => 5000,
            ApiError::InvalidBodyPayload => 4000,
            ApiError::WeakUserPasswordError => 4002,
            ApiError::UsernameTooBig => 4003,
            ApiError::UserEmailTooBig => 4004,
            ApiError::InvalidUserData => 4005,
            ApiError::UserAlreadyExists => 4070,
            ApiError::UserUnauthorized => 4010,
            ApiError::InvalidAuthToken => 4011,
            ApiError::ExpiredAuthToken => 4012,
            ApiError::AuthorizationRequired => 4013,
            ApiError::SignatureAuthNotSupported => 4006,
            ApiError::InvalidAuthHeaderFormat => 4014,
            ApiError::DataMutationDenied => 4016,
            ApiError::PostNotFound => 4042,
            ApiError::InvalidPostIdSize => 4007,
            ApiError::InvalidPostThumbIdSize => 4008,
            ApiError::InvalidPostTitleSize => 4009,
            ApiError::InvalidPostData => 40010,
            ApiError::FailedToGetPostDescription => 4043,
            ApiError::UserUnderTokenInvalidation(r) => match r {
                InvalidationReason::PasswordChanged => 40151,
                InvalidationReason::PermissionChanged => 40152,
                InvalidationReason::TooManyAuthFailures => 40153,
                InvalidationReason::UserDeleted => 40154,
                InvalidationReason::UserRequest => 40155,
            },
        }
    }

    /// The error that a wire code names, if any.
    pub fn from_code(value: usize) -> (r: Result<ApiError, UnknownErrorCode>)
        ensures
            match r {
                Ok(e) => error_of_code(value as nat) == Some(e),
                Err(u) => u.code == value && error_of_code(value as nat) is None,
            },
    {
        match value {
            4041 => Ok(ApiError::UserNotFound),
            4001 => Ok(ApiError::InvalidUserIdSize),
            5000 => Ok(ApiError::InternalServerError),
            4000 => Ok(ApiError::InvalidBodyPayload),
            4002 => Ok(ApiError::WeakUserPasswordError),
            4003 => Ok(ApiError::UsernameTooBig),
            4004 => Ok(ApiError::UserEmailTooBig),
            4005 => Ok(ApiError::InvalidUserData),
            4070 => Ok(ApiError::UserAlreadyExists),
            4010 => Ok(ApiError::UserUnauthorized),
            4011 => Ok(ApiError::InvalidAuthToken),
            4012 => Ok(ApiError::ExpiredAuthToken),
            4013 => Ok(ApiError::AuthorizationRequired),
            4006 => Ok(ApiError::SignatureAuthNotSupported),
            4014 => Ok(ApiError::InvalidAuthHeaderFormat),
            4016 => Ok(ApiError::DataMutationDenied),
            4042 => Ok(ApiError::PostNotFound),
            4007 => Ok(ApiError::InvalidPostIdSize),
            4008 => Ok(ApiError::InvalidPostThumbIdSize),
            4009 => Ok(ApiError::InvalidPostTitleSize),
            40010 => Ok(ApiError::InvalidPostData),
            4043 => Ok(ApiError::FailedToGetPostDescription),
            40151 => Ok(ApiError::UserUnderTokenInvalidation(InvalidationReason::PasswordChanged)),
            40152 => Ok(ApiError::UserUnderTokenInvalidation(InvalidationReason::PermissionChanged)),
            40153 => Ok(ApiError::UserUnderTokenInvalidation(InvalidationReason::TooManyAuthFailures)),
            40154 => Ok(ApiError::UserUnderTokenInvalidation(InvalidationReason::UserDeleted)),
            40155 => Ok(ApiError::UserUnderTokenInvalidation(InvalidationReason::UserRequest)),
            _ => Err(UnknownErrorCode { code: value }),
        }
    }

    /// The HTTP status of this error.
    pub fn status_code(&self) -> (r: u16)
        ensures
            r == error_status(*self),
    {
        match self {
            ApiError::UserNotFound | ApiError::PostNotFound => 404,
            ApiError::InternalServerError => 500,
            ApiError::UserAlreadyExists => 409,
            ApiError::UserUnauthorized
            | ApiError::AuthorizationRequired
            | ApiError::UserUnderTokenInvalidation(_)
            | ApiError::DataMutationDenied
            | ApiError::InvalidAuthToken
            | ApiError::InvalidAuthHeaderFormat
            | ApiError::ExpiredAuthToken => 401,
            _ => 400,
        }
    }

    /// The human-readable text of this error.
    pub fn message(&self) -> (r: String)
        ensures
            r@ == error_message(*self),
    {
        let text: &str = match self {
            ApiError::UserNotFound => "User could not be found",
            ApiError::InvalidUserIdSize => "Users id's have a fixed size of 18 characters",
            ApiError::InternalServerError => "Something went wrong while processing your request, try again later",
            ApiError::InvalidBodyPayload => "Failed to decode request body, invalid payload!",
            ApiError::WeakUserPasswordError => "Your password length must be greater than 6 and must not contain your username or email",
            ApiError::UsernameTooBig => "Usernames must be less than 42 characters",
            ApiError::UserEmailTooBig => "Emails must be less than 64 characters",
            ApiError::InvalidUserData => "User payload contain invalid fields",
            ApiError::UserAlreadyExists => "User already exists, maybe try a different email",
            ApiError::UserUnauthorized => "Password do not match or user doesn't exist",
            ApiError::InvalidAuthToken => "Your jwt token does not contain valid metadata",
            ApiError::ExpiredAuthToken => "Your jwt token is no longer valid, expired!",
            ApiError::AuthorizationRequired => "This route requires authorization but no headers or cookies was provided",
            ApiError::SignatureAuthNotSupported => "This route does not support sinature based authentication",
            ApiError::InvalidAuthHeaderFormat => "The provided authorization header is not valid, ex: `Bearer <token>` or `Signature <token>`",
            ApiError::DataMutationDenied => "You can only mutate information if you own them or if you are a mod/admin",
            ApiError::PostNotFound => "Post could not be found",
            ApiError::InvalidPostIdSize => "Users id's have a fixed size of 24 characters",
            ApiError::InvalidPostThumbIdSize => "Posts 'thumbImage' prop must be a nullable string up to 128 characters",
            ApiError::InvalidPostTitleSize => "Post title must at least 12 and up to 192 characters",
            ApiError::InvalidPostData => "Post payload contain invalid fields",
            ApiError::FailedToGetPostDescription => "Failed to get post description from it's content",
            ApiError::UserUnderTokenInvalidation(_) => "Your authentication token is not longer valid, please login again",
        };
        text.to_owned()
    }

    /// The body sent to a client that meets this error.
    pub fn response_body(&self) -> (r: ErrorResponseBody)
        ensures
            r.error@ == error_message(*self),
            r.error_code == error_code(*self),
    {
        ErrorResponseBody::new(self.message(), self.code())
    }
}

/// The code table read both ways: each error's code names that error, and a
/// code names an error only when it is that error's code.
pub proof fn lemma_code_table_inverse(e: ApiError, c: nat)
    ensures
        error_of_code(error_code(e)) == Some(e),
        error_of_code(c) == Some(e) ==> error_code(e) == c,
{
}

/// The error payload sent to clients: a message and a machine-readable code.
#[derive(Clone, Debug, PartialEq, Eq)]
pub struct ErrorResponseBody {
    pub error: String,
    pub error_code: usize,
}

impl ErrorResponseBody {
    pub fn new(error: String, code: usize) -> (r: Self)
        ensures
            r.error == error,
            r.error_code == code,
    {
        ErrorResponseBody { error, error_code: code }
    }
}

} // verus!
