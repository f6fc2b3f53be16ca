//! Validation of the data a client sends to create or rename a user.
use crate::error::ApiError;
use crate::extract::chars_equal;
use crate::text::{chars_of, contains_chars, seq_contains};
use vstd::prelude::*;
use vstd::utf8::encode_utf8;

verus! {

/// The length of a user id.
pub const USER_ID_SIZE: usize = 18;

/// The length of a post id.
pub const POST_ID_SIZE: usize = 24;

/// The length of `s` in UTF-8 bytes (which for a string in memory fits in a
/// `usize`).
pub open spec fn utf8_len(s: Seq<char>) -> usize {
    encode_utf8(s).len() as usize
}

/// What a client sends to sign up.
#[derive(Clone, Debug, PartialEq, Eq)]
pub struct CreateUserData {
    pub username: String,
    pub email: String,
    pub password: String,
}

/// What a client sends to change a user's name.
#[derive(Clone, Debug, PartialEq, Eq)]
pub struct UpdateEmailData {
    pub username: String,
}

/// A password is weak when it is shorter than 6 bytes, holds the email or the
/// username, or is the one known-bad password.
pub open spec fn weak_password(password: Seq<char>, email: Seq<char>, username: Seq<char>) -> bool {
    ||| utf8_len(password) < 6
    ||| seq_contains(password, email)
    ||| seq_contains(password, username)
    ||| password == "1234567"@
}

/// The first rule that sign-up data breaks, if any.
pub open spec fn user_data_error(d: CreateUserData) -> Option<ApiError> {
    if weak_password(d.password@, d.email@, d.username@) {
        Some(ApiError::WeakUserPasswordError)
    } else if utf8_len(d.username@) > 42 {
        Some(ApiError::UsernameTooBig)
    } else if utf8_len(d.email@) > 64 {
        Some(ApiError::UserEmailTooBig)
    } else {
        None
    }
}

impl CreateUserData {
    /// The first rule this data breaks, if any.
    pub fn is_valid(&self) -> (r: Option<ApiError>)
        ensures
            r == user_data_error(*self),
    {
        let password = chars_of(self.password.as_str());
        if self.password.as_str().len() < 6 || contains_chars(&password, &chars_of(self.email.as_str()))
            || contains_chars(&password, &chars_of(self.username.as_str())) || chars_equal(
            &password,
            &chars_of("1234567"),
        ) {
            Some(ApiError::WeakUserPasswordError)
        } else if self.username.as_str().len() > 42 {
            Some(ApiError::UsernameTooBig)
        } else if self.email.as_str().len() > 64 {
            Some(ApiError::UserEmailTooBig)
        } else {
            None
        }
    }
}

/// Checks that `id` has the length of a user id (in bytes).
pub fn check_user_id(id: &str) -> (r: Result<(), ApiError>)
    ensures
        r == if utf8_len(id@) == USER_ID_SIZE {
            Ok(())
        } else {
            Err(ApiError::InvalidUserIdSize)
        },
{
    if id.len() != USER_ID_SIZE {
        Err(ApiError::InvalidUserIdSize)
    } else {
        Ok(())
    }
}

/// Checks that `id` has the length of a post id (in bytes).
pub fn check_post_id(id: &str) -> (r: Result<(), ApiError>)
    ensures
        r == if utf8_len(id@) == POST_ID_SIZE {
            Ok(())
        } else {
            Err(ApiError::InvalidPostIdSize)
        },
{
    if id.len() != POST_ID_SIZE {
        Err(ApiError::InvalidPostIdSize)
    } else {
        Ok(())
    }
}

/// Who may change or delete a user's data: the user, or an admin.
pub open spec fn may_mutate(actor: Seq<char>, actor_is_admin: bool, owner: Seq<char>) -> bool {
    actor == owner || actor_is_admin
}

/// Refuses a change to `owner`'s data by anyone but that user or an admin.
pub fn check_mutation(actor: &str, actor_role: crate::claims::UserRole, owner: &str) -> (r: Result<(), ApiError>)
    ensures
        r is Ok <==> may_mutate(actor@, actor_role == crate::claims::UserRole::Admin, owner@),
        r is Err ==> r == Err::<(), ApiError>(ApiError::DataMutationDenied),
{
    let same = chars_equal(&chars_of(actor), &chars_of(owner));
    let admin = match actor_role {
        crate::claims::UserRole::Admin => true,
        _ => false,
    };
    if !same && !admin {
        Err(ApiError::DataMutationDenied)
    } else {
        Ok(())
    }
}

} // verus!
