//! Request parameters shared by several routes.
use vstd::prelude::*;

verus! {

/// A path that names one resource by its id.
#[derive(Clone, Copy, Debug, PartialEq, Eq)]
pub struct PathWithId<T> {
    pub id: T,
}

/// The paging parameters of a listing.
#[derive(Clone, Copy, Debug, PartialEq, Eq)]
pub struct CursorLimitQueryParams<C, L> {
    pub limit: L,
    pub cursor: C,
}

impl<C: Clone, L: Clone> CursorLimitQueryParams<C, L> {
    pub fn limit(&self) -> (r: L)
        ensures
            cloned(self.limit, r),
    {
        self.limit.clone()
    }

    pub fn cursor(&self) -> (r: C)
        ensures
            cloned(self.cursor, r),
    {
        self.cursor.clone()
    }
}

impl<T: Clone> PathWithId<T> {
    pub fn id(&self) -> (r: T)
        ensures
            cloned(self.id, r),
    {
        self.id.clone()
    }
}

/// The status of a successful response: 201 for a request that creates
/// something (a POST), 200 otherwise.
pub fn success_status(is_post: bool) -> (r: u16)
    ensures
        r == if is_post {
            201u16
        } else {
            200u16
        },
{
    if is_post {
        201
    } else {
        200
    }
}

/// What a client sends to sign in.
#[derive(Clone, Debug, PartialEq, Eq)]
pub struct SignInRequestBody {
    pub email: String,
    pub password: String,
}

/// What a client gets back from signing in.
#[derive(Clone, Debug, PartialEq, Eq)]
pub struct SignInResponseBody {
    pub token: String,
}

} // verus!
