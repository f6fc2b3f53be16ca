use crate::error::ApiError;
use crate::text::{chars_of, string_of};
use vstd::prelude::*;

verus! {

/// `k` is the position of the only space in `s`.
pub open spec fn is_sole_space(s: Seq<char>, k: int) -> bool {
    &&& 0 <= k < s.len()
    &&& s[k] == ' '
    &&& forall|j: int| 0 <= j < s.len() && j != k ==> s[j] != ' '
}

/// What an `Authorization` header value yields: the token of a `Bearer <token>`
/// value, or the reason it is refused. The value must split on spaces into
/// exactly two segments.
pub open spec fn auth_header_outcome(s: Seq<char>) -> Result<Seq<char>, ApiError> {
    if exists|k: int| is_sole_space(s, k) {
        let k = choose|k: int| is_sole_space(s, k);
        let scheme = s.take(k);
        if scheme == "Bearer"@ {
            Ok(s.skip(k + 1))
        } else if scheme == "Signature"@ {
            Err(ApiError::SignatureAuthNotSupported)
        } else {
            Err(ApiError::InvalidAuthHeaderFormat)
        }
    } else {
        Err(ApiError::InvalidAuthHeaderFormat)
    }
}

/// Whether two character vectors hold the same characters.
pub fn chars_equal(a: &Vec<char>, b: &Vec<char>) -> (r: bool)
    ensures
        r == (a@ == b@),
{
    if a.len() != b.len() {
        return false;
    }
    let mut i: usize = 0;
    while i < a.len()
        invariant
            a@.len() == b@.len(),
            0 <= i <= a@.len(),
            forall|j: int| 0 <= j < i ==> a@[j] == b@[j],
        decreases a@.len() - i,
    {
        if a[i] != b[i] {
            return false;
        }
        i = i + 1;
    }
    assert(a@ == b@);
    true
}

/// The characters of `cs` from `lo` up to `hi`.
fn slice_string(cs: &Vec<char>, lo: usize, hi: usize) -> (r: Vec<char>)
    requires
        lo <= hi <= cs@.len(),
    ensures
        r@ == cs@.subrange(lo as int, hi as int),
{
    let mut r: Vec<char> = Vec::new();
    let mut i: usize = lo;
    while i < hi
        invariant
            lo <= i <= hi <= cs@.len(),
            r@ == cs@.subrange(lo as int, i as int),
        decreases hi - i,
    {
        r.push(cs[i]);
        assert(cs@.subrange(lo as int, i + 1) == cs@.subrange(lo as int, i as int).push(cs@[i as int]));
        i = i + 1;
    }
    r
}

/// Reads the token out of an `Authorization` header value of the form
/// `Bearer <token>`.
pub fn parse_auth_header(s: String) -> (r: Result<String, ApiError>)
    ensures
        match (r, auth_header_outcome(s@)) {
            (Ok(t), Ok(u)) => t@ == u,
            (Err(e), Err(f)) => e == f,
            _ => false,
        },
{
    let cs = chars_of(s.as_str());
    let mut spaces: usize = 0;
    let mut first: usize = 0;
    let mut i: usize = 0;
    while i < cs.len()
        invariant
            cs@ == s@,
            0 <= i <= cs@.len(),
            spaces <= i,
            spaces == 0 ==> forall|j: int| 0 <= j < i ==> cs@[j] != ' ',
            spaces >= 1 ==> first < i && cs@[first as int] == ' ',
            spaces == 1 ==> forall|j: int| 0 <= j < i && j != first ==> cs@[j] != ' ',
            spaces >= 2 ==> exists|j: int| 0 <= j < i && j != first && cs@[j] == ' ',
        decreases cs@.len() - i,
    {
        if cs[i] == ' ' {
            if spaces == 0 {
                first = i;
            }
            spaces = spaces + 1;
        }
        i = i + 1;
    }
    if spaces != 1 {
        assert(!exists|k: int| is_sole_space(s@, k)) by {
            if spaces >= 2 {
                assert forall|k: int| !is_sole_space(s@, k) by {
                    if is_sole_space(s@, k) {
                        let j = choose|j: int| 0 <= j < cs@.len() && j != first && cs@[j] == ' ';
                        assert(j == k);
                        assert(first as int == k);
                    }
                }
            }
        }
        return Err(ApiError::InvalidAuthHeaderFormat);
    }
    assert(is_sole_space(s@, first as int));
    assert forall|k: int| is_sole_space(s@, k) implies k == first by {}
    let scheme = slice_string(&cs, 0, first);
    assert(scheme@ == s@.take(first as int));
    if chars_equal(&scheme, &chars_of("Bearer")) {
        let token = slice_string(&cs, first + 1, cs.len());
        assert(token@ == s@.skip(first + 1));
        Ok(string_of(&token))
    } else if chars_equal(&scheme, &chars_of("Signature")) {
        Err(ApiError::SignatureAuthNotSupported)
    } else {
        Err(ApiError::InvalidAuthHeaderFormat)
    }
}

/// The `Authorization` header of a request, as far as it could be read.
#[derive(Clone, Debug, PartialEq, Eq)]
pub enum AuthHeader {
    Absent,
    /// Present, but not readable as text.
    Unreadable,
    Present(String),
}

/// Where a request's token comes from: the `Authorization` header when the
/// request has one, else the `auth-token` cookie.
pub open spec fn credential_outcome(header: AuthHeader, cookie: Option<String>) -> Result<Seq<char>, ApiError> {
    match header {
        AuthHeader::Present(v) => auth_header_outcome(v@),
        AuthHeader::Unreadable => Err(ApiError::InternalServerError),
        AuthHeader::Absent => match cookie {
            Some(c) => Ok(c@),
            None => Err(ApiError::AuthorizationRequired),
        },
    }
}

/// Picks the raw token out of a request's header or cookie.
pub fn extract_token(header: AuthHeader, cookie: Option<String>) -> (r: Result<String, ApiError>)
    ensures
        match (r, credential_outcome(header, cookie)) {
            (Ok(t), Ok(u)) => t@ == u,
            (Err(e), Err(f)) => e == f,
            _ => false,
        },
{
    match header {
        AuthHeader::Present(v) => parse_auth_header(v),
        AuthHeader::Unreadable => Err(ApiError::InternalServerError),
        AuthHeader::Absent => match cookie {
            Some(c) => Ok(c),
            None => Err(ApiError::AuthorizationRequired),
        },
    }
}

} // verus!
