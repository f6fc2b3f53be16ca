//! Rules on posts: what a new post must satisfy, how a description is cut
//! short, and which slice of a listing a page shows.
use crate::error::ApiError;
use crate::html::{first_paragraph_from, fragment_nodes_of, get_first_paragraph};
use crate::text::push_str;
use crate::user::utf8_len;
use vstd::prelude::*;
use vstd::string::StringSliceAdditionalSpecFns;
use vstd::utf8::{decode_utf8, encode_utf8, is_char_boundary};

verus! {

broadcast use {vstd::utf8::encode_utf8_valid_utf8, vstd::utf8::encode_utf8_decode_utf8};

/// A description longer than this many bytes is cut.
pub const DESCRIPTION_LIMIT: usize = 256;

/// Where a long description is cut, in bytes, at the latest.
pub const DESCRIPTION_CUT: usize = 250;

/// The most posts a user's listing returns at once.
pub const USER_POSTS_MAX: u64 = 256;

/// What a client sends to create a post.
#[derive(Clone, Debug, PartialEq, Eq)]
pub struct CreatePostData {
    pub title: String,
    pub content: String,
    pub thumb_image: Option<String>,
}

/// The first rule that new post data breaks, if any.
pub open spec fn post_data_error(d: CreatePostData) -> Option<ApiError> {
    if d.thumb_image matches Some(t) && utf8_len(t@) > 128 {
        Some(ApiError::InvalidPostThumbIdSize)
    } else if utf8_len(d.title@) > 192 || utf8_len(d.title@) < 12 {
        Some(ApiError::InvalidPostTitleSize)
    } else {
        None
    }
}

impl CreatePostData {
    /// The first rule this data breaks, if any.
    pub fn is_valid(&self) -> (r: Option<ApiError>)
        ensures
            r == post_data_error(*self),
    {
        if let Some(thumb_image) = &self.thumb_image {
            if thumb_image.as_str().len() > 128 {
                return Some(ApiError::InvalidPostThumbIdSize);
            }
        }
        if self.title.as_str().len() > 192 || self.title.as_str().len() < 12 {
            return Some(ApiError::InvalidPostTitleSize);
        }
        None
    }
}

/// The last character boundary of `bytes` at or before `k`.
pub open spec fn floor_boundary(bytes: Seq<u8>, k: int) -> int
    decreases k,
{
    if k <= 0 || is_char_boundary(bytes, k) {
        k
    } else {
        floor_boundary(bytes, k - 1)
    }
}

/// A description as shown: one over `DESCRIPTION_LIMIT` bytes is cut at the
/// last character boundary within `DESCRIPTION_CUT` bytes and marked as cut.
pub open spec fn description_of(s: Seq<char>) -> Seq<char> {
    if utf8_len(s) > DESCRIPTION_LIMIT {
        decode_utf8(encode_utf8(s).subrange(0, floor_boundary(encode_utf8(s), DESCRIPTION_CUT as int)))
            + " [...]"@
    } else {
        s
    }
}

/// Cuts a long description short.
pub fn sanitize_post_description(s: String) -> (r: String)
    ensures
        r@ == description_of(s@),
{
    if s.as_str().len() > DESCRIPTION_LIMIT {
        let ghost bytes = encode_utf8(s@);
        let mut cut: usize = DESCRIPTION_CUT;
        assert(cut <= bytes.len());
        while cut > 0 && !s.as_str().is_char_boundary(cut)
            invariant
                0 <= cut <= DESCRIPTION_CUT,
                bytes == encode_utf8(s@),
                DESCRIPTION_CUT < bytes.len(),
                floor_boundary(bytes, DESCRIPTION_CUT as int) == floor_boundary(bytes, cut as int),
            decreases cut,
        {
            cut = cut - 1;
        }
        assert(is_char_boundary(bytes, 0));
        let (head, _) = s.as_str().split_at(cut);
        assert(head@ == decode_utf8(head.spec_bytes()));
        let mut out = head.to_owned();
        push_str(&mut out, " [...]");
        out
    } else {
        s
    }
}

/// How many posts a user's listing returns for a requested `limit`.
pub fn user_posts_limit(limit: u64) -> (r: u64)
    ensures
        r == if limit > USER_POSTS_MAX {
            USER_POSTS_MAX
        } else {
            limit
        },
{
    if limit > USER_POSTS_MAX {
        USER_POSTS_MAX
    } else {
        limit
    }
}

/// The page of a recommendation listing that `cursor` and `limit` select:
/// none when `cursor` is past the end; else, when `limit` is within the
/// listing, the posts from `cursor` up to `limit`, and otherwise all of them.
pub open spec fn window_outcome<T>(posts: Seq<T>, limit: usize, cursor: usize) -> Result<Seq<T>, ApiError> {
    if cursor >= posts.len() {
        Err(ApiError::PostNotFound)
    } else if limit <= posts.len() {
        Ok(posts.subrange(cursor as int, limit as int))
    } else {
        Ok(posts)
    }
}

/// Takes the page that `cursor` and `limit` select out of a listing.
pub fn recommendation_window<T>(posts: Vec<T>, limit: usize, cursor: usize) -> (r: Result<Vec<T>, ApiError>)
    requires
        !(cursor < posts@.len() && limit <= posts@.len() && cursor > limit),
    ensures
        match (r, window_outcome(posts@, limit, cursor)) {
            (Ok(v), Ok(w)) => v@ == w,
            (Err(e), Err(f)) => e == f,
            _ => false,
        },
{
    if cursor >= posts.len() {
        return Err(ApiError::PostNotFound);
    }
    if limit <= posts.len() {
        let mut v = posts;
        v.truncate(limit);
        let page = v.split_off(cursor);
        Ok(page)
    } else {
        Ok(posts)
    }
}

/// A stored post. Times are milliseconds since the Unix epoch.
#[derive(Clone, Debug, PartialEq, Eq)]
pub struct Post {
    pub id: String,
    pub created_at: i64,
    pub updated_at: i64,
    pub title: String,
    pub content: String,
    pub thumb_image: Option<String>,
    pub user_id: String,
}

/// What a listing shows of a post's content: a content over
/// `DESCRIPTION_LIMIT` bytes whose HTML has a paragraph is replaced by that
/// paragraph's text, cut short as a description.
pub open spec fn listed_content(content: Seq<char>) -> Seq<char> {
    if utf8_len(content) > DESCRIPTION_LIMIT {
        match first_paragraph_from(fragment_nodes_of(content), 0, false) {
            Some(p) => description_of(p),
            None => content,
        }
    } else {
        content
    }
}

/// `q` is `p` as a listing shows it.
pub open spec fn is_listed(p: Post, q: Post) -> bool {
    &&& q.content@ == listed_content(p.content@)
    &&& q.id == p.id
    &&& q.created_at == p.created_at
    &&& q.updated_at == p.updated_at
    &&& q.title == p.title
    &&& q.thumb_image == p.thumb_image
    &&& q.user_id == p.user_id
}

/// Replaces each long post content by a short description of it.
pub fn sanitize_posts(data: Vec<Post>) -> (r: Vec<Post>)
    ensures
        r@.len() == data@.len(),
        forall|k: int| 0 <= k < data@.len() ==> is_listed(#[trigger] data@[k], r@[k]),
{
    let ghost input = data@;
    let mut rest = data;
    let mut out: Vec<Post> = Vec::new();
    while rest.len() > 0
        invariant
            out@.len() + rest@.len() == input.len(),
            rest@ == input.subrange(out@.len() as int, input.len() as int),
            forall|k: int| 0 <= k < out@.len() ==> is_listed(#[trigger] input[k], out@[k]),
        decreases rest@.len(),
    {
        let ghost k = out@.len() as int;
        let mut post = rest.remove(0);
        assert(post == input[k]);
        if post.content.as_str().len() > DESCRIPTION_LIMIT {
            if let Some(s) = get_first_paragraph(post.content.as_str()) {
                post.content = sanitize_post_description(s);
            }
        }
        out.push(post);
        assert(rest@ == input.subrange(out@.len() as int, input.len() as int));
    }
    out
}

} // verus!
