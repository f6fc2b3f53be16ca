//! Revocation records: how a "reject every token of this subject issued up to
//! T, for reason R" fact is written into the revocation cache, read back, and
//! weighed against a token's claims.
use crate::claims::{ClaimsView, UserJwtPayload, TOKEN_LIFETIME};
use crate::error::ApiError;
use crate::json::{
    decimal, lemma_lit_num_step, lemma_lit_str_step, lemma_num_canonical, lemma_split_tail,
    lemma_str_canonical, lit_at, match_lit, parse_num, parse_str,
    push_decimal, push_quoted, quoted, read_num, read_str,
};
use crate::extract::chars_equal;
use crate::text::{chars_of, push_str};
use vstd::prelude::*;

verus! {

/// A token issued within this many seconds after a revocation is still rejected
/// by it; one issued later is not.
pub const GRACE_PERIOD: u64 = 10;

/// How much longer than a token's lifetime a revocation record is kept.
pub const INVALIDATION_MARGIN: u64 = 30;

/// How long a revocation record stays in the cache, in seconds.
pub const INVALIDATION_TTL: u64 = TOKEN_LIFETIME + INVALIDATION_MARGIN;

/// Why every token of a subject issued up to some moment was revoked.
#[derive(Clone, Copy, Debug, PartialEq, Eq, Structural)]
pub enum InvalidationReason {
    PasswordChanged,
    UserRequest,
    TooManyAuthFailures,
    UserDeleted,
    PermissionChanged,
}

/// A revocation record: tokens of the subject issued no later than `date`
/// (plus the grace window) are no longer accepted.
#[derive(Clone, Copy, Debug, PartialEq, Eq, Structural)]
pub struct InvalidationData {
    pub date: u64,
    pub reason: InvalidationReason,
}

impl InvalidationData {
    pub fn new(date: u64, reason: InvalidationReason) -> (r: Self)
        ensures
            r == (InvalidationData { date, reason }),
    {
        InvalidationData { date, reason }
    }
}

/// What the revocation cache holds for a subject.
#[derive(Clone, Copy, Debug, PartialEq, Eq, Structural)]
pub enum InvalidatedResult {
    Is(InvalidationData),
    Not,
}

pub open spec fn reason_name(r: InvalidationReason) -> Seq<char> {
    match r {
        InvalidationReason::PasswordChanged => "PasswordChanged"@,
        InvalidationReason::UserRequest => "UserRequest"@,
        InvalidationReason::TooManyAuthFailures => "TooManyAuthFailures"@,
        InvalidationReason::UserDeleted => "UserDeleted"@,
        InvalidationReason::PermissionChanged => "PermissionChanged"@,
    }
}

pub open spec fn reason_of_name(n: Seq<char>) -> Option<InvalidationReason> {
    if n == "PasswordChanged"@ {
        Some(InvalidationReason::PasswordChanged)
    } else if n == "UserRequest"@ {
        Some(InvalidationReason::UserRequest)
    } else if n == "TooManyAuthFailures"@ {
        Some(InvalidationReason::TooManyAuthFailures)
    } else if n == "UserDeleted"@ {
        Some(InvalidationReason::UserDeleted)
    } else if n == "PermissionChanged"@ {
        Some(InvalidationReason::PermissionChanged)
    } else {
        None
    }
}

/// The cache key under which a subject's revocation record is kept.
pub open spec fn invalidation_key_of(subject: Seq<char>) -> Seq<char> {
    "invalidation/"@ + subject
}

/// The JSON text a revocation record is stored as.
pub open spec fn record_text(d: InvalidationData) -> Seq<char> {
    "{\"date\":"@ + (decimal(d.date as nat) + (",\"reason\":"@ + (quoted(reason_name(d.reason))
        + "}"@)))
}

/// Reads a revocation record from its stored text; `None` for any text that
/// `record_text` does not produce (`lemma_record_canonical`).
pub open spec fn parse_record(t: Seq<char>) -> Option<InvalidationData> {
    if !lit_at(t, 0, "{\"date\":"@) {
        None
    } else {
        match parse_num(t, "{\"date\":"@.len() as int) {
            None => None,
            Some((date, i1)) => if !lit_at(t, i1, ",\"reason\":"@) {
                None
            } else {
                match parse_str(t, i1 + ",\"reason\":"@.len()) {
                    None => None,
                    Some((name, i2)) => match reason_of_name(name) {
                        None => None,
                        Some(reason) => if lit_at(t, i2, "}"@) && i2 + 1 == t.len() {
                            Some(InvalidationData { date: date as u64, reason })
                        } else {
                            None
                        },
                    },
                }
            },
        }
    }
}

/// Every reason is read back from its name.
pub proof fn lemma_reason_name_round_trip(r: InvalidationReason)
    ensures
        reason_of_name(reason_name(r)) == Some(r),
{
    reveal_strlit("PasswordChanged");
    reveal_strlit("UserRequest");
    reveal_strlit("TooManyAuthFailures");
    reveal_strlit("UserDeleted");
    reveal_strlit("PermissionChanged");
    assert("PasswordChanged"@.len() == 15);
    assert("UserRequest"@.len() == 11);
    assert("TooManyAuthFailures"@.len() == 19);
    assert("UserDeleted"@.len() == 11);
    assert("PermissionChanged"@.len() == 17);
    assert("UserRequest"@[4] != "UserDeleted"@[4]);
    assert("UserRequest"@ != "UserDeleted"@);
}

/// A text that `parse_record` reads is exactly the stored text of the record it
/// yields: the reader accepts no other spelling.
pub proof fn lemma_record_canonical(t: Seq<char>)
    ensures
        parse_record(t) matches Some(d) ==> t == record_text(d),
{
    if let Some(d) = parse_record(t) {
        reveal_strlit("}");
        let k1 = "{\"date\":"@;
        let k2 = ",\"reason\":"@;
        let k3 = "}"@;
        let n = t.len() as int;
        let a1 = k1.len() as int;
        let (date, i1) = parse_num(t, a1)->Some_0;
        let a2 = i1 + k2.len();
        let (name, i2) = parse_str(t, a2)->Some_0;
        lemma_num_canonical(t, a1);
        lemma_str_canonical(t, a2);
        assert(name == reason_name(d.reason));
        assert(t.subrange(i2, n) == k3);
        lemma_split_tail(t, a2, i2);
        lemma_split_tail(t, i1, a2);
        lemma_split_tail(t, a1, i1);
        lemma_split_tail(t, 0, a1);
        assert(t.subrange(0, n) == t);
    }
}

/// Reading the stored text of a revocation record gives back exactly that record.
pub proof fn lemma_record_round_trip(d: InvalidationData)
    ensures
        parse_record(record_text(d)) == Some(d),
{
    reveal_strlit(",\"reason\":");
    reveal_strlit("}");
    let e = Seq::<char>::empty();
    let k3 = "}"@;
    let r2 = quoted(reason_name(d.reason)) + k3;
    let t = record_text(d);
    assert(t == e + ("{\"date\":"@ + (decimal(d.date as nat) + (",\"reason\":"@ + r2))));
    assert((",\"reason\":"@ + r2)[0] == ',');
    lemma_lit_num_step(e, "{\"date\":"@, d.date, ",\"reason\":"@ + r2);
    let after_date = e + "{\"date\":"@ + decimal(d.date as nat);
    lemma_lit_str_step(after_date, ",\"reason\":"@, reason_name(d.reason), k3);
    let after_reason = after_date + ",\"reason\":"@ + quoted(reason_name(d.reason));
    assert(t == after_reason + k3);
    assert(t.subrange(after_reason.len() as int, (after_reason.len() + 1) as int) == k3);
    lemma_reason_name_round_trip(d.reason);
}

impl InvalidationReason {
    /// The name this reason is stored under.
    pub fn name(&self) -> (r: String)
        ensures
            r@ == reason_name(*self),
    {
        let n: &str = match self {
            InvalidationReason::PasswordChanged => "PasswordChanged",
            InvalidationReason::UserRequest => "UserRequest",
            InvalidationReason::TooManyAuthFailures => "TooManyAuthFailures",
            InvalidationReason::UserDeleted => "UserDeleted",
            InvalidationReason::PermissionChanged => "PermissionChanged",
        };
        n.to_owned()
    }

    /// The reason stored under `name`, if any.
    pub fn from_name(name: &Vec<char>) -> (r: Option<InvalidationReason>)
        ensures
            r == reason_of_name(name@),
    {
        if chars_equal(name, &chars_of("PasswordChanged")) {
            Some(InvalidationReason::PasswordChanged)
        } else if chars_equal(name, &chars_of("UserRequest")) {
            Some(InvalidationReason::UserRequest)
        } else if chars_equal(name, &chars_of("TooManyAuthFailures")) {
            Some(InvalidationReason::TooManyAuthFailures)
        } else if chars_equal(name, &chars_of("UserDeleted")) {
            Some(InvalidationReason::UserDeleted)
        } else if chars_equal(name, &chars_of("PermissionChanged")) {
            Some(InvalidationReason::PermissionChanged)
        } else {
            None
        }
    }
}

/// The stored text of a revocation record.
pub fn record_json(d: &InvalidationData) -> (r: String)
    ensures
        r@ == record_text(*d),
{
    let mut out = String::new();
    push_str(&mut out, "{\"date\":");
    push_decimal(&mut out, d.date);
    push_str(&mut out, ",\"reason\":");
    let name = d.reason.name();
    push_quoted(&mut out, name.as_str());
    push_str(&mut out, "}");
    out
}

/// Reads a revocation record from its stored text.
pub fn parse_record_json(text: &str) -> (r: Option<InvalidationData>)
    ensures
        r == parse_record(text@),
{
    proof {
        reveal_strlit("}");
    }
    let t = chars_of(text);
    let p = match match_lit(&t, 0, "{\"date\":") {
        Some(j) => j,
        None => return None,
    };
    let (date, i1) = match read_num(&t, p) {
        Some(x) => x,
        None => return None,
    };
    let p = match match_lit(&t, i1, ",\"reason\":") {
        Some(j) => j,
        None => return None,
    };
    let (name, i2) = match read_str(&t, p) {
        Some(x) => x,
        None => return None,
    };
    let reason = match InvalidationReason::from_name(&name) {
        Some(r) => r,
        None => return None,
    };
    match match_lit(&t, i2, "}") {
        Some(j) => if j != t.len() {
            return None;
        },
        None => return None,
    }
    Some(InvalidationData { date, reason })
}

/// The cache key under which a subject's revocation record is kept.
pub fn invalidation_key(subject: &str) -> (r: String)
    ensures
        r@ == invalidation_key_of(subject@),
{
    let mut out = String::new();
    push_str(&mut out, "invalidation/");
    push_str(&mut out, subject);
    out
}

/// A write to the revocation cache: `value` under `key`, kept for `ttl` seconds.
#[derive(Clone, Debug, PartialEq, Eq)]
pub struct CacheWrite {
    pub key: String,
    pub value: String,
    pub ttl: u64,
}

/// The cache write that revokes, at time `now`, every token of `subject`
/// issued so far, for `reason`. A later write for the same subject replaces it.
pub fn record_invalidation(subject: &str, reason: InvalidationReason, now: u64) -> (w: CacheWrite)
    ensures
        w.key@ == invalidation_key_of(subject@),
        w.value@ == record_text(InvalidationData { date: now, reason }),
        w.ttl == INVALIDATION_TTL,
{
    let data = InvalidationData::new(now, reason);
    CacheWrite { key: invalidation_key(subject), value: record_json(&data), ttl: INVALIDATION_TTL }
}

/// What a cache lookup of a subject's record tells: the record, or that there
/// is none. Text that is no record is a fault of the cache.
pub open spec fn lookup_outcome(cached: Option<Seq<char>>) -> Result<InvalidatedResult, ApiError> {
    match cached {
        None => Ok(InvalidatedResult::Not),
        Some(s) => match parse_record(s) {
            Some(d) => Ok(InvalidatedResult::Is(d)),
            None => Err(ApiError::InternalServerError),
        },
    }
}

/// Reads the revocation record out of what the cache held for a subject.
pub fn is_under_invalidation(cached: Option<String>) -> (r: Result<InvalidatedResult, ApiError>)
    ensures
        r == lookup_outcome(
            match cached {
                Some(s) => Some(s@),
                None => None,
            },
        ),
{
    match cached {
        None => Ok(InvalidatedResult::Not),
        Some(s) => match parse_record_json(s.as_str()) {
            Some(d) => Ok(InvalidatedResult::Is(d)),
            None => Err(ApiError::InternalServerError),
        },
    }
}

/// Whether a token with these claims survives this revocation record: only a
/// token issued strictly after the record's time plus the grace window does.
pub open spec fn survives(c: ClaimsView, rec: InvalidatedResult) -> Result<(), ApiError> {
    match rec {
        InvalidatedResult::Not => Ok(()),
        InvalidatedResult::Is(d) => if d.date + GRACE_PERIOD < c.iat {
            Ok(())
        } else {
            Err(ApiError::UserUnderTokenInvalidation(d.reason))
        },
    }
}

/// The verdict on a token whose signature and algorithm were accepted, given
/// the time and what the revocation cache held for its subject.
pub open spec fn token_verdict(c: ClaimsView, now: u64, cached: Option<Seq<char>>) -> Result<ClaimsView, ApiError> {
    if now >= c.exp {
        Err(ApiError::ExpiredAuthToken)
    } else {
        match lookup_outcome(cached) {
            Err(e) => Err(e),
            Ok(rec) => match survives(c, rec) {
                Ok(()) => Ok(c),
                Err(e) => Err(e),
            },
        }
    }
}

/// Weighs a token's claims against what the revocation cache held for its
/// subject. A failed lookup is passed on unchanged: the check fails closed.
pub fn check_invalidation(claims: UserJwtPayload, cached: Result<Option<String>, ApiError>) -> (r: Result<UserJwtPayload, ApiError>)
    ensures
        match cached {
            Err(e) => r == Err::<UserJwtPayload, ApiError>(e),
            Ok(c) => match (r, lookup_outcome(
                match c {
                    Some(s) => Some(s@),
                    None => None,
                },
            )) {
                (Err(e), Err(f)) => e == f,
                (Ok(t), Ok(rec)) => t == claims && survives(claims@, rec) == Ok::<(), ApiError>(()),
                (Err(e), Ok(rec)) => survives(claims@, rec) == Err::<(), ApiError>(e),
                _ => false,
            },
        },
{
    let cached = match cached {
        Ok(c) => c,
        Err(e) => return Err(e),
    };
    match is_under_invalidation(cached) {
        Err(e) => Err(e),
        Ok(InvalidatedResult::Not) => Ok(claims),
        Ok(InvalidatedResult::Is(data)) => {
            if (data.date as u128) + (GRACE_PERIOD as u128) < (claims.iat as u128) {
                Ok(claims)
            } else {
                Err(ApiError::UserUnderTokenInvalidation(data.reason))
            }
        },
    }
}

/// A key-value store with per-key expiry, as the revocation cache behaves: for
/// each key, the value and the time at which it expires.
pub open spec fn cache_get(m: Map<Seq<char>, (Seq<char>, int)>, key: Seq<char>, now: int) -> Option<Seq<char>> {
    if m.contains_key(key) && now < m[key].1 {
        Some(m[key].0)
    } else {
        None
    }
}

/// The store after writing `value` under `key` at time `now`, kept `ttl`
/// seconds; an earlier value under the key is replaced.
pub open spec fn cache_set(m: Map<Seq<char>, (Seq<char>, int)>, key: Seq<char>, value: Seq<char>, ttl: int, now: int) -> Map<Seq<char>, (Seq<char>, int)> {
    m.insert(key, (value, now + ttl))
}

/// The store after `record_invalidation(subject, reason, now)` was written to it.
pub open spec fn after_invalidation(m: Map<Seq<char>, (Seq<char>, int)>, subject: Seq<char>, reason: InvalidationReason, now: u64) -> Map<Seq<char>, (Seq<char>, int)> {
    cache_set(
        m,
        invalidation_key_of(subject),
        record_text(InvalidationData { date: now, reason }),
        INVALIDATION_TTL as int,
        now as int,
    )
}

/// A token is refused once `now` reaches its expiry, whatever the cache holds.
pub proof fn lemma_expired_token_refused(c: ClaimsView, now: u64, cached: Option<Seq<char>>)
    requires
        now >= c.exp,
    ensures
        token_verdict(c, now, cached) == Err::<ClaimsView, ApiError>(ApiError::ExpiredAuthToken),
{
}

/// A token issued at `t0` that lives `TOKEN_LIFETIME` seconds is accepted at
/// every time in `[t0, t0 + TOKEN_LIFETIME)` when its subject has no revocation
/// record, and refused as expired from `t0 + TOKEN_LIFETIME` on.
pub proof fn lemma_expiry_window(c: ClaimsView, now: u64, cached: Option<Seq<char>>)
    requires
        c.exp == c.iat + TOKEN_LIFETIME,
    ensures
        now >= c.iat + TOKEN_LIFETIME ==> token_verdict(c, now, cached) == Err::<ClaimsView, ApiError>(
            ApiError::ExpiredAuthToken,
        ),
        c.iat <= now < c.iat + TOKEN_LIFETIME ==> token_verdict(c, now, None) == Ok::<ClaimsView, ApiError>(c),
{
}

/// A revocation of a token's subject at `t1`, after the token was issued, makes
/// the token refused with the revocation's reason at every time from `t1` to
/// `t1 + GRACE_PERIOD + TOKEN_LIFETIME` at which the token has not expired.
pub proof fn lemma_revocation_refuses_earlier_tokens(
    m: Map<Seq<char>, (Seq<char>, int)>,
    c: ClaimsView,
    reason: InvalidationReason,
    t1: u64,
    now: u64,
)
    requires
        c.iat < t1,
        t1 <= now <= t1 + GRACE_PERIOD + TOKEN_LIFETIME,
        now < c.exp,
    ensures
        token_verdict(
            c,
            now,
            cache_get(after_invalidation(m, c.sub, reason, t1), invalidation_key_of(c.sub), now as int),
        ) == Err::<ClaimsView, ApiError>(ApiError::UserUnderTokenInvalidation(reason)),
{
    lemma_record_round_trip(InvalidationData { date: t1, reason });
}

/// A token issued more than `GRACE_PERIOD` seconds after a revocation of its
/// subject is accepted while it has not expired.
pub proof fn lemma_revocation_spares_later_tokens(
    m: Map<Seq<char>, (Seq<char>, int)>,
    c: ClaimsView,
    reason: InvalidationReason,
    t1: u64,
    now: u64,
)
    requires
        c.iat > t1 + GRACE_PERIOD,
        now < c.exp,
    ensures
        token_verdict(
            c,
            now,
            cache_get(after_invalidation(m, c.sub, reason, t1), invalidation_key_of(c.sub), now as int),
        ) == Ok::<ClaimsView, ApiError>(c),
{
    lemma_record_round_trip(InvalidationData { date: t1, reason });
}

/// Of two revocations of the same subject, only the later one is seen while
/// its record lives: its time and its reason.
pub proof fn lemma_last_invalidation_wins(
    m: Map<Seq<char>, (Seq<char>, int)>,
    subject: Seq<char>,
    r1: InvalidationReason,
    t1: u64,
    r2: InvalidationReason,
    t2: u64,
    now: u64,
)
    requires
        t1 <= t2,
        t2 <= now < t2 + INVALIDATION_TTL,
    ensures
        lookup_outcome(
            cache_get(
                after_invalidation(after_invalidation(m, subject, r1, t1), subject, r2, t2),
                invalidation_key_of(subject),
                now as int,
            ),
        ) == Ok::<InvalidatedResult, ApiError>(
            InvalidatedResult::Is(InvalidationData { date: t2, reason: r2 }),
        ),
{
    lemma_record_round_trip(InvalidationData { date: t2, reason: r2 });
}

/// A token refused by a revocation record stays refused by any later record
/// of the same subject.
pub proof fn lemma_later_record_still_refuses(c: ClaimsView, d1: InvalidationData, d2: InvalidationData)
    requires
        survives(c, InvalidatedResult::Is(d1)) is Err,
        d1.date <= d2.date,
    ensures
        survives(c, InvalidatedResult::Is(d2)) == Err::<(), ApiError>(
            ApiError::UserUnderTokenInvalidation(d2.reason),
        ),
{
}

/// A token refused by a revocation record written at `t1` has expired by the
/// time the record leaves the cache, so it is never accepted again.
pub proof fn lemma_refused_token_expires_before_record(c: ClaimsView, reason: InvalidationReason, t1: u64, now: u64)
    requires
        c.exp == c.iat + TOKEN_LIFETIME,
        survives(c, InvalidatedResult::Is(InvalidationData { date: t1, reason })) is Err,
        now >= t1 + INVALIDATION_TTL,
    ensures
        forall|cached: Option<Seq<char>>| token_verdict(c, now, cached) == Err::<ClaimsView, ApiError>(
            ApiError::ExpiredAuthToken,
        ),
{
}

} // verus!
