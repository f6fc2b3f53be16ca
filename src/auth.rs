//! The auth service: issues signed tokens, checks them, and checks credentials.
use crate::claims::{
    claims_json, claims_text, lemma_claims_round_trip, parse_claims, parse_claims_json, ClaimsView,
    UserJwtPayload, UserRole, TOKEN_LIFETIME,
};
use crate::revocation::{
    after_invalidation, cache_get, invalidation_key_of, lemma_revocation_refuses_earlier_tokens,
    lemma_revocation_spares_later_tokens, token_verdict, InvalidationReason, GRACE_PERIOD,
};
use crate::error::ApiError;
use jsonwebtoken::errors::Error as JwtError;
use jsonwebtoken::{Algorithm, DecodingKey, Validation};
use vstd::prelude::*;

verus! {

/// `jsonwebtoken::Algorithm`, a plain enum of signing algorithms, declared with
/// its variants visible so that verified code can name and compare them.
#[verifier::external_type_specification]
pub struct ExAlgorithm(Algorithm);

/// The service's public verification key (`jsonwebtoken::DecodingKey`), opaque.
#[verifier::external_type_specification]
#[verifier::external_body]
pub struct ExDecodingKey(DecodingKey);

/// The checks `jsonwebtoken::decode` applies (`jsonwebtoken::Validation`), opaque.
#[verifier::external_type_specification]
#[verifier::external_body]
pub struct ExValidation(Validation);

/// An error of `jsonwebtoken` (`jsonwebtoken::errors::Error`), opaque.
#[verifier::external_type_specification]
#[verifier::external_body]
pub struct ExJwtError(JwtError);

/// An error of `bcrypt` (`bcrypt::BcryptError`), opaque.
#[verifier::external_type_specification]
#[verifier::external_body]
pub struct ExBcryptError(bcrypt::BcryptError);

/// Relies on `jsonwebtoken::Validation::new`, which builds the checks `decode`
/// applies (the one algorithm admitted, the `exp` claim); nothing is stated of it.
pub assume_specification[ jsonwebtoken::Validation::new ](alg: Algorithm) -> Validation;

/// The algorithm that the header of `token` names, read without checking the
/// signature; `None` when the token has no readable header.
pub uninterp spec fn header_algorithm_of(token: Seq<char>) -> Option<Algorithm>;

/// The token that signing `payload` with the Ed25519 private key in
/// `key_pem` (PEM text) gives, with an EdDSA header; `None` when the key cannot
/// be read or the payload is not one JSON value. Ed25519 signatures are
/// deterministic, so the token depends on the two arguments alone.
pub uninterp spec fn eddsa_token_of(key_pem: Seq<u8>, payload: Seq<char>) -> Option<Seq<char>>;

/// The JSON text that the payload segment of `token` carries, without
/// surrounding whitespace; `None` when that segment does not decode to one
/// JSON value.
pub uninterp spec fn signed_payload_of(token: Seq<char>) -> Option<Seq<char>>;

/// JSON whitespace.
pub open spec fn is_json_space(c: char) -> bool {
    c == ' ' || c == '\t' || c == '\n' || c == '\r'
}

/// Text that neither starts nor ends with JSON whitespace.
pub open spec fn is_bare_text(s: Seq<char>) -> bool {
    s.len() > 0 && !is_json_space(s[0]) && !is_json_space(s.last())
}

/// Whether `password` matches the bcrypt `hash`; `None` when the hash is not
/// one bcrypt can read.
pub uninterp spec fn bcrypt_verdict(password: Seq<char>, hash: Seq<char>) -> Option<bool>;

/// Relies on `jsonwebtoken::decode_header`: it decodes the first segment of the
/// token without any signature check, so its outcome depends on the text alone.
#[verifier::external_body]
fn token_header_algorithm(token: &str) -> (r: Result<Algorithm, JwtError>)
    ensures
        match r {
            Ok(a) => header_algorithm_of(token@) == Some(a),
            Err(_) => header_algorithm_of(token@) is None,
        },
{
    match jsonwebtoken::decode_header(token) {
        Ok(h) => Ok(h.alg),
        Err(e) => Err(e),
    }
}

/// Relies on `jsonwebtoken::decode`: it checks the signature under `key` for an
/// algorithm that `validation` admits and the `exp` claim against the system
/// clock, and hands back the payload as the JSON text it carries (read as a
/// `serde_json::value::RawValue`). Whether it succeeds depends on the clock;
/// when it does, the text is the token's payload.
#[verifier::external_body]
fn decode_signed_payload(token: &str, key: &DecodingKey, validation: &Validation) -> (r: Result<String, JwtError>)
    ensures
        r matches Ok(p) ==> signed_payload_of(token@) == Some(p@),
{
    match jsonwebtoken::decode::<Box<serde_json::value::RawValue>>(token, key, validation) {
        Ok(data) => Ok(data.claims.get().to_string()),
        Err(e) => Err(e),
    }
}

/// Relies on `jsonwebtoken::errors::ErrorKind::ExpiredSignature`, the kind that
/// `decode` reports for a token whose `exp` claim has passed.
#[verifier::external_body]
fn is_expired_signature(e: &JwtError) -> (r: bool)
{
    matches!(e.kind(), jsonwebtoken::errors::ErrorKind::ExpiredSignature)
}

/// Relies on `jsonwebtoken::EncodingKey::from_ed_pem`, which reads the key,
/// and `jsonwebtoken::encode`, which signs `Header::new(alg)` and the payload
/// with it. The payload is handed over as a `serde_json::value::RawValue`:
/// `RawValue::from_string` checks that it is one JSON value and keeps it, less
/// any surrounding whitespace, and `encode` writes it unchanged.
#[verifier::external_body]
fn sign_eddsa(alg: Algorithm, key_pem: &Vec<u8>, payload: String) -> (r: Result<String, JwtError>)
    requires
        alg == Algorithm::EdDSA,
    ensures
        match r {
            Ok(t) => eddsa_token_of(key_pem@, payload@) == Some(t@),
            Err(_) => eddsa_token_of(key_pem@, payload@) is None,
        },
        r matches Ok(t) ==> header_algorithm_of(t@) == Some(Algorithm::EdDSA),
        is_bare_text(payload@) ==> (r matches Ok(t) ==> signed_payload_of(t@) == Some(payload@)),
{
    let key = jsonwebtoken::EncodingKey::from_ed_pem(key_pem)?;
    let raw = serde_json::value::RawValue::from_string(payload)?;
    jsonwebtoken::encode(&jsonwebtoken::Header::new(alg), &raw, &key)
}

/// Relies on `bcrypt::verify`: whether the password matches the stored hash,
/// or an error when the hash cannot be read; it depends on the two texts alone.
#[verifier::external_body]
fn check_password(password: &str, hash: &str) -> (r: Result<bool, bcrypt::BcryptError>)
    ensures
        match r {
            Ok(b) => bcrypt_verdict(password@, hash@) == Some(b),
            Err(_) => bcrypt_verdict(password@, hash@) is None,
        },
{
    bcrypt::verify(password, hash)
}

/// Why a token was refused before its claims were looked at.
#[derive(Clone, Copy, Debug, PartialEq, Eq, Structural)]
pub enum TokenError {
    /// The token's expiry has passed.
    Expired,
    /// The token is not a well-formed token signed by the service's key.
    Malformed,
    /// The token names a signing algorithm other than the service's.
    AlgorithmMismatch,
}

/// How a failed signature check is reported.
#[derive(Clone, Copy, Debug, PartialEq, Eq, Structural)]
pub enum SignatureFailure {
    Expired,
    Invalid,
}

/// The only algorithm this service signs and accepts tokens with.
pub open spec fn is_service_algorithm(a: Algorithm) -> bool {
    a == Algorithm::EdDSA
}

/// The verdict on a token's header algorithm.
pub open spec fn algorithm_outcome(alg: Option<Algorithm>) -> Result<(), TokenError> {
    match alg {
        None => Err(TokenError::Malformed),
        Some(a) => if is_service_algorithm(a) {
            Ok(())
        } else {
            Err(TokenError::AlgorithmMismatch)
        },
    }
}

/// The verdict on the payload of a token whose signature check gave `payload`,
/// at time `now`: the claims when the payload reads as claims that have not
/// expired yet.
pub open spec fn payload_outcome(payload: Result<Seq<char>, SignatureFailure>, now: u64) -> Result<ClaimsView, TokenError> {
    match payload {
        Err(SignatureFailure::Expired) => Err(TokenError::Expired),
        Err(SignatureFailure::Invalid) => Err(TokenError::Malformed),
        Ok(text) => match parse_claims(text) {
            None => Err(TokenError::Malformed),
            Some(c) => if now >= c.exp {
                Err(TokenError::Expired)
            } else {
                Ok(c)
            },
        },
    }
}

/// The client-facing error of a refused token.
pub open spec fn token_api_error(e: TokenError) -> ApiError {
    match e {
        TokenError::Expired => ApiError::ExpiredAuthToken,
        TokenError::Malformed | TokenError::AlgorithmMismatch => ApiError::InvalidAuthToken,
    }
}

impl TokenError {
    /// The client-facing error: a malformed token and one with the wrong
    /// algorithm are both an invalid token.
    pub fn to_api_error(&self) -> (r: ApiError)
        ensures
            r == token_api_error(*self),
    {
        match self {
            TokenError::Expired => ApiError::ExpiredAuthToken,
            TokenError::Malformed | TokenError::AlgorithmMismatch => ApiError::InvalidAuthToken,
        }
    }
}

/// Judges a token's header algorithm.
pub fn check_algorithm(alg: Option<Algorithm>) -> (r: Result<(), TokenError>)
    ensures
        r == algorithm_outcome(alg),
{
    match alg {
        None => Err(TokenError::Malformed),
        Some(Algorithm::EdDSA) => Ok(()),
        Some(_) => Err(TokenError::AlgorithmMismatch),
    }
}

/// Judges the outcome of a token's signature check at time `now`.
pub fn check_payload(payload: Result<String, SignatureFailure>, now: u64) -> (r: Result<UserJwtPayload, TokenError>)
    ensures
        match (r, payload_outcome(
            match payload {
                Ok(s) => Ok(s@),
                Err(f) => Err(f),
            },
            now,
        )) {
            (Ok(c), Ok(v)) => c@ == v,
            (Err(e), Err(f)) => e == f,
            _ => false,
        },
{
    match payload {
        Err(SignatureFailure::Expired) => Err(TokenError::Expired),
        Err(SignatureFailure::Invalid) => Err(TokenError::Malformed),
        Ok(text) => match parse_claims_json(text.as_str()) {
            None => Err(TokenError::Malformed),
            Some(c) => if now >= c.exp {
                Err(TokenError::Expired)
            } else {
                Ok(c)
            },
        },
    }
}

/// Judges the outcome of a password check against a stored hash.
pub fn check_password_verdict(verdict: Option<bool>) -> (r: Result<(), ApiError>)
    ensures
        r == match verdict {
            None => Err(ApiError::InternalServerError),
            Some(true) => Ok(()),
            Some(false) => Err(ApiError::UserUnauthorized),
        },
{
    match verdict {
        None => Err(ApiError::InternalServerError),
        Some(true) => Ok(()),
        Some(false) => Err(ApiError::UserUnauthorized),
    }
}

/// What the credential store holds of a user.
#[derive(Clone, Debug, PartialEq, Eq)]
pub struct CredentialRecord {
    pub id: String,
    pub username: String,
    /// The bcrypt hash of the password.
    pub password: String,
    pub role: UserRole,
}

/// The claims of a token issued for a user at time `now`.
pub open spec fn issued_claims(id: Seq<char>, username: Seq<char>, email: Seq<char>, role: UserRole, now: u64) -> ClaimsView {
    ClaimsView { sub: id, username, email, exp: (now + TOKEN_LIFETIME) as u64, iat: now, role }
}

/// What issuing a token for these claims with the signing key `key_pem`
/// gives: the signed token, or an internal error when signing fails or `now`
/// is too late to add the lifetime to.
pub open spec fn issue_outcome(key_pem: Seq<u8>, id: Seq<char>, username: Seq<char>, email: Seq<char>, role: UserRole, now: u64) -> Result<Seq<char>, ApiError> {
    if now > u64::MAX - TOKEN_LIFETIME {
        Err(ApiError::InternalServerError)
    } else {
        match eddsa_token_of(key_pem, claims_text(issued_claims(id, username, email, role, now))) {
            Some(t) => Ok(t),
            None => Err(ApiError::InternalServerError),
        }
    }
}

/// The JSON text of a claim set has no surrounding whitespace.
pub proof fn lemma_claims_text_bare(c: ClaimsView)
    ensures
        is_bare_text(claims_text(c)),
{
    reveal_strlit("{\"sub\":");
    reveal_strlit("}");
    let t = claims_text(c);
    assert(t[0] == '{');
    assert(t.last() == '}');
}

/// Issues and checks the service's tokens with its key pair.
pub struct AuthService {
    key_pem: Vec<u8>,
    dec_key: DecodingKey,
    validation: Validation,
}

impl AuthService {
    /// The private key tokens are signed with, as PEM text.
    pub closed spec fn signing_key(&self) -> Seq<u8> {
        self.key_pem@
    }

    /// A service that signs with the Ed25519 private key `key_pem` (PEM text)
    /// and checks signatures with `dec_key`.
    pub fn new(key_pem: Vec<u8>, dec_key: DecodingKey) -> (r: Self)
        ensures
            r.signing_key() == key_pem@,
    {
        AuthService { key_pem, dec_key, validation: Validation::new(Algorithm::EdDSA) }
    }

    /// Issues a token for the user at time `now`, valid for `TOKEN_LIFETIME`
    /// seconds: the claims' JSON text signed with the service's key under an
    /// EdDSA header. A signing fault, or a `now` too late to add the lifetime
    /// to, is an internal error.
    pub fn generate_token(&self, id: String, email: String, username: String, role: UserRole, now: u64) -> (r: Result<String, ApiError>)
        ensures
            match (r, issue_outcome(self.signing_key(), id@, username@, email@, role, now)) {
                (Ok(t), Ok(u)) => t@ == u,
                (Err(e), Err(f)) => e == f,
                _ => false,
            },
            r matches Ok(t) ==> header_algorithm_of(t@) == Some(Algorithm::EdDSA),
            r matches Ok(t) ==> signed_payload_of(t@) == Some(
                claims_text(issued_claims(id@, username@, email@, role, now)),
            ),
    {
        if now > u64::MAX - TOKEN_LIFETIME {
            return Err(ApiError::InternalServerError);
        }
        let ghost issued = issued_claims(id@, username@, email@, role, now);
        let claims = UserJwtPayload::new(id, username, email, Some(role), now);
        assert(claims@ == issued);
        let payload = claims_json(&claims);
        proof {
            lemma_claims_text_bare(issued);
        }
        match sign_eddsa(Algorithm::EdDSA, &self.key_pem, payload) {
            Ok(t) => Ok(t),
            Err(_) => Err(ApiError::InternalServerError),
        }
    }

    /// Checks a token's algorithm, signature and expiry at time `now`. The
    /// algorithm is checked on its own before the signature; accepted claims
    /// are those the token's payload holds.
    pub fn verify_signed(&self, token: &str, now: u64) -> (r: Result<UserJwtPayload, TokenError>)
        ensures
            algorithm_outcome(header_algorithm_of(token@)) is Err ==> r == Err::<UserJwtPayload, TokenError>(
                algorithm_outcome(header_algorithm_of(token@))->Err_0,
            ),
            r == Err::<UserJwtPayload, TokenError>(TokenError::AlgorithmMismatch) ==> algorithm_outcome(
                header_algorithm_of(token@),
            ) == Err::<(), TokenError>(TokenError::AlgorithmMismatch),
            r is Ok ==> header_algorithm_of(token@) == Some(Algorithm::EdDSA),
            r matches Ok(c) ==> now < c.exp,
            r matches Ok(c) ==> (signed_payload_of(token@) matches Some(p) && parse_claims(p) == Some(c@)),
    {
        let alg = match token_header_algorithm(token) {
            Ok(a) => Some(a),
            Err(_) => None,
        };
        match check_algorithm(alg) {
            Err(e) => return Err(e),
            Ok(()) => {},
        }
        let payload = match decode_signed_payload(token, &self.dec_key, &self.validation) {
            Ok(text) => Ok(text),
            Err(e) => Err(
                if is_expired_signature(&e) {
                    SignatureFailure::Expired
                } else {
                    SignatureFailure::Invalid
                },
            ),
        };
        check_payload(payload, now)
    }

    /// Checks a token as `verify_signed` does, with client-facing errors.
    pub fn decode_token(&self, token: &str, now: u64) -> (r: Result<UserJwtPayload, ApiError>)
        ensures
            algorithm_outcome(header_algorithm_of(token@)) is Err ==> r == Err::<UserJwtPayload, ApiError>(
                ApiError::InvalidAuthToken,
            ),
            r is Ok ==> header_algorithm_of(token@) == Some(Algorithm::EdDSA),
            r matches Ok(c) ==> now < c.exp,
            r matches Ok(c) ==> (signed_payload_of(token@) matches Some(p) && parse_claims(p) == Some(c@)),
            r matches Err(e) ==> e == ApiError::InvalidAuthToken || e == ApiError::ExpiredAuthToken,
    {
        match self.verify_signed(token, now) {
            Ok(c) => Ok(c),
            Err(e) => Err(e.to_api_error()),
        }
    }

    /// Logs a user in: checks the password against the stored record and, when
    /// it matches, issues a token at time `now`. An unknown user and a wrong
    /// password give the same error.
    pub fn auth_user(&self, email: String, password: String, record: Option<CredentialRecord>, now: u64) -> (r: Result<String, ApiError>)
        ensures
            record is None ==> r == Err::<String, ApiError>(ApiError::UserUnauthorized),
            record matches Some(u) ==> match bcrypt_verdict(password@, u.password@) {
                None => r == Err::<String, ApiError>(ApiError::InternalServerError),
                Some(false) => r == Err::<String, ApiError>(ApiError::UserUnauthorized),
                Some(true) => match (r, issue_outcome(self.signing_key(), u.id@, u.username@, email@, u.role, now)) {
                    (Ok(t), Ok(v)) => t@ == v,
                    (Err(e), Err(f)) => e == f,
                    _ => false,
                },
            },
            record matches Some(u) ==> (r matches Ok(t) ==> signed_payload_of(t@) == Some(
                claims_text(issued_claims(u.id@, u.username@, email@, u.role, now)),
            ) && header_algorithm_of(t@) == Some(Algorithm::EdDSA)),
    {
        let user = match record {
            Some(u) => u,
            None => return Err(ApiError::UserUnauthorized),
        };
        let verdict = match check_password(password.as_str(), user.password.as_str()) {
            Ok(b) => Some(b),
            Err(_) => None,
        };
        match check_password_verdict(verdict) {
            Err(e) => Err(e),
            Ok(()) => self.generate_token(user.id, email, user.username, user.role, now),
        }
    }
}

/// A token issued for the claims `issued` (its payload is their JSON text)
/// that the service accepts at `now` yields exactly those claims, so it is
/// accepted only before their expiry.
pub proof fn lemma_accepted_issued_token(token: Seq<char>, issued: ClaimsView, read: ClaimsView, now: u64)
    requires
        signed_payload_of(token) == Some(claims_text(issued)),
        signed_payload_of(token) matches Some(p) && parse_claims(p) == Some(read),
        now < read.exp,
    ensures
        read == issued,
        now < issued.exp,
{
    lemma_claims_round_trip(issued);
}

/// A token issued at `issued.iat` and accepted by the service at `now` is
/// refused with the revocation's reason once its subject was revoked at `t1`
/// after the issue, for as long as the revocation record lives.
pub proof fn lemma_revoked_issued_token(
    token: Seq<char>,
    issued: ClaimsView,
    read: ClaimsView,
    m: Map<Seq<char>, (Seq<char>, int)>,
    reason: InvalidationReason,
    t1: u64,
    now: u64,
)
    requires
        signed_payload_of(token) == Some(claims_text(issued)),
        signed_payload_of(token) matches Some(p) && parse_claims(p) == Some(read),
        now < read.exp,
        issued.iat < t1,
        t1 <= now <= t1 + GRACE_PERIOD + TOKEN_LIFETIME,
    ensures
        token_verdict(
            read,
            now,
            cache_get(after_invalidation(m, read.sub, reason, t1), invalidation_key_of(read.sub), now as int),
        ) == Err::<ClaimsView, ApiError>(ApiError::UserUnderTokenInvalidation(reason)),
{
    lemma_accepted_issued_token(token, issued, read, now);
    lemma_revocation_refuses_earlier_tokens(m, read, reason, t1, now);
}

/// A token issued more than `GRACE_PERIOD` seconds after its subject was
/// revoked at `t1`, and accepted by the service at `now`, passes the
/// revocation check.
pub proof fn lemma_later_issued_token_survives(
    token: Seq<char>,
    issued: ClaimsView,
    read: ClaimsView,
    m: Map<Seq<char>, (Seq<char>, int)>,
    reason: InvalidationReason,
    t1: u64,
    now: u64,
)
    requires
        signed_payload_of(token) == Some(claims_text(issued)),
        signed_payload_of(token) matches Some(p) && parse_claims(p) == Some(read),
        now < read.exp,
        issued.iat > t1 + GRACE_PERIOD,
    ensures
        token_verdict(
            read,
            now,
            cache_get(after_invalidation(m, read.sub, reason, t1), invalidation_key_of(read.sub), now as int),
        ) == Ok::<ClaimsView, ApiError>(issued),
{
    lemma_accepted_issued_token(token, issued, read, now);
    lemma_revocation_spares_later_tokens(m, read, reason, t1, now);
}

/// Claims issued for a user at `now`, once written as a token payload and
/// read back, are accepted at `now` with the user as their subject, when the
/// user has no revocation record.
pub proof fn lemma_issued_claims_accepted(
    id: Seq<char>,
    username: Seq<char>,
    email: Seq<char>,
    role: UserRole,
    now: u64,
)
    requires
        now + TOKEN_LIFETIME <= u64::MAX,
    ensures
        ({
            let c = ClaimsView { sub: id, username, email, exp: (now + TOKEN_LIFETIME) as u64, iat: now, role };
            &&& payload_outcome(Ok(claims_text(c)), now) == Ok::<ClaimsView, TokenError>(c)
            &&& token_verdict(c, now, None) == Ok::<ClaimsView, ApiError>(c)
            &&& c.sub == id
        }),
{
    let c = ClaimsView { sub: id, username, email, exp: (now + TOKEN_LIFETIME) as u64, iat: now, role };
    lemma_claims_round_trip(c);
}

/// A payload read back from a token is refused as expired from its expiry on,
/// and accepted before.
pub proof fn lemma_payload_expiry(c: ClaimsView, now: u64)
    ensures
        payload_outcome(Ok(claims_text(c)), now) == if now >= c.exp {
            Err::<ClaimsView, TokenError>(TokenError::Expired)
        } else {
            Ok(c)
        },
{
    lemma_claims_round_trip(c);
}

} // verus!
