//! The principal claims that a token carries, and their JSON text.
use crate::extract::chars_equal;
use crate::json::{
    decimal, lemma_lit_num_step, lemma_lit_str_step, lemma_num_canonical, lemma_split_tail,
    lemma_str_canonical, lit_at, match_lit, parse_num, parse_str,
    push_decimal, push_quoted, quoted, read_num, read_str,
};
use crate::text::{chars_of, push_str, string_of};
use vstd::prelude::*;

verus! {

/// How long a token stays valid after it is issued, in seconds.
pub const TOKEN_LIFETIME: u64 = 3600;

/// The role of a principal.
#[derive(Clone, Copy, Debug, PartialEq, Eq, Structural)]
pub enum UserRole {
    Common,
    Admin,
    Publisher,
}

/// The name a role is written under.
pub open spec fn role_name(r: UserRole) -> Seq<char> {
    match r {
        UserRole::Common => "COMMON"@,
        UserRole::Admin => "ADMIN"@,
        UserRole::Publisher => "PUBLISHER"@,
    }
}

/// The role written under `name`, if any.
pub open spec fn role_of_name(name: Seq<char>) -> Option<UserRole> {
    if name == "COMMON"@ {
        Some(UserRole::Common)
    } else if name == "ADMIN"@ {
        Some(UserRole::Admin)
    } else if name == "PUBLISHER"@ {
        Some(UserRole::Publisher)
    } else {
        None
    }
}

impl UserRole {
    /// The name this role is written under.
    pub fn to_string(&self) -> (r: String)
        ensures
            r@ == role_name(*self),
    {
        let name: &str = match self {
            UserRole::Common => "COMMON",
            UserRole::Admin => "ADMIN",
            UserRole::Publisher => "PUBLISHER",
        };
        name.to_owned()
    }

    /// The role written under `name`, if any.
    pub fn from_name(name: &Vec<char>) -> (r: Option<UserRole>)
        ensures
            r == role_of_name(name@),
    {
        if chars_equal(name, &chars_of("COMMON")) {
            Some(UserRole::Common)
        } else if chars_equal(name, &chars_of("ADMIN")) {
            Some(UserRole::Admin)
        } else if chars_equal(name, &chars_of("PUBLISHER")) {
            Some(UserRole::Publisher)
        } else {
            None
        }
    }
}

/// The claims of a token: who the principal is, and when the token was issued
/// and stops being valid (seconds since the Unix epoch).
#[derive(Clone, Debug, PartialEq, Eq)]
pub struct UserJwtPayload {
    pub sub: String,
    pub username: String,
    pub email: String,
    pub exp: u64,
    pub iat: u64,
    pub role: UserRole,
}

/// The mathematical value of a claim set.
pub struct ClaimsView {
    pub sub: Seq<char>,
    pub username: Seq<char>,
    pub email: Seq<char>,
    pub exp: u64,
    pub iat: u64,
    pub role: UserRole,
}

impl View for UserJwtPayload {
    type V = ClaimsView;

    open spec fn view(&self) -> ClaimsView {
        ClaimsView {
            sub: self.sub@,
            username: self.username@,
            email: self.email@,
            exp: self.exp,
            iat: self.iat,
            role: self.role,
        }
    }
}

impl UserJwtPayload {
    /// Claims for a token issued at `now`: valid for `TOKEN_LIFETIME` seconds,
    /// with the `Common` role when none is given.
    pub fn new(id: String, username: String, email: String, role: Option<UserRole>, now: u64) -> (r: Self)
        requires
            now + TOKEN_LIFETIME <= u64::MAX,
        ensures
            r.sub == id,
            r.username == username,
            r.email == email,
            r.iat == now,
            r.exp == now + TOKEN_LIFETIME,
            r.role == match role {
                Some(x) => x,
                None => UserRole::Common,
            },
    {
        UserJwtPayload {
            sub: id,
            username,
            email,
            exp: now + TOKEN_LIFETIME,
            iat: now,
            role: match role {
                Some(r) => r,
                None => UserRole::Common,
            },
        }
    }
}

/// The JSON text of a claim set.
pub open spec fn claims_text(c: ClaimsView) -> Seq<char> {
    "{\"sub\":"@ + (quoted(c.sub) + (",\"username\":"@ + (quoted(c.username) + (",\"email\":"@
        + (quoted(c.email) + (",\"exp\":"@ + (decimal(c.exp as nat) + (",\"iat\":"@ + (decimal(
        c.iat as nat,
    ) + (",\"role\":"@ + (quoted(role_name(c.role)) + "}"@)))))))))))
}

/// Reads a claim set from its JSON text; `None` for any text that
/// `claims_text` does not produce (`lemma_claims_canonical`).
pub open spec fn parse_claims(t: Seq<char>) -> Option<ClaimsView> {
    if !lit_at(t, 0, "{\"sub\":"@) {
        None
    } else {
        match parse_str(t, "{\"sub\":"@.len() as int) {
            None => None,
            Some((sub, i1)) => if !lit_at(t, i1, ",\"username\":"@) {
                None
            } else {
                match parse_str(t, i1 + ",\"username\":"@.len()) {
                    None => None,
                    Some((username, i2)) => if !lit_at(t, i2, ",\"email\":"@) {
                        None
                    } else {
                        match parse_str(t, i2 + ",\"email\":"@.len()) {
                            None => None,
                            Some((email, i3)) => if !lit_at(t, i3, ",\"exp\":"@) {
                                None
                            } else {
                                match parse_num(t, i3 + ",\"exp\":"@.len()) {
                                    None => None,
                                    Some((exp, i4)) => if !lit_at(t, i4, ",\"iat\":"@) {
                                        None
                                    } else {
                                        match parse_num(t, i4 + ",\"iat\":"@.len()) {
                                            None => None,
                                            Some((iat, i5)) => if !lit_at(t, i5, ",\"role\":"@) {
                                                None
                                            } else {
                                                match parse_str(t, i5 + ",\"role\":"@.len()) {
                                                    None => None,
                                                    Some((rn, i6)) => match role_of_name(rn) {
                                                        None => None,
                                                        Some(role) => if lit_at(t, i6, "}"@) && i6
                                                            + 1 == t.len() {
                                                            Some(
                                                                ClaimsView {
                                                                    sub,
                                                                    username,
                                                                    email,
                                                                    exp: exp as u64,
                                                                    iat: iat as u64,
                                                                    role,
                                                                },
                                                            )
                                                        } else {
                                                            None
                                                        },
                                                    },
                                                }
                                            },
                                        }
                                    },
                                }
                            },
                        }
                    },
                }
            },
        }
    }
}

/// Every role is read back from its name.
pub proof fn lemma_role_name_round_trip(r: UserRole)
    ensures
        role_of_name(role_name(r)) == Some(r),
{
    reveal_strlit("COMMON");
    reveal_strlit("ADMIN");
    reveal_strlit("PUBLISHER");
    assert("COMMON"@.len() == 6);
    assert("ADMIN"@.len() == 5);
    assert("PUBLISHER"@.len() == 9);
}

/// Reading the JSON text of a claim set gives back exactly that claim set.
#[verifier::rlimit(50)]
pub proof fn lemma_claims_round_trip(c: ClaimsView)
    ensures
        parse_claims(claims_text(c)) == Some(c),
{
    reveal_strlit(",\"iat\":");
    reveal_strlit(",\"role\":");
    reveal_strlit("}");
    let e = Seq::<char>::empty();
    let k7 = "}"@;
    let qr = quoted(role_name(c.role));
    let r6 = qr + k7;
    let r5 = decimal(c.iat as nat) + (",\"role\":"@ + r6);
    let r4 = decimal(c.exp as nat) + (",\"iat\":"@ + r5);
    let r3 = quoted(c.email) + (",\"exp\":"@ + r4);
    let r2 = quoted(c.username) + (",\"email\":"@ + r3);
    let r1 = quoted(c.sub) + (",\"username\":"@ + r2);
    let t = claims_text(c);
    assert(t == e + ("{\"sub\":"@ + r1));
    lemma_lit_str_step(e, "{\"sub\":"@, c.sub, ",\"username\":"@ + r2);
    let after_sub = e + "{\"sub\":"@ + quoted(c.sub);
    lemma_lit_str_step(after_sub, ",\"username\":"@, c.username, ",\"email\":"@ + r3);
    let after_username = after_sub + ",\"username\":"@ + quoted(c.username);
    lemma_lit_str_step(after_username, ",\"email\":"@, c.email, ",\"exp\":"@ + r4);
    let after_email = after_username + ",\"email\":"@ + quoted(c.email);
    assert((",\"iat\":"@ + r5)[0] == ',');
    lemma_lit_num_step(after_email, ",\"exp\":"@, c.exp, ",\"iat\":"@ + r5);
    let after_exp = after_email + ",\"exp\":"@ + decimal(c.exp as nat);
    assert((",\"role\":"@ + r6)[0] == ',');
    lemma_lit_num_step(after_exp, ",\"iat\":"@, c.iat, ",\"role\":"@ + r6);
    let after_iat = after_exp + ",\"iat\":"@ + decimal(c.iat as nat);
    lemma_lit_str_step(after_iat, ",\"role\":"@, role_name(c.role), k7);
    let after_role = after_iat + ",\"role\":"@ + qr;
    assert(t == after_role + k7);
    assert(t.subrange(after_role.len() as int, (after_role.len() + 1) as int) == k7);
    lemma_role_name_round_trip(c.role);
}

/// A text that `parse_claims` reads is exactly the JSON text of the claims it
/// yields: the reader accepts no other spelling.
#[verifier::rlimit(50)]
pub proof fn lemma_claims_canonical(t: Seq<char>)
    ensures
        parse_claims(t) matches Some(c) ==> t == claims_text(c),
{
    if let Some(c) = parse_claims(t) {
        reveal_strlit("}");
        let k1 = "{\"sub\":"@;
        let k2 = ",\"username\":"@;
        let k3 = ",\"email\":"@;
        let k4 = ",\"exp\":"@;
        let k5 = ",\"iat\":"@;
        let k6 = ",\"role\":"@;
        let k7 = "}"@;
        let n = t.len() as int;
        let a1 = k1.len() as int;
        let (sub, i1) = parse_str(t, a1)->Some_0;
        let a2 = i1 + k2.len();
        let (username, i2) = parse_str(t, a2)->Some_0;
        let a3 = i2 + k3.len();
        let (email, i3) = parse_str(t, a3)->Some_0;
        let a4 = i3 + k4.len();
        let (exp, i4) = parse_num(t, a4)->Some_0;
        let a5 = i4 + k5.len();
        let (iat, i5) = parse_num(t, a5)->Some_0;
        let a6 = i5 + k6.len();
        let (rn, i6) = parse_str(t, a6)->Some_0;
        lemma_str_canonical(t, a1);
        lemma_str_canonical(t, a2);
        lemma_str_canonical(t, a3);
        lemma_num_canonical(t, a4);
        lemma_num_canonical(t, a5);
        lemma_str_canonical(t, a6);
        assert(rn == role_name(c.role));
        assert(t.subrange(i6, n) == k7);
        lemma_split_tail(t, a6, i6);
        lemma_split_tail(t, i5, a6);
        lemma_split_tail(t, a5, i5);
        lemma_split_tail(t, i4, a5);
        lemma_split_tail(t, a4, i4);
        lemma_split_tail(t, i3, a4);
        lemma_split_tail(t, a3, i3);
        lemma_split_tail(t, i2, a3);
        lemma_split_tail(t, a2, i2);
        lemma_split_tail(t, i1, a2);
        lemma_split_tail(t, a1, i1);
        lemma_split_tail(t, 0, a1);
        assert(t.subrange(0, n) == t);
    }
}

/// The JSON text of a claim set.
pub fn claims_json(c: &UserJwtPayload) -> (r: String)
    ensures
        r@ == claims_text(c@),
{
    let mut out = String::new();
    push_str(&mut out, "{\"sub\":");
    push_quoted(&mut out, c.sub.as_str());
    push_str(&mut out, ",\"username\":");
    push_quoted(&mut out, c.username.as_str());
    push_str(&mut out, ",\"email\":");
    push_quoted(&mut out, c.email.as_str());
    push_str(&mut out, ",\"exp\":");
    push_decimal(&mut out, c.exp);
    push_str(&mut out, ",\"iat\":");
    push_decimal(&mut out, c.iat);
    push_str(&mut out, ",\"role\":");
    let role = c.role.to_string();
    push_quoted(&mut out, role.as_str());
    push_str(&mut out, "}");
    out
}

/// Reads a claim set from its JSON text.
pub fn parse_claims_json(text: &str) -> (r: Option<UserJwtPayload>)
    ensures
        match r {
            Some(c) => parse_claims(text@) == Some(c@),
            None => parse_claims(text@) is None,
        },
{
    proof {
        reveal_strlit("}");
    }
    let t = chars_of(text);
    let p = match match_lit(&t, 0, "{\"sub\":") {
        Some(j) => j,
        None => return None,
    };
    let (sub, i1) = match read_str(&t, p) {
        Some(x) => x,
        None => return None,
    };
    let p = match match_lit(&t, i1, ",\"username\":") {
        Some(j) => j,
        None => return None,
    };
    let (username, i2) = match read_str(&t, p) {
        Some(x) => x,
        None => return None,
    };
    let p = match match_lit(&t, i2, ",\"email\":") {
        Some(j) => j,
        None => return None,
    };
    let (email, i3) = match read_str(&t, p) {
        Some(x) => x,
        None => return None,
    };
    let p = match match_lit(&t, i3, ",\"exp\":") {
        Some(j) => j,
        None => return None,
    };
    let (exp, i4) = match read_num(&t, p) {
        Some(x) => x,
        None => return None,
    };
    let p = match match_lit(&t, i4, ",\"iat\":") {
        Some(j) => j,
        None => return None,
    };
    let (iat, i5) = match read_num(&t, p) {
        Some(x) => x,
        None => return None,
    };
    let p = match match_lit(&t, i5, ",\"role\":") {
        Some(j) => j,
        None => return None,
    };
    let (rn, i6) = match read_str(&t, p) {
        Some(x) => x,
        None => return None,
    };
    let role = match UserRole::from_name(&rn) {
        Some(r) => r,
        None => return None,
    };
    match match_lit(&t, i6, "}") {
        Some(j) => if j != t.len() {
            return None;
        },
        None => return None,
    }
    Some(
        UserJwtPayload {
            sub: string_of(&sub),
            username: string_of(&username),
            email: string_of(&email),
            exp,
            iat,
            role,
        },
    )
}

} // verus!
