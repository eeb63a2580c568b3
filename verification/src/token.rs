//! Guest and sign-in identity data carried by bearer tokens.
//!
//! Signing and verifying the token text is the surrounding process's work;
//! what lives here are the claims themselves: how they are built, when a
//! token counts as available, and how claims map back to an authentication.

use vstd::prelude::*;
use vstd::string::StringExecFns;

verus! {

pub const TOKEN_ISSUER_ID: &'static str = "http://yu.xaxxi.net";

pub const TOKEN_AUDIENCE: &'static str = "http://yu.xaxxi.net";

/// How long a token stays usable: thirty-one days, in seconds.
pub const TOKEN_AVAILABLE_SECONDS: u64 = 3600 * 24 * 31;

/// Who a request acts as: an anonymous guest or a signed-in user.
#[derive(Clone, PartialEq, Debug)]
pub enum Authentication {
    Guest { guestid: String },
    Signin { userid: String },
}

/// The two kinds of authentication a token can carry.
#[derive(Clone, Copy, PartialEq, Eq, Structural, Debug)]
pub enum AuthType {
    Guest,
    Signin,
}

/// A lower-case hexadecimal digit.
pub open spec fn is_lower_hex(c: char) -> bool {
    ('0' <= c && c <= '9') || ('a' <= c && c <= 'f')
}

/// Relies on `uuid::Uuid::new_v4` and its simple formatter: a fresh random
/// identifier written as exactly 32 lower-case hexadecimal digits.
#[verifier::external_body]
fn uuid_simple() -> (r: String)
    ensures
        r@.len() == 32,
        forall|i: int| 0 <= i < r@.len() ==> is_lower_hex(#[trigger] r@[i]),
{
    uuid::Uuid::new_v4().simple().to_string()
}

/// Relies on `uuid::Uuid::new_v4` and its hyphenated formatter: a fresh
/// random identifier written as exactly 36 characters.
#[verifier::external_body]
fn uuid_hyphenated() -> (r: String)
    ensures
        r@.len() == 36,
{
    uuid::Uuid::new_v4().hyphenated().to_string()
}

/// Relies on `std::time::SystemTime::now` and `duration_since`: the seconds
/// since the Unix epoch, or zero when the clock sits before it. Nothing is
/// known of the value.
#[verifier::external_body]
pub fn now() -> u64 {
    std::time::SystemTime::now().duration_since(std::time::UNIX_EPOCH).map(
        |d| d.as_secs(),
    ).unwrap_or(0u64)
}

/// A fresh guest id: `g:` followed by 32 lower-case hexadecimal digits.
fn guestid_unique() -> (r: String)
    ensures
        r@.len() == 34,
        r@[0] == 'g',
        r@[1] == ':',
        forall|i: int| 2 <= i < r@.len() ==> is_lower_hex(#[trigger] r@[i]),
{
    proof {
        reveal_strlit("g:");
    }
    let mut r = "g:".to_owned();
    r.append(uuid_simple().as_str());
    r
}

/// A fresh token id.
fn jwtid_unique() -> (r: String)
    ensures
        r@.len() == 36,
{
    uuid_hyphenated()
}

impl Authentication {
    /// A brand-new guest identity.
    pub fn guest_new() -> (r: Authentication)
        ensures
            r matches Authentication::Guest { guestid } && guestid@.len() == 34 && guestid@[0]
                == 'g' && guestid@[1] == ':' && (forall|i: int|
                2 <= i < guestid@.len() ==> is_lower_hex(#[trigger] guestid@[i])),
    {
        Authentication::Guest { guestid: guestid_unique() }
    }
}

/// The claims of one token: the standard issuer, subject, audience, times
/// and token id, plus the application's authentication kind.
#[derive(Clone, Debug)]
pub struct TokenData {
    pub iss: String,
    pub sub: String,
    pub aud: String,
    pub iat: u64,
    pub nbf: u64,
    pub exp: u64,
    pub jti: String,
    pub auth_type: AuthType,
}

impl TokenData {
    /// Whether the token is usable at second `t`: not before it becomes
    /// valid, and not past its expiry.
    pub open spec fn available_at(&self, t: u64) -> bool {
        self.nbf < t && t <= self.exp
    }

    /// Fresh guest claims: issued now, valid for the fixed period, with the
    /// given subject or a fresh guest id.
    pub fn new(userid: Option<&str>) -> (r: TokenData)
        ensures
            r.iss@ == TOKEN_ISSUER_ID@,
            r.aud@ == TOKEN_AUDIENCE@,
            r.nbf == r.iat,
            r.exp == if r.iat + TOKEN_AVAILABLE_SECONDS <= u64::MAX {
                r.iat + TOKEN_AVAILABLE_SECONDS
            } else {
                u64::MAX as int
            },
            userid matches Some(u) ==> r.sub@ == u@,
            r.auth_type is Guest,
    {
        let epoch = now();
        let exp = match epoch.checked_add(TOKEN_AVAILABLE_SECONDS) {
            Some(e) => e,
            None => u64::MAX,
        };
        let sub = match userid {
            Some(u) => u.to_owned(),
            None => guestid_unique(),
        };
        TokenData {
            iss: TOKEN_ISSUER_ID.to_owned(),
            sub,
            aud: TOKEN_AUDIENCE.to_owned(),
            iat: epoch,
            nbf: epoch,
            exp,
            jti: jwtid_unique(),
            auth_type: AuthType::Guest,
        }
    }

    /// The subject: the guest or user id the token speaks for.
    pub fn get_id(&self) -> (r: &str)
        ensures
            r@ == self.sub@,
    {
        self.sub.as_str()
    }

    /// Whether the token is usable at the given second.
    pub fn is_available_at(&self, epoch: u64) -> (r: bool)
        ensures
            r == self.available_at(epoch),
    {
        self.nbf < epoch && epoch <= self.exp
    }

    /// Whether the token is usable now. The clock is read once; the
    /// comparison itself is [`Self::is_available_at`].
    pub fn is_available(&self) -> bool {
        let epoch = now();
        self.is_available_at(epoch)
    }

    /// Whether the token speaks for a guest.
    pub fn is_guest(&self) -> (r: bool)
        ensures
            r == (self.auth_type is Guest),
    {
        match self.auth_type {
            AuthType::Guest => true,
            AuthType::Signin => false,
        }
    }
}

impl vstd::std_specs::convert::FromSpecImpl<TokenData> for Authentication {
    open spec fn obeys_from_spec() -> bool {
        true
    }

    open spec fn from_spec(t: TokenData) -> Self {
        if t.auth_type is Guest {
            Authentication::Guest { guestid: t.sub }
        } else {
            Authentication::Signin { userid: t.sub }
        }
    }
}

impl From<TokenData> for Authentication {
    /// The authentication a verified token's claims speak for.
    fn from(item: TokenData) -> Self {
        if item.is_guest() {
            Authentication::Guest { guestid: item.sub }
        } else {
            Authentication::Signin { userid: item.sub }
        }
    }
}

} // verus!
