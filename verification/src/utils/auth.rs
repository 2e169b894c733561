//! The rules of session tokens: what a token claims, how long it lives, and
//! when a presented token still counts.
//!
//! Signing a token and checking its signature are the caller's work. The
//! caller hands over what the signature check gave: the claims of a token
//! whose signature is good, or nothing.

use crate::domain::data_stores::BannedTokenStore;
use crate::domain::email::Email;
use crate::domain::error::AuthAPIError;
use crate::secret::SecretText;
use vstd::prelude::*;

verus! {

/// The name of the cookie that carries the session token.
pub const JWT_COOKIE_NAME: &'static str = "jwt";

/// How long a session token lives, in seconds.
pub const TOKEN_TTL_SECONDS: u64 = 600;

/// The session cookie, as the transport has to set it.
#[derive(Debug)]
pub struct AuthCookie {
    pub name: String,
    pub value: SecretText,
    pub path: String,
    pub http_only: bool,
}

/// The session cookie for a signed token: it has the fixed name, holds the
/// token unchanged, is sent with every path and is hidden from scripts.
pub fn create_auth_cookie(token: String) -> (cookie: AuthCookie)
    ensures
        cookie.name@ == JWT_COOKIE_NAME@,
        cookie.value@ == token@,
        cookie.path@ == "/"@,
        cookie.http_only,
{
    AuthCookie {
        name: JWT_COOKIE_NAME.to_owned(),
        value: SecretText::new(token),
        path: "/".to_owned(),
        http_only: true,
    }
}

/// What a session token claims: whom it was issued to, and the second,
/// counted from the epoch, at which it stops to count.
#[derive(Debug)]
pub struct Claims {
    pub sub: String,
    pub exp: u64,
}

/// What a set of claims says, as plain values.
pub struct ClaimsView {
    pub sub: Seq<char>,
    pub exp: u64,
}

impl View for Claims {
    type V = ClaimsView;

    open spec fn view(&self) -> ClaimsView {
        ClaimsView { sub: self.sub@, exp: self.exp }
    }
}

/// What a signature check gave, as plain values.
pub open spec fn decoded_view(decoded: Option<Claims>) -> Option<ClaimsView> {
    match decoded {
        Some(claims) => Some(claims@),
        None => None,
    }
}

/// Whether a token presented at the second `now` still counts: its
/// signature was good and gave `decoded`, it has not expired, and it was
/// not revoked.
pub open spec fn token_is_live(
    banned: Set<Seq<char>>,
    token: Seq<char>,
    decoded: Option<ClaimsView>,
    now: u64,
) -> bool {
    &&& decoded is Some
    &&& now < decoded->Some_0.exp
    &&& !banned.contains(token)
}

/// A token that is on the denylist does not count, whatever it claims and
/// whenever it is presented.
pub proof fn lemma_revoked_token_is_dead(
    banned: Set<Seq<char>>,
    token: Seq<char>,
    decoded: Option<ClaimsView>,
    now: u64,
)
    ensures
        !token_is_live(banned.insert(token), token, decoded, now),
{
}

/// A token lives for the time to live and no longer: one issued at the
/// second `issued_at` and never revoked counts at the second `now` exactly
/// as long as the time to live has not run out.
pub proof fn lemma_token_lifetime(
    banned: Set<Seq<char>>,
    token: Seq<char>,
    subject: Seq<char>,
    issued_at: u64,
    now: u64,
)
    requires
        issued_at + TOKEN_TTL_SECONDS <= u64::MAX,
        !banned.contains(token),
    ensures
        token_is_live(
            banned,
            token,
            Some(ClaimsView { sub: subject, exp: (issued_at + TOKEN_TTL_SECONDS) as u64 }),
            now,
        ) <==> now < issued_at + TOKEN_TTL_SECONDS,
{
}

/// The claims of a token issued to `email` at the second `now`, or nothing
/// where the expiry would not fit the clock.
pub fn new_claims(email: &Email, now: u64) -> (r: Option<Claims>)
    ensures
        r is Some <==> now + TOKEN_TTL_SECONDS <= u64::MAX,
        r is Some ==> r->Some_0@ == (ClaimsView {
            sub: email@,
            exp: (now + TOKEN_TTL_SECONDS) as u64,
        }),
{
    match now.checked_add(TOKEN_TTL_SECONDS) {
        Some(exp) => Some(Claims { sub: email.as_ref().expose_secret().clone(), exp }),
        None => None,
    }
}

/// Judges a presented token. Signature and expiry are looked at first, the
/// denylist only for a token that passed both. Every failure is the same
/// `InvalidToken`: which check failed is not told.
pub fn validate_token<B: BannedTokenStore>(
    banned_token_store: &B,
    token: &str,
    decoded: Option<Claims>,
    now: u64,
) -> (r: Result<Claims, AuthAPIError>)
    ensures
        r is Ok ==> decoded == Some(r->Ok_0),
        r is Ok ==> token_is_live(banned_token_store.tokens(), token@, decoded_view(decoded), now),
        r is Err ==> r->Err_0 == AuthAPIError::InvalidToken,
        B::never_fails() ==> (r is Ok <==> token_is_live(
            banned_token_store.tokens(),
            token@,
            decoded_view(decoded),
            now,
        )),
{
    match decoded {
        None => Err(AuthAPIError::InvalidToken),
        Some(claims) => {
            if now >= claims.exp {
                return Err(AuthAPIError::InvalidToken);
            }
            match banned_token_store.contains_token(token.to_owned()) {
                Ok(false) => Ok(claims),
                _ => Err(AuthAPIError::InvalidToken),
            }
        },
    }
}

} // verus!
