//! Logout: the session token is revoked.

use crate::domain::data_stores::BannedTokenStore;
use crate::domain::error::AuthAPIError;
use crate::routes::login::STATUS_OK;
use crate::utils::auth::decoded_view;
use crate::utils::auth::token_is_live;
use crate::utils::auth::validate_token;
use crate::utils::auth::Claims;
use crate::utils::auth::ClaimsView;
use vstd::prelude::*;

verus! {

/// How a logout ends, where the denylist does not fail unexpectedly:
/// refused for want of a token where no cookie came, refused as invalid
/// where the token does not count any more, and accepted otherwise.
pub open spec fn logout_outcome(
    banned: Set<Seq<char>>,
    cookie: Option<Seq<char>>,
    decoded: Option<ClaimsView>,
    now: u64,
) -> Result<(), AuthAPIError> {
    match cookie {
        None => Err(AuthAPIError::MissingToken),
        Some(token) => if token_is_live(banned, token, decoded, now) {
            Ok(())
        } else {
            Err(AuthAPIError::InvalidToken)
        },
    }
}

/// A text that may be missing, as a plain value.
pub open spec fn cookie_view(cookie: Option<String>) -> Option<Seq<char>> {
    match cookie {
        Some(token) => Some(token@),
        None => None,
    }
}

/// An answer to a logout, without its status.
pub open spec fn logout_result_view(r: Result<u16, AuthAPIError>) -> Result<(), AuthAPIError> {
    match r {
        Ok(_) => Ok(()),
        Err(e) => Err(e),
    }
}

/// Handles a logout request, given the value of the session cookie if one
/// came, and what the signature check made of it. The token is judged and
/// revoked in one step on the store, so that no other request sees it as
/// valid in between. On success the caller clears the cookie.
pub fn logout<B: BannedTokenStore>(
    banned_token_store: &mut B,
    cookie: Option<String>,
    decoded: Option<Claims>,
    now: u64,
) -> (r: Result<u16, AuthAPIError>)
    ensures
        ({
            let before = old(banned_token_store).tokens();
            let after = final(banned_token_store).tokens();
            let outcome = logout_outcome(before, cookie_view(cookie), decoded_view(decoded), now);
            &&& cookie is None <==> r is Err && r->Err_0 == AuthAPIError::MissingToken
            &&& outcome is Err ==> logout_result_view(r) == outcome
            &&& r is Ok ==> outcome is Ok && r->Ok_0 == STATUS_OK && after == before.insert(
                cookie->Some_0@,
            )
            &&& r is Err ==> after == before && (r->Err_0 == AuthAPIError::MissingToken
                || r->Err_0 == AuthAPIError::InvalidToken || r->Err_0
                == AuthAPIError::UnexpectedError)
            &&& B::never_fails() ==> logout_result_view(r) == outcome
        }),
{
    let token = match cookie {
        Some(token) => token,
        None => {
            return Err(AuthAPIError::MissingToken);
        },
    };
    match validate_token(&*banned_token_store, token.as_str(), decoded, now) {
        Ok(_) => {},
        Err(_) => {
            return Err(AuthAPIError::InvalidToken);
        },
    }
    match banned_token_store.add_token(token) {
        Ok(()) => Ok(STATUS_OK),
        Err(_) => Err(AuthAPIError::UnexpectedError),
    }
}

/// Logout revokes for good: after a logout that was accepted, the same
/// token is refused as invalid by a later logout, whatever the signature
/// check makes of it then and whenever it is presented.
pub proof fn lemma_logout_revokes(
    banned: Set<Seq<char>>,
    token: Seq<char>,
    decoded: Option<ClaimsView>,
    now: u64,
    later_decoded: Option<ClaimsView>,
    later: u64,
)
    requires
        logout_outcome(banned, Some(token), decoded, now) is Ok,
    ensures
        !token_is_live(banned.insert(token), token, later_decoded, later),
        logout_outcome(banned.insert(token), Some(token), later_decoded, later) == Err::<
            (),
            AuthAPIError,
        >(AuthAPIError::InvalidToken),
{
}

} // verus!
