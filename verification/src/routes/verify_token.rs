//! Token introspection for other services.

use crate::domain::data_stores::BannedTokenStore;
use crate::domain::error::AuthAPIError;
use crate::routes::login::STATUS_OK;
use crate::utils::auth::decoded_view;
use crate::utils::auth::token_is_live;
use crate::utils::auth::validate_token;
use crate::utils::auth::Claims;
use vstd::prelude::*;

verus! {

/// A request to judge a token. It has no debug print, for a token is a
/// credential.
pub struct VerifyTokenRequest {
    pub token: String,
}

/// Judges the token of the request, given what the signature check made of
/// it. Nothing is changed.
pub fn verify_token<B: BannedTokenStore>(
    banned_token_store: &B,
    request: VerifyTokenRequest,
    decoded: Option<Claims>,
    now: u64,
) -> (r: Result<u16, AuthAPIError>)
    ensures
        r is Ok ==> r->Ok_0 == STATUS_OK && token_is_live(
            banned_token_store.tokens(),
            request.token@,
            decoded_view(decoded),
            now,
        ),
        r is Err ==> r->Err_0 == AuthAPIError::InvalidToken,
        B::never_fails() ==> (r is Ok <==> token_is_live(
            banned_token_store.tokens(),
            request.token@,
            decoded_view(decoded),
            now,
        )),
{
    match validate_token(banned_token_store, request.token.as_str(), decoded, now) {
        Ok(_) => Ok(STATUS_OK),
        Err(_) => Err(AuthAPIError::InvalidToken),
    }
}

} // verus!
