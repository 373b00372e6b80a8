//! The token endpoint (authorization code grant).
use vstd::prelude::*;
use vstd::string::*;

use crate::config::Config;
use crate::error::TokenError;
use crate::keys::{claims_json, id_token_text, IdTokenClaims, SigningKeys};
use crate::store::{redeemable, AuthCode, CodeStore};
use crate::text::{all_ascii_alphanumeric, same_text};
use crate::util::random_token;

verus! {

/// Lifetime of the issued tokens, in seconds.
pub const TOKEN_TTL_SECS: usize = 3600;

/// Length of an issued access token, in characters.
pub const ACCESS_TOKEN_LEN: usize = 32;

/// The form parameters of a token request (client authentication by
/// `client_secret_post`).
pub struct TokenRequest {
    pub grant_type: String,
    pub code: String,
    pub redirect_uri: String,
    pub client_id: String,
    pub client_secret: String,
}

/// A granted token request: the claims of the id_token to sign and the
/// granted scope.
pub struct IdTokenGrant {
    pub claims: IdTokenClaims,
    pub scope: String,
}

/// The successful answer of the token endpoint.
pub struct TokenResponse {
    pub access_token: String,
    pub token_type: String,
    pub expires_in: usize,
    pub id_token: String,
    pub scope: String,
}

/// How the token endpoint judges `req` against the codes in `codes` at time
/// `now_ms`, in the order of the checks: the grant type, then the client's
/// credentials, then the code, which must be redeemable and issued to this
/// client for this redirect URI. `Ok` carries the redeemed code.
pub open spec fn token_decision(
    config: Config,
    req: TokenRequest,
    codes: Map<Seq<char>, AuthCode>,
    now_ms: u64,
) -> Result<AuthCode, TokenError> {
    if req.grant_type@ != "authorization_code"@ {
        Err(TokenError::UnsupportedGrantType)
    } else if req.client_id@ != config.client.client_id@ || req.client_secret@
        != config.client.client_secret@ {
        Err(TokenError::InvalidClient)
    } else {
        match redeemable(codes, req.code@, now_ms) {
            None => Err(TokenError::InvalidGrant),
            Some(entry) => {
                if entry.client_id@ != req.client_id@ || entry.redirect_uri@ != req.redirect_uri@ {
                    Err(TokenError::InvalidGrant)
                } else {
                    Ok(entry)
                }
            },
        }
    }
}

/// The codes left after the token endpoint handled `req`: once the grant
/// type and the client are accepted, the presented code is gone, whether or
/// not it is then accepted.
pub open spec fn codes_after_token(
    config: Config,
    req: TokenRequest,
    codes: Map<Seq<char>, AuthCode>,
) -> Map<Seq<char>, AuthCode> {
    if req.grant_type@ != "authorization_code"@ || req.client_id@ != config.client.client_id@
        || req.client_secret@ != config.client.client_secret@ {
        codes
    } else {
        codes.remove(req.code@)
    }
}

/// The id_token claims granted for the redeemed `entry` at `now_secs`.
pub open spec fn granted_claims(config: Config, entry: AuthCode, now_secs: usize, claims: IdTokenClaims) -> bool {
    &&& claims.iss == config.issuer
    &&& claims.sub == entry.sub
    &&& claims.aud == config.client.client_id
    &&& claims.iat == now_secs
    &&& claims.exp == now_secs + TOKEN_TTL_SECS
    &&& claims.nonce == entry.nonce
}

fn clone_option(s: &Option<String>) -> (c: Option<String>)
    ensures
        c == *s,
{
    match s {
        Some(v) => Some(v.clone()),
        None => None,
    }
}

/// Judges a token request at time `now_ms` (milliseconds since the Unix
/// epoch, for the code's expiry) and `now_secs` (seconds since the Unix
/// epoch, for the id_token), and consumes the presented code once the client
/// is authenticated. On success the id_token claims are those of the
/// redeemed code; they remain to be serialized and signed.
pub fn token(config: &Config, codes: &mut CodeStore, req: &TokenRequest, now_ms: u64, now_secs: usize) -> (result:
    Result<IdTokenGrant, TokenError>)
    requires
        now_secs + TOKEN_TTL_SECS <= usize::MAX,
    ensures
        final(codes)@ == codes_after_token(*config, *req, old(codes)@),
        final(codes).ttl_ms() == old(codes).ttl_ms(),
        match token_decision(*config, *req, old(codes)@, now_ms) {
            Ok(entry) => result matches Ok(grant) && granted_claims(*config, entry, now_secs, grant.claims)
                && grant.scope == entry.scope,
            Err(e) => result == Err::<IdTokenGrant, TokenError>(e),
        },
{
    if !same_text(req.grant_type.as_str(), "authorization_code") {
        return Err(TokenError::UnsupportedGrantType);
    }
    if req.client_id != config.client.client_id || req.client_secret != config.client.client_secret {
        return Err(TokenError::InvalidClient);
    }
    let auth_code = match codes.consume(req.code.as_str(), now_ms) {
        Some(entry) => entry,
        None => {
            return Err(TokenError::InvalidGrant);
        },
    };
    if auth_code.client_id != req.client_id || auth_code.redirect_uri != req.redirect_uri {
        return Err(TokenError::InvalidGrant);
    }
    let claims = IdTokenClaims {
        iss: config.issuer.clone(),
        sub: auth_code.sub.clone(),
        aud: config.client.client_id.clone(),
        exp: now_secs + TOKEN_TTL_SECS,
        iat: now_secs,
        nonce: clone_option(&auth_code.nonce),
    };
    Ok(IdTokenGrant { claims, scope: auth_code.scope })
}

/// Completes a granted token request: signs the id_token for the granted
/// claims with `keys` and issues a fresh random access token with it.
pub fn token_response(keys: &SigningKeys, grant: IdTokenGrant) -> (response: TokenResponse)
    ensures
        response.id_token@ == id_token_text(keys.private_key(), claims_json(grant.claims)),
        response.token_type@ == "Bearer"@,
        response.expires_in == TOKEN_TTL_SECS,
        response.scope == grant.scope,
        response.access_token@.len() == ACCESS_TOKEN_LEN,
        all_ascii_alphanumeric(response.access_token@),
{
    let id_token = keys.sign_id_token(&grant.claims);
    let access_token = random_token(ACCESS_TOKEN_LEN);
    TokenResponse {
        access_token,
        token_type: String::from_str("Bearer"),
        expires_in: TOKEN_TTL_SECS,
        id_token,
        scope: grant.scope,
    }
}

} // verus!
