//! Properties that span several operations of the provider.
use vstd::prelude::*;
use vstd::utf8::encode_utf8;

use crate::config::{is_registered_uri, Config};
use crate::error::{token_error_code, token_error_description, token_error_status, TokenError};
use crate::handlers::authorize::{
    authorize_check,
    code_location,
    error_location,
    issued_for,
    AuthorizeCheck,
    AuthorizeQuery,
    DUMMY_USER_SUB,
};
use crate::handlers::token::{codes_after_token, granted_claims, token_decision, TokenRequest, TOKEN_TTL_SECS};
use crate::keys::{claim_numbers, claim_strings, id_token_text, rs256_signature, IdTokenClaims, ID_TOKEN_HEADER_JSON};
use crate::store::{redeemable, AuthCode};
use crate::text::{b64url, is_white_space, url_encoded};

verus! {

/// A code that was just stored is handed back, as stored, until it expires,
/// and not after.
pub proof fn lemma_stored_code_redeemable(
    codes: Map<Seq<char>, AuthCode>,
    code: Seq<char>,
    entry: AuthCode,
    now_ms: u64,
)
    ensures
        redeemable(codes.insert(code, entry), code, now_ms) == (if now_ms <= entry.expires_at {
            Some(entry)
        } else {
            None
        }),
{
}

/// Once consumed, a code is never handed back again, at any time.
pub proof fn lemma_consumed_code_gone(codes: Map<Seq<char>, AuthCode>, code: Seq<char>, now_ms: u64)
    ensures
        redeemable(codes.remove(code), code, now_ms) is None,
{
}

/// A code that is not in the store stays out of it while other codes are
/// issued or consumed, and is never handed back in the meantime.
pub proof fn lemma_absent_code_stays_absent(
    codes: Map<Seq<char>, AuthCode>,
    code: Seq<char>,
    other: Seq<char>,
    entry: AuthCode,
    now_ms: u64,
)
    requires
        !codes.contains_key(code),
        other != code,
    ensures
        redeemable(codes, code, now_ms) is None,
        !codes.insert(other, entry).contains_key(code),
        !codes.remove(other).contains_key(code),
{
}

/// A token request that is granted consumes its code: the same request
/// presented again, at any time, is refused with `invalid_grant`.
pub proof fn lemma_code_single_use(
    config: Config,
    req: TokenRequest,
    codes: Map<Seq<char>, AuthCode>,
    now_ms: u64,
    later_ms: u64,
)
    requires
        token_decision(config, req, codes, now_ms) is Ok,
    ensures
        token_decision(config, req, codes_after_token(config, req, codes), later_ms) == Err::<
            AuthCode,
            TokenError,
        >(TokenError::InvalidGrant),
{
}

/// A code issued by a granted authorization request is redeemed by the
/// token request of the same client, with its secret, for the same redirect
/// URI, until the code expires; the id_token is then for the fixed user, with
/// the nonce and scope of the authorization request.
pub proof fn lemma_authorized_code_grants_token(
    config: Config,
    q: AuthorizeQuery,
    before: Map<Seq<char>, AuthCode>,
    after: Map<Seq<char>, AuthCode>,
    code: Seq<char>,
    issued_ms: u64,
    ttl_ms: u64,
    req: TokenRequest,
    now_ms: u64,
)
    requires
        authorize_check(config, q) is Granted,
        issued_for(before, after, code, q, issued_ms, ttl_ms),
        req.grant_type@ == "authorization_code"@,
        req.code@ == code,
        req.client_id@ == q.client_id@,
        req.client_secret@ == config.client.client_secret@,
        req.redirect_uri@ == q.redirect_uri@,
        now_ms <= issued_ms + ttl_ms,
    ensures
        token_decision(config, req, after, now_ms) == Ok::<AuthCode, TokenError>(after[code]),
        after[code].sub@ == DUMMY_USER_SUB@,
        after[code].nonce == q.nonce,
        after[code].scope == q.scope,
{
    assert(after.contains_key(code));
}

/// The public exponent 65537 (bytes `01 00 01`) is published as `AQAB`.
pub proof fn lemma_exponent_65537_b64url()
    ensures
        b64url(seq![1u8, 0u8, 1u8]) == "AQAB"@,
{
    reveal_strlit("AQAB");
    let b = seq![1u8, 0u8, 1u8];
    assert(b.subrange(3, 3) =~= Seq::<u8>::empty());
    assert(b64url(b.subrange(3, 3)) == Seq::<char>::empty());
    assert(b64url(b) =~= "AQAB"@);
}


/// The judgement of an authorization request, check by check: an unknown
/// client, then a redirect URI that is not one of the client's registered
/// URIs, then a response type other than `code`, then a scope in which
/// `openid` is not one of the white-space-separated words (at any position)
/// stop it; otherwise it is granted.
pub proof fn lemma_authorize_judgement(config: Config, q: AuthorizeQuery)
    ensures
        (q.client_id@ != config.client.client_id@) ==> authorize_check(config, q)
            is UnknownClient,
        (q.client_id@ == config.client.client_id@ && !(exists|i: int|
            0 <= i < config.client.redirect_uris@.len() && (#[trigger] config.client.redirect_uris@[i])@
                == q.redirect_uri@)) ==> authorize_check(config, q) is UnregisteredRedirectUri,
        (q.client_id@ == config.client.client_id@ && (exists|i: int|
            0 <= i < config.client.redirect_uris@.len() && (#[trigger] config.client.redirect_uris@[i])@
                == q.redirect_uri@) && q.response_type@ != "code"@) ==> authorize_check(config, q)
            is UnsupportedResponseType,
        (q.client_id@ == config.client.client_id@ && (exists|i: int|
            0 <= i < config.client.redirect_uris@.len() && (#[trigger] config.client.redirect_uris@[i])@
                == q.redirect_uri@) && q.response_type@ == "code"@) ==> ((authorize_check(config, q)
            is Granted) <==> (exists|i: int|
            #![trigger q.scope@.subrange(i, i + 6)]
            0 <= i && i + 6 <= q.scope@.len() && q.scope@.subrange(i, i + 6) == "openid"@ && (i == 0
                || is_white_space(q.scope@[i - 1])) && (i + 6 == q.scope@.len() || is_white_space(
                q.scope@[i + 6]))))
            && ((authorize_check(config, q) is InvalidScope) <==> !(authorize_check(config, q)
            is Granted)),
{
    reveal_strlit("openid");
    if q.client_id@ == config.client.client_id@ && is_registered_uri(
        config.client.redirect_uris@,
        q.redirect_uri@,
    ) && q.response_type@ == "code"@ {
        let s = q.scope@;
        if authorize_check(config, q) is Granted {
            let i = choose|i: int| crate::text::word_at(s, "openid"@, i);
            assert(s.subrange(i, i + 6) == "openid"@);
        }
        if exists|i: int|
            #![trigger s.subrange(i, i + 6)]
            0 <= i && i + 6 <= s.len() && s.subrange(i, i + 6) == "openid"@ && (i == 0 || is_white_space(
                s[i - 1])) && (i + 6 == s.len() || is_white_space(s[i + 6])) {
            let i = choose|i: int|
                #![trigger s.subrange(i, i + 6)]
                0 <= i && i + 6 <= s.len() && s.subrange(i, i + 6) == "openid"@ && (i == 0
                    || is_white_space(s[i - 1])) && (i + 6 == s.len() || is_white_space(s[i + 6]));
            assert(crate::text::word_at(s, "openid"@, i));
        }
    }
}

/// Every redirect of the authorization endpoint carries the request's
/// `state` back, percent-encoded, whatever it reports: an error redirect is
/// the redirect URI, `?error=` and the error, then `&state=` and the encoded
/// state when there is one; a code redirect likewise with `?code=`.
pub proof fn lemma_redirects_carry_state(
    redirect_uri: Seq<char>,
    error: Seq<char>,
    code: Seq<char>,
    state: Option<String>,
)
    ensures
        error_location(redirect_uri, error, state) == (match state {
            Some(s) => redirect_uri + "?error="@ + error + "&state="@ + url_encoded(s@),
            None => redirect_uri + "?error="@ + error,
        }),
        code_location(redirect_uri, code, state) == (match state {
            Some(s) => redirect_uri + "?code="@ + code + "&state="@ + url_encoded(s@),
            None => redirect_uri + "?code="@ + code,
        }),
{
}

/// The members of the claims object: `iss`, `sub` and `aud` with the
/// strings of the same name, `nonce` only when there is one, and `exp` and
/// `iat` with the numbers of the same name; no name occurs twice.
pub proof fn lemma_claims_members(c: IdTokenClaims)
    ensures
        ({
            let s = claim_strings(c);
            let n = claim_numbers(c);
            &&& forall|i: int, j: int| 0 <= i < j < s.len() ==> (#[trigger] s[i]).0 != (#[trigger] s[j]).0
            &&& forall|i: int, j: int| 0 <= i < j < n.len() ==> (#[trigger] n[i]).0 != (#[trigger] n[j]).0
            &&& forall|i: int, j: int|
                0 <= i < s.len() && 0 <= j < n.len() ==> (#[trigger] s[i]).0 != (#[trigger] n[j]).0
            &&& exists|i: int| 0 <= i < s.len() && #[trigger] s[i] == ("iss"@, c.iss@)
            &&& exists|i: int| 0 <= i < s.len() && #[trigger] s[i] == ("sub"@, c.sub@)
            &&& exists|i: int| 0 <= i < s.len() && #[trigger] s[i] == ("aud"@, c.aud@)
            &&& exists|i: int| 0 <= i < n.len() && #[trigger] n[i] == ("exp"@, c.exp)
            &&& exists|i: int| 0 <= i < n.len() && #[trigger] n[i] == ("iat"@, c.iat)
            &&& forall|i: int|
                0 <= i < s.len() ==> ((#[trigger] s[i]).0 == "iss"@ && s[i].1 == c.iss@) || (s[i].0
                    == "sub"@ && s[i].1 == c.sub@) || (s[i].0 == "aud"@ && s[i].1 == c.aud@) || (s[i].0
                    == "nonce"@ && (c.nonce matches Some(v) && v@ == s[i].1))
            &&& s.len() == 3 + (if c.nonce is Some { 1int } else { 0int })
            &&& n.len() == 2
        }),
{
    reveal_strlit("iss");
    reveal_strlit("sub");
    reveal_strlit("aud");
    reveal_strlit("nonce");
    reveal_strlit("exp");
    reveal_strlit("iat");
    let s = claim_strings(c);
    let n = claim_numbers(c);
    assert(s[0] == ("iss"@, c.iss@));
    assert(s[1] == ("sub"@, c.sub@));
    assert(s[2] == ("aud"@, c.aud@));
    assert(n[0] == ("exp"@, c.exp));
    assert(n[1] == ("iat"@, c.iat));
    assert("iss"@[0] != "sub"@[0] && "iss"@[0] != "aud"@[0] && "iss"@[0] != "nonce"@[0]);
    assert("sub"@[0] != "aud"@[0] && "sub"@[0] != "nonce"@[0] && "aud"@[0] != "nonce"@[0]);
    assert("exp"@[0] != "iat"@[0]);
    assert("iss"@[0] != "exp"@[0] && "iss"@[1] != "iat"@[1]);
    assert("sub"@[0] != "exp"@[0] && "sub"@[0] != "iat"@[0]);
    assert("aud"@[0] != "exp"@[0] && "aud"@[0] != "iat"@[0]);
    assert("nonce"@[0] != "exp"@[0] && "nonce"@[0] != "iat"@[0]);
    if c.nonce is Some {
        assert(s[3] == ("nonce"@, c.nonce->0@));
    }
}

/// The claims granted for a redeemed code: issuer and audience from the
/// configuration, subject and nonce from the code, issued at `now_secs` and
/// expiring `TOKEN_TTL_SECS` later.
pub proof fn lemma_granted_claims_fields(config: Config, entry: AuthCode, now_secs: usize, c: IdTokenClaims)
    requires
        granted_claims(config, entry, now_secs, c),
    ensures
        c.iss@ == config.issuer@,
        c.sub@ == entry.sub@,
        c.aud@ == config.client.client_id@,
        c.iat == now_secs,
        c.exp == now_secs + 3600,
        c.nonce == entry.nonce,
{
}

/// How the token endpoint judges a request, check by check: another grant
/// type than `authorization_code` is `unsupported_grant_type`; then a wrong
/// client id or secret is `invalid_client`; then the request is granted
/// exactly when the code is stored, has not expired, and was issued to this
/// client for this redirect URI, and `invalid_grant` otherwise. The granted
/// entry is the stored one.
pub proof fn lemma_token_judgement(
    config: Config,
    req: TokenRequest,
    codes: Map<Seq<char>, AuthCode>,
    now_ms: u64,
)
    ensures
        req.grant_type@ != "authorization_code"@ ==> token_decision(config, req, codes, now_ms)
            == Err::<AuthCode, TokenError>(TokenError::UnsupportedGrantType),
        req.grant_type@ == "authorization_code"@ && (req.client_id@ != config.client.client_id@
            || req.client_secret@ != config.client.client_secret@) ==> token_decision(
            config,
            req,
            codes,
            now_ms,
        ) == Err::<AuthCode, TokenError>(TokenError::InvalidClient),
        req.grant_type@ == "authorization_code"@ && req.client_id@ == config.client.client_id@
            && req.client_secret@ == config.client.client_secret@ ==> (token_decision(
            config,
            req,
            codes,
            now_ms,
        ) == if codes.contains_key(req.code@) && now_ms <= codes[req.code@].expires_at
            && codes[req.code@].client_id@ == req.client_id@ && codes[req.code@].redirect_uri@
            == req.redirect_uri@ {
            Ok::<AuthCode, TokenError>(codes[req.code@])
        } else {
            Err::<AuthCode, TokenError>(TokenError::InvalidGrant)
        }),
{
}

/// A token request that is refused before the client is authenticated (an
/// unsupported grant type, a wrong client id or a wrong secret) leaves the
/// codes untouched: every later request is judged as if it had not been
/// made. Once the client is authenticated, the presented code is gone.
pub proof fn lemma_unauthenticated_request_keeps_codes(
    config: Config,
    refused: TokenRequest,
    next: TokenRequest,
    codes: Map<Seq<char>, AuthCode>,
    now_ms: u64,
)
    ensures
        (refused.grant_type@ != "authorization_code"@ || refused.client_id@
            != config.client.client_id@ || refused.client_secret@ != config.client.client_secret@)
            ==> codes_after_token(config, refused, codes) == codes && token_decision(
            config,
            next,
            codes_after_token(config, refused, codes),
            now_ms,
        ) == token_decision(config, next, codes, now_ms),
        (refused.grant_type@ == "authorization_code"@ && refused.client_id@
            == config.client.client_id@ && refused.client_secret@ == config.client.client_secret@)
            ==> codes_after_token(config, refused, codes) == codes.remove(refused.code@),
{
}

/// The answers of the token endpoint's errors: `invalid_client` is a 401,
/// every other error a 400, each with its RFC 6749 error code.
pub proof fn lemma_token_error_answers(msg: &'static str)
    ensures
        token_error_status(TokenError::InvalidRequest(msg)) == 400,
        token_error_code(TokenError::InvalidRequest(msg)) == "invalid_request"@,
        token_error_description(TokenError::InvalidRequest(msg)) == msg@,
        token_error_status(TokenError::InvalidClient) == 401,
        token_error_code(TokenError::InvalidClient) == "invalid_client"@,
        token_error_status(TokenError::InvalidGrant) == 400,
        token_error_code(TokenError::InvalidGrant) == "invalid_grant"@,
        token_error_status(TokenError::UnsupportedGrantType) == 400,
        token_error_code(TokenError::UnsupportedGrantType) == "unsupported_grant_type"@,
        token_error_description(TokenError::InvalidClient) == "client authentication failed"@,
        token_error_description(TokenError::InvalidGrant)
            == "authorization code is invalid, expired, or already used"@,
        token_error_description(TokenError::UnsupportedGrantType)
            == "only authorization_code is supported"@,
{
}

/// An id_token is the base64url header, `.`, the base64url claims, `.`, and
/// the base64url RS256 signature, under the signing key, of the UTF-8 bytes
/// of the first two parts; the header is the fixed RS256 header.
pub proof fn lemma_id_token_layout(private_key: Seq<u8>, claims_json: Seq<u8>)
    ensures
        ({
            let header = encode_utf8(ID_TOKEN_HEADER_JSON@);
            let signed = b64url(header) + seq!['.'] + b64url(claims_json);
            id_token_text(private_key, claims_json) == signed + seq!['.'] + b64url(
                rs256_signature(private_key, encode_utf8(signed))->0,
            )
        }),
{
}

} // verus!
