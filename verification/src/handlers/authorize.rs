//! The authorization endpoint (authorization code flow).
use vstd::prelude::*;
use vstd::string::*;

use crate::config::{is_registered_uri, Config};
use crate::store::{AuthCode, CodeStore, CODE_LEN};
use crate::text::{all_ascii_alphanumeric, contains_word, same_text, has_word, url_encode, url_encoded};

verus! {

/// The subject that every authorization is granted to: there is no login
/// step yet, the user counts as signed in.
pub const DUMMY_USER_SUB: &'static str = "user-001";

/// The query parameters of an authorization request.
pub struct AuthorizeQuery {
    pub response_type: String,
    pub client_id: String,
    pub redirect_uri: String,
    pub scope: String,
    pub state: Option<String>,
    pub nonce: Option<String>,
}

/// The answer to an authorization request.
pub enum AuthorizeResponse {
    /// `400 Bad Request` with the JSON body `{"error", "error_description"}`.
    /// Used while the client or its redirect URI is not trusted, so that the
    /// endpoint never redirects to an address the client did not register.
    BadRequest { error: &'static str, description: &'static str },
    /// A redirect to `location`.
    Redirect { location: String },
}

/// `location`, followed by the percent-encoded `state` parameter when there
/// is one.
pub open spec fn with_state(location: Seq<char>, state: Option<String>) -> Seq<char> {
    match state {
        Some(s) => location + "&state="@ + url_encoded(s@),
        None => location,
    }
}

/// The redirect that reports `error` to the client.
pub open spec fn error_location(redirect_uri: Seq<char>, error: Seq<char>, state: Option<String>) -> Seq<
    char,
> {
    with_state(redirect_uri + "?error="@ + error, state)
}

/// The redirect that hands `code` to the client.
pub open spec fn code_location(redirect_uri: Seq<char>, code: Seq<char>, state: Option<String>) -> Seq<
    char,
> {
    with_state(redirect_uri + "?code="@ + code, state)
}

/// `after` is `before` with `code` added, bound to the grant that `q` asks
/// for, for the fixed user, expiring `ttl` after `now_ms`.
pub open spec fn issued_for(
    before: Map<Seq<char>, AuthCode>,
    after: Map<Seq<char>, AuthCode>,
    code: Seq<char>,
    q: AuthorizeQuery,
    now_ms: u64,
    ttl: u64,
) -> bool {
    &&& code.len() == CODE_LEN
    &&& all_ascii_alphanumeric(code)
    &&& after == before.insert(code, after[code])
    &&& after[code].client_id == q.client_id
    &&& after[code].redirect_uri == q.redirect_uri
    &&& after[code].scope == q.scope
    &&& after[code].sub@ == DUMMY_USER_SUB@
    &&& after[code].nonce == q.nonce
    &&& after[code].expires_at == now_ms + ttl
}

fn bad_request(error: &'static str, description: &'static str) -> (resp: AuthorizeResponse)
    ensures
        resp == (AuthorizeResponse::BadRequest { error, description }),
{
    AuthorizeResponse::BadRequest { error, description }
}

fn append_state(location: String, state: &Option<String>) -> (out: String)
    ensures
        out@ == with_state(location@, *state),
{
    match state {
        Some(s) => {
            let encoded = url_encode(s.as_str());
            location.concat("&state=").concat(encoded.as_str())
        },
        None => location,
    }
}

fn redirect_with_error(redirect_uri: &str, error: &'static str, state: &Option<String>) -> (resp:
    AuthorizeResponse)
    ensures
        resp matches AuthorizeResponse::Redirect { location } && location@ == error_location(
            redirect_uri@,
            error@,
            *state,
        ),
{
    let location = String::from_str(redirect_uri).concat("?error=").concat(error);
    AuthorizeResponse::Redirect { location: append_state(location, state) }
}

/// How an authorization request is judged, in the order of the checks.
pub enum AuthorizeCheck {
    UnknownClient,
    UnregisteredRedirectUri,
    UnsupportedResponseType,
    InvalidScope,
    Granted,
}

/// The judgement of `q`: first the client, then its redirect URI, then the
/// response type, then the presence of the `openid` scope.
pub open spec fn authorize_check(config: Config, q: AuthorizeQuery) -> AuthorizeCheck {
    if q.client_id@ != config.client.client_id@ {
        AuthorizeCheck::UnknownClient
    } else if !is_registered_uri(config.client.redirect_uris@, q.redirect_uri@) {
        AuthorizeCheck::UnregisteredRedirectUri
    } else if q.response_type@ != "code"@ {
        AuthorizeCheck::UnsupportedResponseType
    } else if !has_word(q.scope@, "openid"@) {
        AuthorizeCheck::InvalidScope
    } else {
        AuthorizeCheck::Granted
    }
}

/// Answers an authorization request at time `now_ms`.
///
/// An unknown client or an unregistered redirect URI is answered with
/// `400 Bad Request`, never with a redirect. Then an unsupported response
/// type or a scope without `openid` is reported by a redirect to the client.
/// Otherwise a fresh code is issued for the fixed user and handed to the
/// client by a redirect; `state` is carried back in every redirect.
pub fn authorize(config: &Config, codes: &mut CodeStore, q: &AuthorizeQuery, now_ms: u64) -> (resp:
    AuthorizeResponse)
    requires
        now_ms + old(codes).ttl_ms() <= u64::MAX,
    ensures
        final(codes).ttl_ms() == old(codes).ttl_ms(),
        match authorize_check(*config, *q) {
            AuthorizeCheck::UnknownClient => {
                &&& resp == (AuthorizeResponse::BadRequest {
                    error: "unauthorized_client",
                    description: "unknown client_id",
                })
                &&& final(codes)@ == old(codes)@
            },
            AuthorizeCheck::UnregisteredRedirectUri => {
                &&& resp == (AuthorizeResponse::BadRequest {
                    error: "invalid_request",
                    description: "redirect_uri is not registered for this client",
                })
                &&& final(codes)@ == old(codes)@
            },
            AuthorizeCheck::UnsupportedResponseType => {
                &&& resp matches AuthorizeResponse::Redirect { location }
                &&& location@ == error_location(q.redirect_uri@, "unsupported_response_type"@, q.state)
                &&& final(codes)@ == old(codes)@
            },
            AuthorizeCheck::InvalidScope => {
                &&& resp matches AuthorizeResponse::Redirect { location }
                &&& location@ == error_location(q.redirect_uri@, "invalid_scope"@, q.state)
                &&& final(codes)@ == old(codes)@
            },
            AuthorizeCheck::Granted => {
                &&& resp matches AuthorizeResponse::Redirect { location }
                &&& exists|code: Seq<char>|
                    #[trigger] issued_for(old(codes)@, final(codes)@, code, *q, now_ms, old(codes).ttl_ms())
                        && location@ == code_location(q.redirect_uri@, code, q.state)
            },
        },
        // Never a redirect to an address that the client did not register.
        resp is Redirect ==> q.client_id@ == config.client.client_id@ && is_registered_uri(
            config.client.redirect_uris@,
            q.redirect_uri@,
        ),
{
    if q.client_id != config.client.client_id {
        return bad_request("unauthorized_client", "unknown client_id");
    }
    if !config.client.has_redirect_uri(q.redirect_uri.as_str()) {
        return bad_request("invalid_request", "redirect_uri is not registered for this client");
    }
    if !same_text(q.response_type.as_str(), "code") {
        return redirect_with_error(q.redirect_uri.as_str(), "unsupported_response_type", &q.state);
    }
    if !contains_word(q.scope.as_str(), "openid") {
        return redirect_with_error(q.redirect_uri.as_str(), "invalid_scope", &q.state);
    }
    let nonce = match &q.nonce {
        Some(n) => Some(n.clone()),
        None => None,
    };
    let code = codes.issue(
        q.client_id.clone(),
        q.redirect_uri.clone(),
        q.scope.clone(),
        String::from_str(DUMMY_USER_SUB),
        nonce,
        now_ms,
    );
    proof {
        crate::text::lemma_url_encoded_alphanumeric(code@);
    }
    let encoded = url_encode(code.as_str());
    let location = q.redirect_uri.clone().concat("?code=").concat(encoded.as_str());
    let location = append_state(location, &q.state);
    assert(issued_for(old(codes)@, codes@, code@, *q, now_ms, old(codes).ttl_ms()));
    AuthorizeResponse::Redirect { location }
}

} // verus!
