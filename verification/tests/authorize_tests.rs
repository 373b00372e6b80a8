use rust_idp::config::Config;
use rust_idp::handlers::authorize::{authorize, AuthorizeQuery, AuthorizeResponse};
use rust_idp::store::CodeStore;
use rust_idp::text::contains_word;

const REDIRECT_URI: &str = "http://localhost:8080/callback";

fn query() -> AuthorizeQuery {
    AuthorizeQuery {
        response_type: "code".to_string(),
        client_id: "demo-client".to_string(),
        redirect_uri: REDIRECT_URI.to_string(),
        scope: "openid profile".to_string(),
        state: Some("xyz".to_string()),
        nonce: Some("n-0S6".to_string()),
    }
}

fn location_of(resp: AuthorizeResponse) -> String {
    match resp {
        AuthorizeResponse::Redirect { location } => location,
        AuthorizeResponse::BadRequest { error, .. } => panic!("unexpected bad request: {error}"),
    }
}

#[test]
fn unknown_client_is_a_bad_request() {
    let config = Config::load(None);
    let mut codes = CodeStore::new();
    let mut q = query();
    q.client_id = "other-client".to_string();
    match authorize(&config, &mut codes, &q, 0) {
        AuthorizeResponse::BadRequest { error, description } => {
            assert_eq!(error, "unauthorized_client");
            assert_eq!(description, "unknown client_id");
        }
        AuthorizeResponse::Redirect { .. } => panic!("must not redirect for an unknown client"),
    }
}

#[test]
fn unregistered_redirect_uri_is_a_bad_request() {
    let config = Config::load(None);
    let mut codes = CodeStore::new();
    let mut q = query();
    q.redirect_uri = "https://attacker.example/cb".to_string();
    match authorize(&config, &mut codes, &q, 0) {
        AuthorizeResponse::BadRequest { error, description } => {
            assert_eq!(error, "invalid_request");
            assert_eq!(description, "redirect_uri is not registered for this client");
        }
        AuthorizeResponse::Redirect { .. } => panic!("must not redirect to an unregistered uri"),
    }
}

#[test]
fn unsupported_response_type_redirects_with_error() {
    let config = Config::load(None);
    let mut codes = CodeStore::new();
    let mut q = query();
    q.response_type = "token".to_string();
    let location = location_of(authorize(&config, &mut codes, &q, 0));
    assert_eq!(location, "http://localhost:8080/callback?error=unsupported_response_type&state=xyz");
}

#[test]
fn scope_without_openid_redirects_with_error() {
    let config = Config::load(None);
    let mut codes = CodeStore::new();
    let mut q = query();
    q.scope = "openidx profile".to_string();
    q.state = None;
    let location = location_of(authorize(&config, &mut codes, &q, 0));
    assert_eq!(location, "http://localhost:8080/callback?error=invalid_scope");
}

#[test]
fn granted_request_redirects_with_a_redeemable_code() {
    let config = Config::load(None);
    let mut codes = CodeStore::new();
    let q = query();
    let location = location_of(authorize(&config, &mut codes, &q, 5));
    let prefix = "http://localhost:8080/callback?code=";
    assert!(location.starts_with(prefix));
    let rest = &location[prefix.len()..];
    let (code, state) = rest.split_once("&state=").expect("state is carried back");
    assert_eq!(state, "xyz");
    assert_eq!(code.len(), 32);
    let entry = codes.consume(code, 5).expect("the code was stored");
    assert_eq!(entry.sub, "user-001");
    assert_eq!(entry.scope, "openid profile");
    assert_eq!(entry.nonce, Some("n-0S6".to_string()));
}

#[test]
fn state_is_percent_encoded() {
    let config = Config::load(None);
    let mut codes = CodeStore::new();
    let mut q = query();
    q.response_type = "token".to_string();
    q.state = Some("a b&c=d/é~".to_string());
    let location = location_of(authorize(&config, &mut codes, &q, 0));
    assert_eq!(
        location,
        "http://localhost:8080/callback?error=unsupported_response_type&state=a%20b%26c%3Dd%2F%C3%A9~"
    );
}

#[test]
fn scope_words_are_whitespace_separated() {
    assert!(contains_word("openid", "openid"));
    assert!(contains_word("profile openid", "openid"));
    assert!(contains_word("email\topenid\nprofile", "openid"));
    assert!(contains_word("  openid  ", "openid"));
    assert!(contains_word("a\u{3000}openid", "openid"));
    assert!(!contains_word("openidprofile", "openid"));
    assert!(!contains_word("xopenid", "openid"));
    assert!(!contains_word("", "openid"));
    assert!(!contains_word("open id", "openid"));
}
