use rust_idp::config::{ClientConfig, Config};
use rust_idp::handlers::discovery::discovery;

fn config_with_issuer(issuer: &str) -> Config {
    Config {
        issuer: issuer.to_string(),
        client: ClientConfig {
            client_id: "demo-client".to_string(),
            client_secret: "demo-secret".to_string(),
            redirect_uris: vec![],
        },
    }
}

#[test]
fn endpoints_are_derived_from_issuer() {
    let doc = discovery(&config_with_issuer("https://idp.example"));
    assert_eq!(doc.issuer, "https://idp.example");
    assert_eq!(doc.authorization_endpoint, "https://idp.example/authorize");
    assert_eq!(doc.token_endpoint, "https://idp.example/token");
    assert_eq!(doc.jwks_uri, "https://idp.example/.well-known/jwks.json");
}

#[test]
fn discovery_lists_supported_values() {
    let doc = discovery(&config_with_issuer("https://idp.example"));
    assert_eq!(doc.response_types_supported, vec!["code".to_string()]);
    assert_eq!(doc.grant_types_supported, vec!["authorization_code".to_string()]);
    assert_eq!(doc.subject_types_supported, vec!["public".to_string()]);
    assert_eq!(doc.id_token_signing_alg_values_supported, vec!["RS256".to_string()]);
    assert_eq!(doc.scopes_supported, vec!["openid".to_string()]);
    assert_eq!(doc.token_endpoint_auth_methods_supported, vec!["client_secret_post".to_string()]);
    assert_eq!(doc.claims_supported, vec!["sub", "iss", "aud", "exp", "iat"]);
}

#[test]
fn config_load_defaults_and_overrides_issuer() {
    let default = Config::load(None);
    assert_eq!(default.issuer, "http://localhost:8080");
    assert_eq!(default.client.client_id, "demo-client");
    assert_eq!(default.client.client_secret, "demo-secret");
    assert_eq!(default.client.redirect_uris, vec!["http://localhost:8080/callback".to_string()]);
    let custom = Config::load(Some("https://idp.example".to_string()));
    assert_eq!(custom.issuer, "https://idp.example");
}

#[test]
fn redirect_uri_registration_is_exact() {
    let config = Config::load(None);
    assert!(config.client.has_redirect_uri("http://localhost:8080/callback"));
    assert!(!config.client.has_redirect_uri("http://localhost:8080/callback/"));
    assert!(!config.client.has_redirect_uri("http://localhost:8080/other"));
}
