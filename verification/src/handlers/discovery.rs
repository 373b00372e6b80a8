//! The OpenID Provider metadata (`/.well-known/openid-configuration`).
use vstd::prelude::*;
use vstd::string::*;

use crate::config::Config;

verus! {

/// The OpenID Provider metadata document.
pub struct DiscoveryDocument {
    pub issuer: String,
    pub authorization_endpoint: String,
    pub token_endpoint: String,
    pub jwks_uri: String,
    pub response_types_supported: Vec<String>,
    pub grant_types_supported: Vec<String>,
    pub subject_types_supported: Vec<String>,
    pub id_token_signing_alg_values_supported: Vec<String>,
    pub scopes_supported: Vec<String>,
    pub token_endpoint_auth_methods_supported: Vec<String>,
    pub claims_supported: Vec<String>,
}

/// The texts of a list of strings.
pub open spec fn texts(v: Seq<String>) -> Seq<Seq<char>> {
    v.map_values(|s: String| s@)
}

fn one(s: &str) -> (v: Vec<String>)
    ensures
        texts(v@) == seq![s@],
{
    let mut v: Vec<String> = Vec::new();
    v.push(String::from_str(s));
    assert(texts(v@) =~= seq![s@]);
    v
}

/// The metadata document of the provider whose issuer is `config.issuer`:
/// every endpoint is the issuer URL followed by its path.
pub fn discovery(config: &Config) -> (doc: DiscoveryDocument)
    ensures
        doc.issuer == config.issuer,
        doc.authorization_endpoint@ == config.issuer@ + "/authorize"@,
        doc.token_endpoint@ == config.issuer@ + "/token"@,
        doc.jwks_uri@ == config.issuer@ + "/.well-known/jwks.json"@,
        texts(doc.response_types_supported@) == seq!["code"@],
        texts(doc.grant_types_supported@) == seq!["authorization_code"@],
        texts(doc.subject_types_supported@) == seq!["public"@],
        texts(doc.id_token_signing_alg_values_supported@) == seq!["RS256"@],
        texts(doc.scopes_supported@) == seq!["openid"@],
        texts(doc.token_endpoint_auth_methods_supported@) == seq!["client_secret_post"@],
        texts(doc.claims_supported@) == seq!["sub"@, "iss"@, "aud"@, "exp"@, "iat"@],
{
    let issuer = &config.issuer;
    let mut claims: Vec<String> = Vec::new();
    claims.push(String::from_str("sub"));
    claims.push(String::from_str("iss"));
    claims.push(String::from_str("aud"));
    claims.push(String::from_str("exp"));
    claims.push(String::from_str("iat"));
    assert(texts(claims@) =~= seq!["sub"@, "iss"@, "aud"@, "exp"@, "iat"@]);
    DiscoveryDocument {
        issuer: issuer.clone(),
        authorization_endpoint: issuer.clone().concat("/authorize"),
        token_endpoint: issuer.clone().concat("/token"),
        jwks_uri: issuer.clone().concat("/.well-known/jwks.json"),
        response_types_supported: one("code"),
        grant_types_supported: one("authorization_code"),
        subject_types_supported: one("public"),
        id_token_signing_alg_values_supported: one("RS256"),
        scopes_supported: one("openid"),
        token_endpoint_auth_methods_supported: one("client_secret_post"),
        claims_supported: claims,
    }
}

} // verus!
