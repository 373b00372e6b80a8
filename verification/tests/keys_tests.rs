use base64::engine::general_purpose::URL_SAFE_NO_PAD;
use base64::Engine;
use rsa::sha2::{Digest, Sha256};
use rsa::{BigUint, RsaPublicKey};
use rust_idp::keys::{IdTokenClaims, SigningKeys, ID_TOKEN_HEADER_JSON, KID};
use serde_json::Value;



/// A signing key from a fixed seed: the same key in every run, generated in
/// bounded time (the time of a fresh key varies widely).
fn test_keys() -> SigningKeys {
    SigningKeys::from_seed([100u8; 32])
}

fn sample_claims() -> IdTokenClaims {
    IdTokenClaims {
        iss: "https://idp.example".to_string(),
        sub: "user-001".to_string(),
        aud: "demo-client".to_string(),
        exp: 1_000_000,
        iat: 999_000,
        nonce: Some("nonce-1".to_string()),
    }
}

fn sign(keys: &SigningKeys, claims: &IdTokenClaims) -> String {
    keys.sign_id_token(claims)
}

fn published_public_key(keys: &SigningKeys) -> RsaPublicKey {
    let jwks = keys.jwks_document();
    let jwk = &jwks.keys[0];
    let n = BigUint::from_bytes_be(&URL_SAFE_NO_PAD.decode(&jwk.n).unwrap());
    let e = BigUint::from_bytes_be(&URL_SAFE_NO_PAD.decode(&jwk.e).unwrap());
    RsaPublicKey::new(n, e).unwrap()
}

#[test]
fn sign_id_token_produces_verifiable_jws() {
    let keys = test_keys();
    let jwt = sign(&keys, &sample_claims());
    let parts: Vec<&str> = jwt.split('.').collect();
    assert_eq!(parts.len(), 3, "JWS compact serialization must have 3 segments");

    let header: Value = serde_json::from_slice(&URL_SAFE_NO_PAD.decode(parts[0]).unwrap()).unwrap();
    assert_eq!(header["alg"], "RS256");
    assert_eq!(header["kid"], KID);

    let claims: Value = serde_json::from_slice(&URL_SAFE_NO_PAD.decode(parts[1]).unwrap()).unwrap();
    assert_eq!(claims["sub"], "user-001");

    let public_key = published_public_key(&keys);
    let signing_input = format!("{}.{}", parts[0], parts[1]);
    let hashed = Sha256::digest(signing_input.as_bytes());
    let signature = URL_SAFE_NO_PAD.decode(parts[2]).unwrap();
    public_key
        .verify(rsa::Pkcs1v15Sign::new::<Sha256>(), &hashed, &signature)
        .expect("signature must verify against the published JWK");
}

#[test]
fn tampered_claims_fail_verification() {
    let keys = test_keys();
    let jwt = sign(&keys, &sample_claims());
    let parts: Vec<&str> = jwt.split('.').collect();

    let public_key = published_public_key(&keys);

    let mut forged = sample_claims();
    forged.sub = "attacker".to_string();
    let forged_claims_b64 = URL_SAFE_NO_PAD.encode(forged.to_json());
    let signing_input = format!("{}.{}", parts[0], forged_claims_b64);
    let hashed = Sha256::digest(signing_input.as_bytes());
    let signature = URL_SAFE_NO_PAD.decode(parts[2]).unwrap();
    let result = public_key.verify(rsa::Pkcs1v15Sign::new::<Sha256>(), &hashed, &signature);
    assert!(result.is_err(), "forged claims must not verify with the original signature");
}

#[test]
fn jws_segments_are_base64url_of_header_and_claims() {
    let keys = test_keys();
    let claims = sample_claims();
    let jwt = keys.sign_id_token(&claims);
    let parts: Vec<&str> = jwt.split('.').collect();
    assert_eq!(parts.len(), 3);
    assert_eq!(parts[0], "eyJhbGciOiJSUzI1NiIsImtpZCI6ImRlZmF1bHQiLCJ0eXAiOiJKV1QifQ");
    assert_eq!(URL_SAFE_NO_PAD.decode(parts[0]).unwrap(), ID_TOKEN_HEADER_JSON.as_bytes());
    assert_eq!(URL_SAFE_NO_PAD.decode(parts[1]).unwrap(), claims.to_json());
    assert_eq!(URL_SAFE_NO_PAD.decode(parts[2]).unwrap().len(), 256);
    assert!(!jwt.contains('=') && !jwt.contains('+') && !jwt.contains('/'));
}

#[test]
fn header_is_rs256_jwt_with_the_published_kid() {
    let header: Value = serde_json::from_str(ID_TOKEN_HEADER_JSON).unwrap();
    let mut expected = serde_json::Map::new();
    expected.insert("alg".to_string(), Value::String("RS256".to_string()));
    expected.insert("typ".to_string(), Value::String("JWT".to_string()));
    expected.insert("kid".to_string(), Value::String(KID.to_string()));
    assert_eq!(header, Value::Object(expected.clone()));
    assert_eq!(ID_TOKEN_HEADER_JSON.as_bytes(), serde_json::to_vec(&expected).unwrap());
}

#[test]
fn claims_json_omits_absent_nonce() {
    let mut claims = sample_claims();
    let with_nonce: Value = serde_json::from_slice(&claims.to_json()).unwrap();
    assert_eq!(with_nonce["nonce"], "nonce-1");
    assert_eq!(with_nonce["exp"], 1_000_000);
    assert_eq!(with_nonce["iat"], 999_000);
    claims.nonce = None;
    let without: Value = serde_json::from_slice(&claims.to_json()).unwrap();
    assert!(without.get("nonce").is_none());
    assert_eq!(without.as_object().unwrap().len(), 5);
}

#[test]
fn signing_is_deterministic() {
    let keys = test_keys();
    let a = keys.sign_id_token(&sample_claims());
    let b = keys.sign_id_token(&sample_claims());
    assert_eq!(a, b);
}

#[test]
fn jwks_publishes_the_rsa_key() {
    let keys = test_keys();
    let jwks = keys.jwks_document();
    assert_eq!(jwks.keys.len(), 1);
    let jwk = &jwks.keys[0];
    assert_eq!(jwk.kty, "RSA");
    assert_eq!(jwk.key_use, "sig");
    assert_eq!(jwk.alg, "RS256");
    assert_eq!(jwk.kid, "default");
    assert_eq!(jwk.e, "AQAB");
    let n = URL_SAFE_NO_PAD.decode(&jwk.n).unwrap();
    assert_eq!(n.len(), 256);
    assert!(n[0] >= 128);
}

#[test]
fn same_seed_gives_same_key() {
    let a = test_keys();
    let b = test_keys();
    assert_eq!(a.jwks_document().keys[0].n, b.jwks_document().keys[0].n);
    assert_eq!(a.sign_id_token(&sample_claims()), b.sign_id_token(&sample_claims()));
}
