use rust_idp::store::{CodeStore, CODE_LEN, CODE_TTL_MS};

fn issue(store: &mut CodeStore, now_ms: u64) -> String {
    store.issue(
        "demo-client".to_string(),
        "http://localhost:8080/callback".to_string(),
        "openid".to_string(),
        "user-001".to_string(),
        Some("nonce-1".to_string()),
        now_ms,
    )
}

#[test]
fn issued_code_is_alphanumeric_of_fixed_length() {
    let mut store = CodeStore::new();
    let code = issue(&mut store, 0);
    assert_eq!(code.chars().count(), CODE_LEN);
    assert!(code.chars().all(|c| c.is_ascii_alphanumeric()));
    assert_eq!(store.ttl(), CODE_TTL_MS);
}

#[test]
fn issued_code_is_redeemed_with_its_grant() {
    let mut store = CodeStore::new();
    let code = issue(&mut store, 1_000);
    let entry = store.consume(&code, 1_000 + CODE_TTL_MS).expect("code within its lifetime");
    assert_eq!(entry.client_id, "demo-client");
    assert_eq!(entry.redirect_uri, "http://localhost:8080/callback");
    assert_eq!(entry.scope, "openid");
    assert_eq!(entry.sub, "user-001");
    assert_eq!(entry.nonce, Some("nonce-1".to_string()));
    assert_eq!(entry.expires_at, 1_000 + CODE_TTL_MS);
}

#[test]
fn code_is_consumed_only_once() {
    let mut store = CodeStore::new();
    let code = issue(&mut store, 0);
    assert!(store.consume(&code, 0).is_some());
    assert!(store.consume(&code, 0).is_none());
}

#[test]
fn expired_code_is_refused_and_removed() {
    let mut store = CodeStore::with_ttl(10);
    let code = issue(&mut store, 100);
    assert!(store.consume(&code, 111).is_none());
    assert!(store.consume(&code, 100).is_none());
}

#[test]
fn code_is_valid_until_its_expiry_instant() {
    let mut store = CodeStore::with_ttl(10);
    let code = issue(&mut store, 100);
    assert!(store.consume(&code, 110).is_some());
}

#[test]
fn unknown_code_is_refused() {
    let mut store = CodeStore::new();
    assert!(store.consume("no-such-code", 0).is_none());
}
