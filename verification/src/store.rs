//! The in-memory store of issued authorization codes. A code is handed out
//! once by `issue` and can be taken back at most once by `consume`, before it
//! expires.
use vstd::hash_map::StringHashMap;
use vstd::prelude::*;

use crate::text::all_ascii_alphanumeric;
use crate::util::random_token;

verus! {

/// How long an issued authorization code stays redeemable, in milliseconds.
pub const CODE_TTL_MS: u64 = 60000;

/// Length of an issued authorization code, in characters.
pub const CODE_LEN: usize = 32;

/// What an authorization code stands for.
pub struct AuthCode {
    pub client_id: String,
    pub redirect_uri: String,
    pub scope: String,
    pub sub: String,
    pub nonce: Option<String>,
    /// The instant, in milliseconds since the Unix epoch, after which the code
    /// is no longer redeemable.
    pub expires_at: u64,
}

impl AuthCode {
    fn duplicate(&self) -> (copy: AuthCode)
        ensures
            copy == *self,
    {
        AuthCode {
            client_id: self.client_id.clone(),
            redirect_uri: self.redirect_uri.clone(),
            scope: self.scope.clone(),
            sub: self.sub.clone(),
            nonce: match &self.nonce {
                Some(n) => Some(n.clone()),
                None => None,
            },
            expires_at: self.expires_at,
        }
    }
}

/// The entry that `consume` hands back for `code` at time `now_ms`: the stored
/// one, unless there is none or it expired before `now_ms`.
pub open spec fn redeemable(codes: Map<Seq<char>, AuthCode>, code: Seq<char>, now_ms: u64) -> Option<
    AuthCode,
> {
    if codes.contains_key(code) && !(codes[code].expires_at < now_ms) {
        Some(codes[code])
    } else {
        None
    }
}

/// Issued authorization codes, keyed by the code, with the lifetime given to
/// each new one.
pub struct CodeStore {
    codes: StringHashMap<AuthCode>,
    ttl: u64,
}

impl View for CodeStore {
    type V = Map<Seq<char>, AuthCode>;

    closed spec fn view(&self) -> Map<Seq<char>, AuthCode> {
        self.codes@
    }
}

impl CodeStore {
    /// Lifetime of newly issued codes, in milliseconds.
    pub closed spec fn ttl_ms(&self) -> u64 {
        self.ttl
    }

    /// Lifetime of newly issued codes, in milliseconds.
    pub fn ttl(&self) -> (ttl: u64)
        ensures
            ttl == self.ttl_ms(),
    {
        self.ttl
    }

    /// An empty store whose codes live for `CODE_TTL_MS`.
    pub fn new() -> (store: CodeStore)
        ensures
            store@ == Map::<Seq<char>, AuthCode>::empty(),
            store.ttl_ms() == CODE_TTL_MS,
    {
        Self::with_ttl(CODE_TTL_MS)
    }

    /// An empty store whose codes live for `ttl_ms` milliseconds.
    pub fn with_ttl(ttl_ms: u64) -> (store: CodeStore)
        ensures
            store@ == Map::<Seq<char>, AuthCode>::empty(),
            store.ttl_ms() == ttl_ms,
    {
        CodeStore { codes: StringHashMap::new(), ttl: ttl_ms }
    }

    /// Issues a fresh random code for the given grant at time `now_ms` and
    /// stores it; it expires `ttl_ms()` later.
    pub fn issue(
        &mut self,
        client_id: String,
        redirect_uri: String,
        scope: String,
        sub: String,
        nonce: Option<String>,
        now_ms: u64,
    ) -> (code: String)
        requires
            now_ms + old(self).ttl_ms() <= u64::MAX,
        ensures
            code@.len() == CODE_LEN,
            all_ascii_alphanumeric(code@),
            final(self).ttl_ms() == old(self).ttl_ms(),
            final(self)@ == old(self)@.insert(code@, final(self)@[code@]),
            final(self)@[code@].client_id == client_id,
            final(self)@[code@].redirect_uri == redirect_uri,
            final(self)@[code@].scope == scope,
            final(self)@[code@].sub == sub,
            final(self)@[code@].nonce == nonce,
            final(self)@[code@].expires_at == now_ms + old(self).ttl_ms(),
    {
        let code = random_token(CODE_LEN);
        let entry = AuthCode { client_id, redirect_uri, scope, sub, nonce, expires_at: now_ms + self.ttl };
        self.codes.insert(code.clone(), entry);
        code
    }

    /// Takes `code` out of the store, whether or not it is still valid, and
    /// hands back its entry if it had not expired by `now_ms`.
    pub fn consume(&mut self, code: &str, now_ms: u64) -> (entry: Option<AuthCode>)
        ensures
            final(self)@ == old(self)@.remove(code@),
            final(self).ttl_ms() == old(self).ttl_ms(),
            entry == redeemable(old(self)@, code@, now_ms),
    {
        let found = match self.codes.get(code) {
            Some(e) => Some(e.duplicate()),
            None => None,
        };
        self.codes.remove(code);
        match found {
            Some(e) => {
                if e.expires_at < now_ms {
                    None
                } else {
                    Some(e)
                }
            },
            None => None,
        }
    }
}

} // verus!
