//! The id_token signing key (RSA, RS256) and the JWS compact serialization of
//! id_tokens.
use rand::SeedableRng;
use rsa::pkcs1::{DecodeRsaPrivateKey, EncodeRsaPrivateKey};
use rsa::sha2::Sha256;
use rsa::signature::{SignatureEncoding, Signer};
use rsa::traits::PublicKeyParts;
use vstd::prelude::*;
use vstd::string::*;
use vstd::utf8::*;

use crate::json::{json_object, json_object_bytes};
use crate::text::{b64url, base64url_encode, is_b64url_char, lemma_b64url_alphabet};

verus! {

/// Key id under which the signing key is published.
pub const KID: &'static str = "default";

/// Size of the generated RSA modulus, in bits.
pub const RSA_KEY_BITS: usize = 2048;

/// The claims of an id_token. `nonce` is left out of the token when `None`.
pub struct IdTokenClaims {
    pub iss: String,
    pub sub: String,
    pub aud: String,
    pub exp: usize,
    pub iat: usize,
    pub nonce: Option<String>,
}

/// The protected header of every id_token, as the JSON text that
/// `serde_json` writes for `{"alg": "RS256", "typ": "JWT", "kid": KID}`.
pub const ID_TOKEN_HEADER_JSON: &'static str = "{\"alg\":\"RS256\",\"kid\":\"default\",\"typ\":\"JWT\"}";

/// The string-valued members of the claims object: `iss`, `sub`, `aud`, and
/// `nonce` only when there is one.
pub open spec fn claim_strings(c: IdTokenClaims) -> Seq<(Seq<char>, Seq<char>)> {
    seq![("iss"@, c.iss@), ("sub"@, c.sub@), ("aud"@, c.aud@)] + match c.nonce {
        Some(n) => seq![("nonce"@, n@)],
        None => Seq::<(Seq<char>, Seq<char>)>::empty(),
    }
}

/// The number-valued members of the claims object: `exp` and `iat`.
pub open spec fn claim_numbers(c: IdTokenClaims) -> Seq<(Seq<char>, usize)> {
    seq![("exp"@, c.exp), ("iat"@, c.iat)]
}

/// The JSON serialization of `c`.
pub open spec fn claims_json(c: IdTokenClaims) -> Seq<u8> {
    json_object_bytes(claim_strings(c), claim_numbers(c))
}

/// The claims object has a `nonce` member exactly when a nonce was
/// requested, and then its value is that nonce.
pub proof fn lemma_nonce_member_iff_requested(c: IdTokenClaims)
    ensures
        (exists|i: int| 0 <= i < claim_strings(c).len() && (#[trigger] claim_strings(c)[i]).0 == "nonce"@)
            <==> c.nonce is Some,
        forall|i: int|
            0 <= i < claim_strings(c).len() && (#[trigger] claim_strings(c)[i]).0 == "nonce"@
                ==> (c.nonce matches Some(n) && claim_strings(c)[i].1 == n@),
{
    reveal_strlit("iss");
    reveal_strlit("sub");
    reveal_strlit("aud");
    reveal_strlit("nonce");
    let s = claim_strings(c);
    assert("iss"@ != "nonce"@ && "sub"@ != "nonce"@ && "aud"@ != "nonce"@) by {
        assert("iss"@[0] != "nonce"@[0]);
        assert("sub"@[0] != "nonce"@[0]);
        assert("aud"@[0] != "nonce"@[0]);
    }
    if c.nonce is Some {
        assert(s[3].0 == "nonce"@);
    }
}

impl IdTokenClaims {
    /// The claims as a JSON object serialized by `serde_json`; `nonce` is
    /// left out when there is none.
    pub fn to_json(&self) -> (json: Vec<u8>)
        ensures
            json@ == claims_json(*self),
    {
        let mut strings: Vec<(String, String)> = Vec::new();
        strings.push((String::from_str("iss"), self.iss.clone()));
        strings.push((String::from_str("sub"), self.sub.clone()));
        strings.push((String::from_str("aud"), self.aud.clone()));
        match &self.nonce {
            Some(n) => strings.push((String::from_str("nonce"), n.clone())),
            None => {},
        }
        let mut numbers: Vec<(String, usize)> = Vec::new();
        numbers.push((String::from_str("exp"), self.exp));
        numbers.push((String::from_str("iat"), self.iat));
        assert(strings.deep_view() =~= claim_strings(*self));
        assert(numbers.deep_view() =~= claim_numbers(*self));
        json_object(strings, numbers)
    }
}

/// A public RSA key as published in the JWKS document (RFC 7517).
pub struct Jwk {
    pub kty: String,
    pub key_use: String,
    pub alg: String,
    pub kid: String,
    pub n: String,
    pub e: String,
}

/// The JWKS document: the keys that verify the id_tokens this server signs.
pub struct JwkSet {
    pub keys: Vec<Jwk>,
}

/// The RSASSA-PKCS1-v1_5 signature with SHA-256 (RS256) of `message` under the
/// RSA private key encoded as PKCS#1 DER in `private_key_der`, or `None` when
/// that key cannot be decoded or signing fails.
pub uninterp spec fn rs256_signature(private_key_der: Seq<u8>, message: Seq<u8>) -> Option<Seq<u8>>;

/// The public half `(n, e)` (big-endian modulus and public exponent) of the
/// RSA private key encoded as PKCS#1 DER in `private_key_der`, or `None` when
/// it cannot be decoded.
pub uninterp spec fn rsa_public_key_of(private_key_der: Seq<u8>) -> Option<(Seq<u8>, Seq<u8>)>;

/// The modulus of the key encoded in `private_key_der` (empty when it does
/// not decode).
pub open spec fn rsa_modulus_of(private_key_der: Seq<u8>) -> Seq<u8> {
    match rsa_public_key_of(private_key_der) {
        Some(pk) => pk.0,
        None => Seq::empty(),
    }
}

/// The public exponent of the key encoded in `private_key_der` (empty when it
/// does not decode).
pub open spec fn rsa_exponent_of(private_key_der: Seq<u8>) -> Seq<u8> {
    match rsa_public_key_of(private_key_der) {
        Some(pk) => pk.1,
        None => Seq::empty(),
    }
}

/// 32 fresh random bytes from rand's thread-local generator (`rand::random`).
///
/// Trusted for nothing: which bytes come out is left open.
#[verifier::external_body]
fn random_seed() -> (seed: [u8; 32]) {
    rand::random()
}

/// An RSA private key of `bits` bits generated by `rsa::RsaPrivateKey::new`
/// from rand's `StdRng` seeded with `seed`, as its PKCS#1 DER encoding.
///
/// Trusted: `RsaPrivateKey::new` uses the public exponent 65537 and
/// retries until the modulus has exactly `bits` bits; for `bits` of 64 and
/// more it does not fail, so neither `expect` fires. `to_pkcs1_der` writes
/// n, e, d and the primes of a key that `from_pkcs1_der` reads back and
/// validates, so the DER decodes to that public half. PKCS#1 v1.5 signing
/// with a valid key whose modulus has its top bit set cannot fail: the
/// padded digest is below n and the CRT result passes the check. Which key
/// comes out of a given seed is left open.
#[verifier::external_body]
fn rsa_generate(bits: usize, seed: [u8; 32]) -> (der: Vec<u8>)
    requires
        bits == RSA_KEY_BITS,
    ensures
        rsa_public_key_of(der@) is Some,
        rsa_modulus_of(der@).len() == bits / 8,
        rsa_modulus_of(der@)[0] >= 128,
        rsa_exponent_of(der@) == seq![1u8, 0u8, 1u8],
        forall|m: Seq<u8>| #[trigger] rs256_signature(der@, m) is Some,
{
    let mut rng = rand::rngs::StdRng::from_seed(seed);
    let key = rsa::RsaPrivateKey::new(&mut rng, bits).expect("RSA key generation failed");
    key.to_pkcs1_der().expect("PKCS#1 encoding failed").as_bytes().to_vec()
}

/// The public half of a PKCS#1 DER private key, read by
/// `RsaPrivateKey::from_pkcs1_der` and converted with `n()`, `e()` and
/// `to_bytes_be`.
///
/// Trusted: the result is a function of the DER bytes alone, named
/// `rsa_public_key_of`; a decoding error gives `None`.
#[verifier::external_body]
fn rsa_public_key(private_key_der: &[u8]) -> (public_key: Option<(Vec<u8>, Vec<u8>)>)
    ensures
        match public_key {
            Some(pk) => rsa_public_key_of(private_key_der@) == Some((pk.0@, pk.1@)),
            None => rsa_public_key_of(private_key_der@) is None,
        },
{
    let key = rsa::RsaPrivateKey::from_pkcs1_der(private_key_der).ok()?;
    Some((key.n().to_bytes_be(), key.e().to_bytes_be()))
}

/// Signs `message` with `rsa::pkcs1v15::SigningKey::<Sha256>::try_sign`, the
/// key decoded from PKCS#1 DER by `RsaPrivateKey::from_pkcs1_der`.
///
/// Trusted: signing without a random generator is deterministic, so the
/// result is `rs256_signature` of the two arguments; a decoding or signing
/// error gives `None`. A signature is padded to the byte length of the
/// modulus (`uint_to_zeroizing_be_pad(.., priv_key.size())`).
#[verifier::external_body]
fn rs256_sign(private_key_der: &[u8], message: &[u8]) -> (signature: Option<Vec<u8>>)
    ensures
        match signature {
            Some(s) => {
                &&& rs256_signature(private_key_der@, message@) == Some(s@)
                &&& rsa_public_key_of(private_key_der@) is Some ==> s@.len() == rsa_modulus_of(
                    private_key_der@,
                ).len()
            },
            None => rs256_signature(private_key_der@, message@) is None,
        },
{
    let key = rsa::RsaPrivateKey::from_pkcs1_der(private_key_der).ok()?;
    rsa::pkcs1v15::SigningKey::<Sha256>::new(key).try_sign(message).ok().map(|s| s.to_vec())
}

/// The JWS signing input: the base64url header, `.`, the base64url claims.
pub open spec fn jws_signing_input(header_json: Seq<u8>, claims_json: Seq<u8>) -> Seq<char> {
    b64url(header_json) + seq!['.'] + b64url(claims_json)
}

/// The JWS compact serialization: signing input, `.`, base64url signature.
pub open spec fn jws_compact(header_json: Seq<u8>, claims_json: Seq<u8>, signature: Seq<u8>) -> Seq<
    char,
> {
    jws_signing_input(header_json, claims_json) + seq!['.'] + b64url(signature)
}

/// An id_token in JWS compact serialization has exactly three segments: the
/// token holds `.` at exactly two positions, right after the base64url
/// header and right after the base64url claims.
pub proof fn lemma_jws_three_segments(header_json: Seq<u8>, claims_json: Seq<u8>, signature: Seq<u8>)
    ensures
        ({
            let t = jws_compact(header_json, claims_json, signature);
            let first = b64url(header_json).len() as int;
            let second = first + 1 + b64url(claims_json).len();
            forall|i: int| 0 <= i < t.len() ==> (t[i] == '.' <==> (i == first || i == second))
        }),
{
    let h = b64url(header_json);
    let c = b64url(claims_json);
    let s = b64url(signature);
    lemma_b64url_alphabet(header_json);
    lemma_b64url_alphabet(claims_json);
    lemma_b64url_alphabet(signature);
    let t = jws_compact(header_json, claims_json, signature);
    let first = h.len() as int;
    let second = first + 1 + c.len();
    assert forall|i: int| 0 <= i < t.len() implies (t[i] == '.' <==> (i == first || i == second)) by {
        if i < first {
            assert(t[i] == h[i]);
            assert(is_b64url_char(h[i]));
        } else if i == first {
        } else if i < second {
            assert(t[i] == c[i - first - 1]);
            assert(is_b64url_char(c[i - first - 1]));
        } else if i == second {
        } else {
            assert(t[i] == s[i - second - 1]);
            assert(is_b64url_char(s[i - second - 1]));
        }
    }
}

/// The header of every id_token, as bytes.
pub open spec fn id_token_header_bytes() -> Seq<u8> {
    encode_utf8(ID_TOKEN_HEADER_JSON@)
}

/// The bytes that the id_token signature covers: the UTF-8 encoding of the
/// signing input built from the fixed header and `claims_json`.
pub open spec fn id_token_signed_bytes(claims_json: Seq<u8>) -> Seq<u8> {
    encode_utf8(jws_signing_input(id_token_header_bytes(), claims_json))
}

/// The id_token with the fixed header and the claims `claims_json`, signed
/// with `private_key`.
pub open spec fn id_token_text(private_key: Seq<u8>, claims_json: Seq<u8>) -> Seq<char> {
    jws_compact(
        id_token_header_bytes(),
        claims_json,
        rs256_signature(private_key, id_token_signed_bytes(claims_json))->0,
    )
}

/// The RSA key pair that signs id_tokens. The private key never leaves the
/// value; its public half is kept in the base64url form in which the JWKS
/// document publishes it.
pub struct SigningKeys {
    private_key_der: Vec<u8>,
    modulus: Ghost<Seq<u8>>,
    n_b64: String,
    e_b64: String,
}

impl SigningKeys {
    #[verifier::type_invariant]
    spec fn wf(self) -> bool {
        &&& rsa_public_key_of(self.private_key_der@) == Some((self.modulus@, seq![1u8, 0u8, 1u8]))
        &&& self.modulus@.len() == RSA_KEY_BITS / 8
        &&& self.modulus@[0] >= 128
        &&& forall|m: Seq<u8>| #[trigger] rs256_signature(self.private_key_der@, m) is Some
        &&& self.n_b64@ == b64url(self.modulus@)
        &&& self.e_b64@ == b64url(seq![1u8, 0u8, 1u8])
    }

    /// The PKCS#1 DER encoding of the private key.
    pub closed spec fn private_key(&self) -> Seq<u8> {
        self.private_key_der@
    }

    /// The public modulus n, big-endian.
    pub closed spec fn modulus(&self) -> Seq<u8> {
        self.modulus@
    }

    /// The key is a 2048-bit RSA key with public exponent 65537 whose public
    /// half is `(modulus(), 01 00 01)`, and it signs every message.
    pub open spec fn is_valid_key(&self) -> bool {
        &&& rsa_public_key_of(self.private_key()) == Some((self.modulus(), seq![1u8, 0u8, 1u8]))
        &&& self.modulus().len() == RSA_KEY_BITS / 8
        &&& self.modulus()[0] >= 128
        &&& forall|m: Seq<u8>| #[trigger] rs256_signature(self.private_key(), m) is Some
    }

    /// Generates a fresh 2048-bit RSA key from 32 random bytes; its public
    /// exponent is 65537, and the modulus it publishes is that of the key
    /// that signs.
    pub fn generate() -> (keys: SigningKeys)
        ensures
            keys.is_valid_key(),
    {
        Self::from_seed(random_seed())
    }

    /// The 2048-bit RSA key that `rsa`'s key generation draws from rand's
    /// `StdRng` seeded with `seed`; its public exponent is 65537, and the
    /// modulus it publishes is that of the key that signs.
    pub fn from_seed(seed: [u8; 32]) -> (keys: SigningKeys)
        ensures
            keys.is_valid_key(),
    {
        let der = rsa_generate(RSA_KEY_BITS, seed);
        let (n, e) = match rsa_public_key(der.as_slice()) {
            Some(pk) => pk,
            None => {
                proof {
                    assert(false);
                }
                (Vec::new(), Vec::new())
            },
        };
        let n_b64 = base64url_encode(n.as_slice());
        let e_b64 = base64url_encode(e.as_slice());
        SigningKeys { private_key_der: der, modulus: Ghost(n@), n_b64, e_b64 }
    }

    /// The RS256 signature of `signing_input` under the private key; it is
    /// as long as the modulus.
    fn sign_bytes(&self, signing_input: &[u8]) -> (signature: Vec<u8>)
        ensures
            rs256_signature(self.private_key(), signing_input@) == Some(signature@),
            signature@.len() == RSA_KEY_BITS / 8,
    {
        proof {
            use_type_invariant(self);
        }
        match rs256_sign(self.private_key_der.as_slice(), signing_input) {
            Some(s) => s,
            None => {
                proof {
                    assert(rs256_signature(self.private_key_der@, signing_input@) is Some);
                }
                Vec::new()
            },
        }
    }

    /// Signs an id_token for `claims` and returns it in JWS compact
    /// serialization: `base64url(header) . base64url(claims) .
    /// base64url(signature)`, with the fixed RS256 header and the claims
    /// serialized as JSON, the signature being RS256 over the UTF-8 bytes of
    /// the first two parts.
    pub fn sign_id_token(&self, claims: &IdTokenClaims) -> (jwt: String)
        ensures
            rs256_signature(self.private_key(), id_token_signed_bytes(claims_json(*claims))) is Some,
            jwt@ == id_token_text(self.private_key(), claims_json(*claims)),
    {
        let claims_json = claims.to_json();
        let header_b64 = base64url_encode(ID_TOKEN_HEADER_JSON.as_bytes());
        let claims_b64 = base64url_encode(claims_json.as_slice());
        let signing_input = header_b64.concat(".").concat(claims_b64.as_str());
        proof {
            reveal_strlit(".");
            assert(signing_input@ =~= jws_signing_input(id_token_header_bytes(), claims_json@));
        }
        let signature = self.sign_bytes(signing_input.as_str().as_bytes());
        let signature_b64 = base64url_encode(signature.as_slice());
        let jwt = signing_input.concat(".").concat(signature_b64.as_str());
        assert(jwt@ =~= jws_compact(id_token_header_bytes(), claims_json@, signature@));
        jwt
    }

    /// The JWKS document that publishes the public half of the key: the
    /// modulus and exponent of the key that signs, nothing else of it.
    pub fn jwks_document(&self) -> (jwks: JwkSet)
        ensures
            self.is_valid_key(),
            jwks.keys@.len() == 1,
            jwks.keys@[0].kty@ == "RSA"@,
            jwks.keys@[0].key_use@ == "sig"@,
            jwks.keys@[0].alg@ == "RS256"@,
            jwks.keys@[0].kid@ == KID@,
            jwks.keys@[0].n@ == b64url(self.modulus()),
            jwks.keys@[0].e@ == "AQAB"@,
    {
        proof {
            use_type_invariant(self);
            crate::laws::lemma_exponent_65537_b64url();
        }
        let mut keys: Vec<Jwk> = Vec::new();
        keys.push(
            Jwk {
                kty: String::from_str("RSA"),
                key_use: String::from_str("sig"),
                alg: String::from_str("RS256"),
                kid: String::from_str(KID),
                n: self.n_b64.clone(),
                e: self.e_b64.clone(),
            },
        );
        JwkSet { keys }
    }
}

} // verus!
