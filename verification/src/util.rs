//! Random tokens for authorization codes and access tokens.
use rand::distributions::{Alphanumeric, DistString};
use vstd::prelude::*;

use crate::text::all_ascii_alphanumeric;

verus! {

/// A fresh random token of `len` characters from rand's thread-local generator.
///
/// Trusted: `Alphanumeric::sample_string` (rand's `DistString`) appends `len`
/// bytes drawn from `A`-`Z`, `a`-`z`, `0`-`9` to an empty string. Which
/// characters come out is left open: it depends on the generator.
#[verifier::external_body]
pub(crate) fn random_token(len: usize) -> (token: String)
    ensures
        token@.len() == len,
        all_ascii_alphanumeric(token@),
{
    Alphanumeric.sample_string(&mut rand::thread_rng(), len)
}

} // verus!
