//! An OpenID Connect identity provider core: client configuration, the
//! authorization-code store, the `/authorize` and `/token` decisions, the
//! discovery document and RS256 id_token signing.
pub mod text;
pub mod store;
pub mod util;
pub mod config;
pub mod error;
pub mod keys;
pub mod handlers;
pub mod laws;
pub mod json;
