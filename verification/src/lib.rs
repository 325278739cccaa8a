//! Request signing for OAuth 1.0a and the redirect exchange for OAuth 1.0a
//! and OAuth 2.0 with PKCE, with contracts that Verus proves.

pub mod codec;
pub mod errors;
pub mod exchange;
pub mod hmac_signature;
pub mod keyval;
pub mod method;
pub mod oauth;
pub mod query;
pub mod redirect;
pub mod request_builder;
pub mod response;
pub mod routes;
pub mod signer;
pub mod text;
