//! Verified core of an AT Protocol client: stores, sessions, identity resolution,
//! OAuth stages and DPoP nonce handling.

pub mod store;
pub mod text;
pub mod types;
pub mod agent;
pub mod xrpc;
pub mod identity;
pub mod resolver;
pub mod crypto;
pub mod oauth;
pub mod dpop;
pub mod cached;
pub mod bsky;
pub mod laws;
pub mod codegen;
