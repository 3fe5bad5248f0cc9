//! Forward-auth decision library: hostname parsing, URL derivation, token
//! extraction and verification, key lookup and the request state machine.

pub mod text;
pub mod hostname;
pub mod config;
pub mod cache;
pub mod jwks;
pub mod token;
pub mod auth;
