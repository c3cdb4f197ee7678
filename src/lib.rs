//! Request authentication for MCP resource servers: credential extraction,
//! JWT claim normalization, the key-rotation protocol of a JWKS-backed
//! validator, the middleware's accept/reject decision and OAuth challenge
//! headers; with the argument handling of an inspection client and the
//! path checks and diffs of a filesystem server.

pub mod claims;
pub mod cli;
pub mod client;
pub mod cmd;
pub mod credential;
pub mod error;
pub mod jwt;
pub mod metadata;
pub mod middleware;
pub mod oauth;
pub mod rotation;
pub mod time;
pub mod tools;
pub mod validate;
