//! Stateless token authentication with out-of-band revocation.
//!
//! - `claims`: the principal claims a token carries and their JSON text.
//! - `auth`: issuing and checking signed tokens, and checking credentials.
//! - `revocation`: revocation records, their cache key and lifetime, and the
//!   verdict on a token given what the revocation cache holds.
//! - `extract`: finding a request's token in its header or cookie.
//! - `error`: the error taxonomy, its wire codes and HTTP statuses.
//! - `cache`: an in-memory store with per-key expiry that behaves as the
//!   revocation cache does.
//! - `json`: the JSON dialect claims and records are written in.
//! - `user`, `post`, `html`, `http`, `env`: rules on the service's other data.
//! - `text`: character-level helpers.
pub mod auth;
pub mod cache;
pub mod claims;
pub mod env;
pub mod error;
pub mod extract;
pub mod html;
pub mod http;
pub mod json;
pub mod post;
pub mod revocation;
pub mod text;
pub mod user;
