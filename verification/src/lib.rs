//! Verified core of a personal memo service: the request-screening rules of
//! its authentication middleware, the per-user memo table operations, and the
//! URL and connection-string construction that the HTTP layer relies on.

pub mod auth;
pub mod config;
pub mod laws;
pub mod paths;
pub mod store;
pub mod strutil;
pub mod urls;
mod clock;
