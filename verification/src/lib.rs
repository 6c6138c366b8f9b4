//! Core of a web application's authentication subsystem: an OAuth2
//! authorization-code handshake with PKCE, server-side sessions bound to a
//! browser cookie with a split, timing-safe token, find-or-create identity
//! resolution, and the request middleware that injects and enforces identity.
//!
//! The stores are in-memory, verified data structures: they carry the
//! stores' record semantics — uniqueness, single use, expiry — while
//! durability across restarts is persistence I/O, which belongs to the
//! embedding application, as do the HTTP server, template rendering and the
//! provider round trips; all of those hand this library plain values.

pub mod error;
pub mod strutil;
pub mod kv;
pub mod oauth_state;
pub mod session;
pub mod identity;
pub mod middleware;
pub mod oauth;
