//! The outbound proxy core of a location-risk gateway.
//!
//! A client request for one of three upstream providers is validated, given
//! its credential, turned into the provider's request, and the outcome of the
//! upstream call is translated into either the provider's body, unchanged, or
//! one uniform error.  Every function here is pure: reading configuration and
//! performing the HTTP call are left to the caller, which hands in what it
//! read and what it received.

pub mod builder;
pub mod credential;
pub mod error;
pub mod gateway;
pub mod health;
pub mod history;
pub mod invoker;
pub mod laws;
pub mod provider;
pub mod request;
pub mod text;
pub mod translator;
pub mod wire;
