//! Login with OAuth2 and OpenID Connect, with PKCE, for web applications.
//!
//! The library decides; it neither waits nor sends. Each route of the flow is a
//! state machine: a function starts it and a `step` takes it on, from the outcome
//! of one effect to the next effect or to the result. The contract of each says
//! exactly what the next step is, over mathematical models of the values.

pub mod builder;
pub mod clock;
pub mod config;
pub mod cookies;
pub mod discovery;
pub mod effects;
pub mod error;
pub mod extractors;
pub mod jar;
pub mod laws;
pub mod logout;
pub mod outside;
pub mod reply;
pub mod router;
pub mod session;
pub mod text;
pub mod token_request;
