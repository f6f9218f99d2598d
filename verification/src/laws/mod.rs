//! What the operations are for, stated of all their inputs.
//!
//! Each law says what a result must satisfy in terms of the inputs alone, down to
//! the texts that go over the wire.

pub mod callback;
pub mod clock;
pub mod configuration;
pub mod cookies;
pub mod discovery;
pub mod encoding;
pub mod extraction;
pub mod logout;
pub mod models;
pub mod requests;
pub mod routes;
pub mod text;
