//! The routes of the authentication flow.

pub mod callback_runs;
pub mod dispatch;
pub mod handle_callback;
pub mod handle_default;
pub mod login;
