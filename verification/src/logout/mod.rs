//! The logout route.

pub mod handle_default_logout;
pub mod handle_oidc_logout;
pub mod page;
