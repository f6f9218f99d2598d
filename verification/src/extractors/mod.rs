//! What the application's handlers take from a request.

pub mod shared;
