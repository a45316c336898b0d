//! Who is signed in, and what they may reach.
pub mod access_policy;
pub mod authentication_middleware;
