//! Verified core of the Kremlin marketplace back end.
pub mod authentication;
pub mod commons;
pub mod domain;
pub mod endpoints;
pub mod infrastructure;
pub mod text;
