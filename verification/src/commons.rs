//! Pieces every endpoint shares: locales, error responses and pagination.
pub mod exception_response;
pub mod i18n;
pub mod pagination;
