//! The refusals an endpoint answers with, and what goes into the response.
use crate::commons::i18n::{ErrorKey, Locale};
use vstd::prelude::*;

verus! {

/// A refused request: the HTTP status class, the locale the message is
/// written in and the key its message is looked up by, or a message of its own.
#[derive(Debug)]
pub enum ExceptionResponse {
    Unauthorized(Locale, ErrorKey),
    Forbidden(Locale, ErrorKey),
    BadRequest(Locale, ErrorKey),
    NotFound(Locale, ErrorKey),
    Conflict(Locale, ErrorKey),
    InternalServerError(Locale, ErrorKey),
    CustomBadRequest(String),
}

impl ExceptionResponse {
    /// The HTTP status of the response.
    pub open spec fn status(&self) -> u16 {
        match self {
            ExceptionResponse::Unauthorized(..) => 401,
            ExceptionResponse::Forbidden(..) => 403,
            ExceptionResponse::BadRequest(..) => 400,
            ExceptionResponse::NotFound(..) => 404,
            ExceptionResponse::Conflict(..) => 409,
            ExceptionResponse::InternalServerError(..) => 500,
            ExceptionResponse::CustomBadRequest(..) => 400,
        }
    }

    /// The locale and key of a refusal with a localized message.
    pub open spec fn keyed(&self) -> Option<(Locale, ErrorKey)> {
        match self {
            ExceptionResponse::Unauthorized(l, k) => Some((*l, *k)),
            ExceptionResponse::Forbidden(l, k) => Some((*l, *k)),
            ExceptionResponse::BadRequest(l, k) => Some((*l, *k)),
            ExceptionResponse::NotFound(l, k) => Some((*l, *k)),
            ExceptionResponse::Conflict(l, k) => Some((*l, *k)),
            ExceptionResponse::InternalServerError(l, k) => Some((*l, *k)),
            ExceptionResponse::CustomBadRequest(_) => None,
        }
    }

    /// The HTTP status code of the response.
    pub fn status_code(&self) -> (r: u16)
        ensures
            r == self.status(),
    {
        match self {
            ExceptionResponse::Unauthorized(..) => 401,
            ExceptionResponse::Forbidden(..) => 403,
            ExceptionResponse::BadRequest(..) => 400,
            ExceptionResponse::NotFound(..) => 404,
            ExceptionResponse::Conflict(..) => 409,
            ExceptionResponse::InternalServerError(..) => 500,
            ExceptionResponse::CustomBadRequest(..) => 400,
        }
    }

    /// The code the response body carries: the key's code, or `bad_request`
    /// for a refusal with a message of its own.
    pub fn error_code(&self) -> (r: &'static str)
        ensures
            r@ == match self.keyed() {
                Some((_, k)) => k.code(),
                None => "bad_request"@,
            },
    {
        match self {
            ExceptionResponse::Unauthorized(_, k) => k.as_str(),
            ExceptionResponse::Forbidden(_, k) => k.as_str(),
            ExceptionResponse::BadRequest(_, k) => k.as_str(),
            ExceptionResponse::NotFound(_, k) => k.as_str(),
            ExceptionResponse::Conflict(_, k) => k.as_str(),
            ExceptionResponse::InternalServerError(_, k) => k.as_str(),
            ExceptionResponse::CustomBadRequest(_) => "bad_request",
        }
    }

    /// The locale and key the message is looked up by, if any.
    pub fn message_key(&self) -> (r: Option<(Locale, ErrorKey)>)
        ensures
            r == self.keyed(),
    {
        match self {
            ExceptionResponse::Unauthorized(l, k) => Some((*l, *k)),
            ExceptionResponse::Forbidden(l, k) => Some((*l, *k)),
            ExceptionResponse::BadRequest(l, k) => Some((*l, *k)),
            ExceptionResponse::NotFound(l, k) => Some((*l, *k)),
            ExceptionResponse::Conflict(l, k) => Some((*l, *k)),
            ExceptionResponse::InternalServerError(l, k) => Some((*l, *k)),
            ExceptionResponse::CustomBadRequest(_) => None,
        }
    }
}

/// Why a purchase operation failed.
#[derive(Debug)]
pub enum PurchaseError {
    DeliveryRateMissing(String),
    Validation(String),
    NotFound,
    Forbidden,
    Conflict,
    Persistence(String),
}

/// The refusal a failed purchase operation is answered with.
pub open spec fn purchase_refusal(locale: Locale, error: PurchaseError) -> ExceptionResponse {
    match error {
        PurchaseError::DeliveryRateMissing(m) => ExceptionResponse::CustomBadRequest(m),
        PurchaseError::Validation(_) => ExceptionResponse::BadRequest(
            locale,
            ErrorKey::PurchaseInvalid,
        ),
        PurchaseError::NotFound => ExceptionResponse::NotFound(locale, ErrorKey::PurchaseNotFound),
        PurchaseError::Forbidden => ExceptionResponse::Forbidden(
            locale,
            ErrorKey::PurchaseForbidden,
        ),
        PurchaseError::Conflict => ExceptionResponse::Conflict(locale, ErrorKey::PurchaseConflict),
        PurchaseError::Persistence(_) => ExceptionResponse::InternalServerError(
            locale,
            ErrorKey::PurchaseUnavailable,
        ),
    }
}

/// Maps a failed purchase operation to its refusal.
pub fn purchase_error_response(locale: Locale, error: PurchaseError) -> (r: ExceptionResponse)
    ensures
        r == purchase_refusal(locale, error),
{
    match error {
        PurchaseError::DeliveryRateMissing(m) => ExceptionResponse::CustomBadRequest(m),
        PurchaseError::Validation(_) => ExceptionResponse::BadRequest(
            locale,
            ErrorKey::PurchaseInvalid,
        ),
        PurchaseError::NotFound => ExceptionResponse::NotFound(locale, ErrorKey::PurchaseNotFound),
        PurchaseError::Forbidden => ExceptionResponse::Forbidden(
            locale,
            ErrorKey::PurchaseForbidden,
        ),
        PurchaseError::Conflict => ExceptionResponse::Conflict(locale, ErrorKey::PurchaseConflict),
        PurchaseError::Persistence(_) => ExceptionResponse::InternalServerError(
            locale,
            ErrorKey::PurchaseUnavailable,
        ),
    }
}

} // verus!
