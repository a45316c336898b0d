//! Conversions between stored records, domain values and their JSON forms.
pub mod identifiers;
pub mod mapper;
pub mod mercado_pago;
pub mod sqs_consumer;
