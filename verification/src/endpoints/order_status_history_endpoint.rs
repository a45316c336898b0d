use crate::commons::exception_response::ExceptionResponse;
use crate::commons::i18n::{ErrorKey, Locale};
use crate::text::{ascii_lower, is_blank, is_blank_str, str_eq, to_ascii_lowercase};
use vstd::prelude::*;

verus! {

/// The column status changes are ordered by.
#[derive(Debug, Clone, Copy, PartialEq, Eq, Structural)]
pub enum OrderStatusHistorySortColumn {
    OrderId,
    FromStatus,
    ToStatus,
    CreatedAt,
    Id,
}

/// The column a sort key names, in any ASCII case; any other key sorts by
/// Id.
pub open spec fn order_status_history_sort_of(key: Seq<char>) -> OrderStatusHistorySortColumn {
    let k = ascii_lower(key);
    if k == "orderid"@ || k == "order_id"@ {
        OrderStatusHistorySortColumn::OrderId
    } else if k == "fromstatus"@ || k == "from_status"@ {
        OrderStatusHistorySortColumn::FromStatus
    } else if k == "tostatus"@ || k == "to_status"@ {
        OrderStatusHistorySortColumn::ToStatus
    } else if k == "createdat"@ || k == "created_at"@ {
        OrderStatusHistorySortColumn::CreatedAt
    } else {
        OrderStatusHistorySortColumn::Id
    }
}

/// The column status changes are sorted by for the normalised sort key.
pub fn order_status_history_sort_column(sort_by: &str) -> (r: OrderStatusHistorySortColumn)
    ensures
        r == order_status_history_sort_of(sort_by@),
{
    let lowered = to_ascii_lowercase(sort_by);
    let k = lowered.as_str();
    if str_eq(k, "orderid") || str_eq(k, "order_id") {
        OrderStatusHistorySortColumn::OrderId
    } else if str_eq(k, "fromstatus") || str_eq(k, "from_status") {
        OrderStatusHistorySortColumn::FromStatus
    } else if str_eq(k, "tostatus") || str_eq(k, "to_status") {
        OrderStatusHistorySortColumn::ToStatus
    } else if str_eq(k, "createdat") || str_eq(k, "created_at") {
        OrderStatusHistorySortColumn::CreatedAt
    } else {
        OrderStatusHistorySortColumn::Id
    }
}

/// A recorded status change needs the status it moves to, with text.
pub fn validate_status_change(to_status: &str, locale: Locale) -> (r: Result<(), ExceptionResponse>)
    ensures
        r is Ok <==> !is_blank(to_status@),
        r matches Err(e) ==> e == ExceptionResponse::BadRequest(locale, ErrorKey::InvalidParameterValue),
{
    if is_blank_str(to_status) {
        return Err(ExceptionResponse::BadRequest(locale, ErrorKey::InvalidParameterValue));
    }
    Ok(())
}

} // verus!
