//! How order and purchase listings are filtered, and how purchase requests
//! are answered.
use crate::commons::exception_response::ExceptionResponse;
use crate::commons::i18n::{ErrorKey, Locale};
use crate::commons::pagination::{
    clone_text, direction_for, opt_string_view, page_of, page_size_of, search_text, sort_field, views,
    NormalizedPagination, SortDirection,
};
use crate::endpoints::json::orders_json::OrdersPageQuery;
use vstd::prelude::*;

verus! {

/// What an order or purchase listing asks the store for.
#[derive(Debug, Clone)]
pub struct OrderFilter {
    pub offset: u64,
    pub limit: u64,
    pub query: Option<String>,
    pub status: Option<String>,
    pub tenant_id: Option<i64>,
    pub customer_id: Option<i64>,
    pub sort_by: String,
    pub descending: bool,
}

/// The fields purchases may be sorted by.
pub open spec fn purchase_sort_fields() -> Seq<Seq<char>> {
    seq!["id"@, "status"@, "totalCents"@, "createdAt"@]
}

/// The fields orders may be sorted by.
pub open spec fn order_sort_fields() -> Seq<Seq<char>> {
    seq!["id"@, "number"@, "status"@, "paymentStatus"@, "totalCents"@, "placedAt"@, "createdAt"@]
}

/// The largest offset the store accepts: the largest signed 64-bit integer.
pub open spec fn capped_offset(page: int, page_size: int) -> int {
    let o = (page - 1) * page_size;
    if o > i64::MAX {
        i64::MAX as int
    } else {
        o
    }
}

/// Normalises an order listing (a purchase listing when `purchase`): the
/// page as usual, sorted by an allowed field or the id, the offset kept
/// within the store's signed 64-bit range, and the status, tenant and
/// customer filters passed on.
pub fn filter(params: OrdersPageQuery, purchase: bool) -> (r: (NormalizedPagination, OrderFilter))
    ensures
        r.0.page == page_of(params.page),
        r.0.page_size == page_size_of(params.page_size),
        r.0.offset == capped_offset(r.0.page as int, r.0.page_size as int),
        opt_string_view(r.0.q) == search_text(opt_string_view(params.q)),
        r.0.sort_by@ == sort_field(
            opt_string_view(params.sort_by),
            if purchase {
                purchase_sort_fields()
            } else {
                order_sort_fields()
            },
            "id"@,
        ),
        r.0.sort_dir == direction_for(opt_string_view(params.sort_dir)),
        r.1.offset == r.0.offset,
        r.1.limit == r.0.page_size,
        r.1.query == r.0.q,
        r.1.status == params.status,
        r.1.tenant_id == params.tenant_id,
        r.1.customer_id == params.customer_id,
        r.1.sort_by == r.0.sort_by,
        r.1.descending == (r.0.sort_dir == SortDirection::Desc),
{
    let query = params.to_page_query();
    let mut norm = if purchase {
        let allowed: [&str; 4] = ["id", "status", "totalCents", "createdAt"];
        proof {
            assert(views(allowed@) =~= purchase_sort_fields());
        }
        NormalizedPagination::new_saturating(&query, &allowed, "id")
    } else {
        let allowed: [&str; 7] = [
            "id",
            "number",
            "status",
            "paymentStatus",
            "totalCents",
            "placedAt",
            "createdAt",
        ];
        proof {
            assert(views(allowed@) =~= order_sort_fields());
        }
        NormalizedPagination::new_saturating(&query, &allowed, "id")
    };
    if norm.offset > (i64::MAX as u64) {
        norm.offset = i64::MAX as u64;
    }
    let f = OrderFilter {
        offset: norm.offset,
        limit: norm.page_size,
        query: clone_text(&norm.q),
        status: params.status,
        tenant_id: params.tenant_id,
        customer_id: params.customer_id,
        sort_by: norm.sort_by.clone(),
        descending: norm.sort_dir.is_descending(),
    };
    (norm, f)
}

/// The listing of all of a user's orders: newest first, with no limit to
/// speak of.
pub fn all_orders_filter() -> (r: OrderFilter)
    ensures
        r.offset == 0,
        r.limit == i64::MAX as u64,
        r.query is None && r.status is None && r.tenant_id is None && r.customer_id is None,
        r.sort_by@ == "id"@,
        r.descending,
{
    OrderFilter {
        offset: 0,
        limit: i64::MAX as u64,
        query: None,
        status: None,
        tenant_id: None,
        customer_id: None,
        sort_by: String::from_str("id"),
        descending: true,
    }
}

/// A purchase request must carry its idempotency key (a header of visible
/// ASCII characters).
pub fn require_idempotency_key(key: Option<String>, locale: Locale) -> (r: Result<String, ExceptionResponse>)
    ensures
        match key {
            Some(k) => r == Ok::<String, ExceptionResponse>(k),
            None => r == Err::<String, ExceptionResponse>(ExceptionResponse::BadRequest(locale, ErrorKey::RequiredHeaderValueMissing)),
        },
{
    match key {
        Some(k) => Ok(k),
        None => Err(ExceptionResponse::BadRequest(locale, ErrorKey::RequiredHeaderValueMissing)),
    }
}

/// A replayed purchase request is answered 200, a new purchase 201.
pub fn purchase_status_code(replayed: bool) -> (r: u16)
    ensures
        r == if replayed {
            200u16
        } else {
            201u16
        },
{
    if replayed {
        200
    } else {
        201
    }
}

} // verus!
