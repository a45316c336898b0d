use crate::commons::exception_response::ExceptionResponse;
use crate::commons::i18n::{ErrorKey, Locale};
use crate::domain::{CurrentUser, Role};
use crate::infrastructure::mapper::text_view;
use crate::text::{chars_of, digit_value, is_ascii_digit, is_blank, is_blank_str};
use vstd::prelude::*;

verus! {

/// Checkout address.
#[derive(Debug, Clone)]
pub struct CheckoutAddress {
    pub id: i64,
    pub label: Option<String>,
    pub recipient: String,
    pub address_line1: Option<String>,
    pub address_line2: Option<String>,
    pub locality: Option<String>,
    pub administrative_area: Option<String>,
    pub postal_code: Option<String>,
    pub country_code: Option<String>,
    pub is_default: bool,
}

/// Checkout customer.
#[derive(Debug, Clone)]
pub struct CheckoutCustomer {
    pub id: i64,
    pub name: String,
    pub cpf: Option<String>,
    pub email: String,
    pub phone: Option<String>,
    pub addresses: Vec<CheckoutAddress>,
}

/// Tax id input.
#[derive(Debug, Clone)]
pub struct TaxIdInput {
    pub cpf: String,
}

// ------------------------------------------------------------------
// CPF check digits
// ------------------------------------------------------------------

/// `sum(d[i] * (index + 1 - i))` over the first `n` digits of `d`.
pub open spec fn cpf_weighted_sum(d: Seq<char>, index: int, n: int) -> int
    decreases n,
{
    if n <= 0 {
        0
    } else {
        cpf_weighted_sum(d, index, n - 1) + digit_value(d[n - 1]) * (index + 2 - n)
    }
}

/// The check digit that belongs at position `index` (9 or 10) of a CPF.
pub open spec fn cpf_check_digit(d: Seq<char>, index: int) -> int {
    (cpf_weighted_sum(d, index, index) * 10) % 11 % 10
}

/// A valid CPF: eleven ASCII digits, not all the same, whose last two are
/// the check digits of the ones before them.
pub open spec fn is_valid_cpf(s: Seq<char>) -> bool {
    &&& s.len() == 11
    &&& forall|i: int| 0 <= i < s.len() ==> is_ascii_digit(#[trigger] s[i])
    &&& exists|i: int| 0 <= i < s.len() && #[trigger] s[i] != s[0]
    &&& cpf_check_digit(s, 9) == digit_value(s[9])
    &&& cpf_check_digit(s, 10) == digit_value(s[10])
}

proof fn lemma_weighted_sum_prefix(a: Seq<char>, b: Seq<char>, index: int, n: int)
    requires
        0 <= n <= a.len(),
        n <= b.len(),
        forall|i: int| 0 <= i < n ==> a[i] == b[i],
    ensures
        cpf_weighted_sum(a, index, n) == cpf_weighted_sum(b, index, n),
    decreases n,
{
    if n > 0 {
        lemma_weighted_sum_prefix(a, b, index, n - 1);
    }
}

proof fn lemma_weighted_sum_bound(d: Seq<char>, index: int, n: int)
    requires
        0 <= n <= d.len(),
        n <= index <= 10,
        forall|i: int| 0 <= i < d.len() ==> is_ascii_digit(#[trigger] d[i]),
    ensures
        0 <= cpf_weighted_sum(d, index, n) <= 99 * n,
    decreases n,
{
    if n > 0 {
        lemma_weighted_sum_bound(d, index, n - 1);
        let x = digit_value(d[n - 1]);
        let w = index + 2 - n;
        assert(is_ascii_digit(d[n - 1]));
        assert(0 <= x * w <= 99) by (nonlinear_arith)
            requires
                0 <= x <= 9,
                2 <= w <= 11,
        ;
    }
}

/// The check digits of a CPF are fixed by its first nine digits: two valid
/// CPFs that share those nine digits are the same CPF.
pub proof fn cpf_check_digits_are_determined(a: Seq<char>, b: Seq<char>)
    requires
        is_valid_cpf(a),
        is_valid_cpf(b),
        a.take(9) == b.take(9),
    ensures
        a == b,
{
    assert forall|i: int| 0 <= i < 9 implies a[i] == b[i] by {
        assert(a.take(9)[i] == a[i]);
        assert(b.take(9)[i] == b[i]);
    }
    lemma_weighted_sum_prefix(a, b, 9, 9);
    assert(is_ascii_digit(a[9]) && is_ascii_digit(b[9]));
    assert(a[9] == b[9]);
    lemma_weighted_sum_prefix(a, b, 10, 10);
    assert(is_ascii_digit(a[10]) && is_ascii_digit(b[10]));
    assert(a[10] == b[10]);
    assert(a =~= b);
}

/// Whether the digit at `index` (9 or 10) of an eleven-digit `v` is its
/// check digit.
fn cpf_digit_checks(v: &Vec<char>, index: usize) -> (r: bool)
    requires
        v@.len() == 11,
        index == 9 || index == 10,
        forall|i: int| 0 <= i < v@.len() ==> is_ascii_digit(#[trigger] v@[i]),
    ensures
        r == (cpf_check_digit(v@, index as int) == digit_value(v@[index as int])),
{
    let mut sum: u32 = 0;
    let mut i: usize = 0;
    while i < index
        invariant
            v@.len() == 11,
            index == 9 || index == 10,
            forall|k: int| 0 <= k < v@.len() ==> is_ascii_digit(#[trigger] v@[k]),
            i <= index,
            sum == cpf_weighted_sum(v@, index as int, i as int),
        decreases index - i,
    {
        proof {
            lemma_weighted_sum_bound(v@, index as int, i as int);
            assert(is_ascii_digit(v@[i as int]));
        }
        let d: u32 = (v[i] as u32) - ('0' as u32);
        let w: u32 = (index as u32) + 1 - (i as u32);
        assert(d * w <= 99) by (nonlinear_arith)
            requires
                d <= 9,
                w <= 11,
        ;
        sum = sum + d * w;
        i = i + 1;
    }
    proof {
        lemma_weighted_sum_bound(v@, index as int, index as int);
        assert(is_ascii_digit(v@[index as int]));
    }
    let check: u32 = (sum * 10) % 11 % 10;
    check == (v[index] as u32) - ('0' as u32)
}

/// Whether `cpf` is a valid CPF (Brazilian taxpayer number).
pub fn valid_cpf(cpf: &str) -> (r: bool)
    ensures
        r == is_valid_cpf(cpf@),
{
    let v = chars_of(cpf);
    let mut i: usize = 0;
    while i < v.len()
        invariant
            v@ == cpf@,
            i <= v@.len(),
            forall|k: int| 0 <= k < i ==> is_ascii_digit(#[trigger] v@[k]),
        decreases v@.len() - i,
    {
        if !('0' <= v[i] && v[i] <= '9') {
            assert(!is_ascii_digit(cpf@[i as int]));
            return false;
        }
        i = i + 1;
    }
    if v.len() != 11 {
        return false;
    }
    let mut j: usize = 1;
    let mut same = true;
    while j < v.len()
        invariant
            v@.len() == 11,
            1 <= j <= 11,
            same <==> forall|k: int| 0 <= k < j ==> #[trigger] v@[k] == v@[0],
        decreases 11 - j,
    {
        if v[j] != v[0] {
            same = false;
        }
        j = j + 1;
    }
    if same {
        assert(!exists|k: int| 0 <= k < cpf@.len() && #[trigger] cpf@[k] != cpf@[0]);
        return false;
    }
    let ghost witness = choose|k: int| 0 <= k < 11 && #[trigger] v@[k] != v@[0];
    assert(cpf@[witness] != cpf@[0]);
    cpf_digit_checks(&v, 9) && cpf_digit_checks(&v, 10)
}

// ------------------------------------------------------------------
// Checkout customer
// ------------------------------------------------------------------

/// Checkout is for signed-in customers: anybody else, or a token without a
/// user id, is refused.
pub fn require_customer_id(user: &CurrentUser, locale: Locale) -> (r: Result<i64, ExceptionResponse>)
    ensures
        user.role == Role::Customer && user.id is Some ==> r == Ok::<i64, ExceptionResponse>(user.id->0),
        !(user.role == Role::Customer && user.id is Some) ==> r == Err::<i64, ExceptionResponse>(
            ExceptionResponse::Forbidden(locale, ErrorKey::PurchaseForbidden),
        ),
{
    if user.role != Role::Customer {
        return Err(ExceptionResponse::Forbidden(locale, ErrorKey::PurchaseForbidden));
    }
    match user.id {
        Some(id) => Ok(id),
        None => Err(ExceptionResponse::Forbidden(locale, ErrorKey::PurchaseForbidden)),
    }
}

/// The checks before a customer's CPF is recorded: a customer who already
/// has one keeps it (a conflict), and the new one must be valid.
pub fn check_tax_id(current: &Option<String>, input: &TaxIdInput, locale: Locale) -> (r: Result<(), ExceptionResponse>)
    ensures
        (text_view(*current) matches Some(c) && !is_blank(c)) ==> r == Err::<(), ExceptionResponse>(
            ExceptionResponse::Conflict(locale, ErrorKey::PurchaseConflict),
        ),
        !(text_view(*current) matches Some(c) && !is_blank(c)) && !is_valid_cpf(input.cpf@) ==> r == Err::<
            (),
            ExceptionResponse,
        >(ExceptionResponse::BadRequest(locale, ErrorKey::PurchaseInvalid)),
        r is Ok <==> !(text_view(*current) matches Some(c) && !is_blank(c)) && is_valid_cpf(input.cpf@),
{
    match current {
        Some(c) => {
            if !is_blank_str(c.as_str()) {
                return Err(ExceptionResponse::Conflict(locale, ErrorKey::PurchaseConflict));
            }
        },
        None => {},
    }
    if !valid_cpf(input.cpf.as_str()) {
        return Err(ExceptionResponse::BadRequest(locale, ErrorKey::PurchaseInvalid));
    }
    Ok(())
}

/// A CPF already held by another customer is a conflict.
pub fn check_tax_id_unused(already_used: bool, locale: Locale) -> (r: Result<(), ExceptionResponse>)
    ensures
        r is Ok <==> !already_used,
        r matches Err(e) ==> e == ExceptionResponse::Conflict(locale, ErrorKey::PurchaseConflict),
{
    if already_used {
        return Err(ExceptionResponse::Conflict(locale, ErrorKey::PurchaseConflict));
    }
    Ok(())
}

} // verus!
