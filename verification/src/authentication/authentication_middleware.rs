//! What the authentication layer decides before a request reaches an endpoint.
use crate::commons::exception_response::ExceptionResponse;
use crate::commons::i18n::{ErrorKey, Locale};
use crate::domain::{CurrentUser, Role};
use crate::text::{chars_of, is_white_space, is_whitespace, starts_with, str_eq, string_of, trim_start};
use vstd::prelude::*;

verus! {

/// The routes that need no signed-in user: sign-in, sign-up, token refresh,
/// invitation acceptance, and reading the legal documents.
pub open spec fn public_route(is_get: bool, path: Seq<char>) -> bool {
    ||| "/login"@.is_prefix_of(path)
    ||| "/signup"@.is_prefix_of(path)
    ||| "/refresh"@.is_prefix_of(path)
    ||| "/accept-invite"@.is_prefix_of(path)
    ||| (is_get && path == "/legal/documents"@)
}

/// Whether the route is served without authentication.
pub fn is_public_route(is_get: bool, path: &str) -> (r: bool)
    ensures
        r == public_route(is_get, path@),
{
    starts_with(path, "/login") || starts_with(path, "/signup") || starts_with(path, "/refresh")
        || starts_with(path, "/accept-invite") || (is_get && str_eq(path, "/legal/documents"))
}

/// The `Authorization` header of a request.
pub enum AuthHeader {
    Missing,
    /// Present, but not visible ASCII text.
    Unreadable,
    Text(String),
}

/// The number of characters at the start of `s` that are not whitespace.
pub open spec fn word_len(s: Seq<char>) -> nat
    decreases s.len(),
{
    if s.len() > 0 && !is_white_space(s[0]) {
        1 + word_len(s.drop_first())
    } else {
        0
    }
}

/// The first whitespace-separated word of `s` (empty when there is none).
pub open spec fn first_word(s: Seq<char>) -> Seq<char> {
    trim_start(s).take(word_len(trim_start(s)) as int)
}

/// What follows the first word of `s`.
pub open spec fn after_first_word(s: Seq<char>) -> Seq<char> {
    trim_start(s).skip(word_len(trim_start(s)) as int)
}

pub open spec fn bearer_word() -> Seq<char> {
    seq!['B', 'e', 'a', 'r', 'e', 'r']
}

/// The bearer token an `Authorization` header carries: its second word, when
/// the first is `Bearer`.
pub open spec fn bearer_token_of(header: AuthHeader, locale: Locale) -> Result<
    Seq<char>,
    ExceptionResponse,
> {
    match header {
        AuthHeader::Missing => Err(
            ExceptionResponse::Forbidden(locale, ErrorKey::RequiredHeaderValueMissing),
        ),
        AuthHeader::Unreadable => Err(
            ExceptionResponse::Forbidden(locale, ErrorKey::AuthHeaderMissing),
        ),
        AuthHeader::Text(h) => {
            let token = first_word(after_first_word(h@));
            if first_word(h@) == bearer_word() && token.len() > 0 {
                Ok(token)
            } else {
                Err(ExceptionResponse::Forbidden(locale, ErrorKey::InvalidJwtToken))
            }
        },
    }
}

/// Skips whitespace from `i`.
fn skip_white(v: &Vec<char>, i: usize) -> (r: usize)
    requires
        i <= v@.len(),
    ensures
        i <= r <= v@.len(),
        trim_start(v@.skip(i as int)) == v@.skip(r as int),
{
    let mut j = i;
    while j < v.len() && is_whitespace(v[j])
        invariant
            i <= j <= v@.len(),
            trim_start(v@.skip(i as int)) == trim_start(v@.skip(j as int)),
        decreases v@.len() - j,
    {
        proof {
            let s = v@.skip(j as int);
            assert(s[0] == v@[j as int]);
            assert(s.drop_first() =~= v@.skip(j + 1));
        }
        j = j + 1;
    }
    proof {
        let s = v@.skip(j as int);
        if s.len() > 0 {
            assert(s[0] == v@[j as int]);
        }
    }
    j
}

/// Reads a word from `i`.
fn word_end(v: &Vec<char>, i: usize) -> (r: usize)
    requires
        i <= v@.len(),
    ensures
        i <= r <= v@.len(),
        word_len(v@.skip(i as int)) == r - i,
{
    let mut j = i;
    while j < v.len() && !is_whitespace(v[j])
        invariant
            i <= j <= v@.len(),
            word_len(v@.skip(i as int)) == (j - i) + word_len(v@.skip(j as int)),
        decreases v@.len() - j,
    {
        proof {
            let s = v@.skip(j as int);
            assert(s[0] == v@[j as int]);
            assert(s.drop_first() =~= v@.skip(j + 1));
        }
        j = j + 1;
    }
    proof {
        let s = v@.skip(j as int);
        if s.len() > 0 {
            assert(s[0] == v@[j as int]);
        }
    }
    j
}

/// The bearer token of an `Authorization` header.
pub fn bearer_token(header: AuthHeader, locale: Locale) -> (r: Result<String, ExceptionResponse>)
    ensures
        match r {
            Ok(t) => bearer_token_of(header, locale) == Ok::<Seq<char>, ExceptionResponse>(t@),
            Err(e) => bearer_token_of(header, locale) == Err::<Seq<char>, ExceptionResponse>(e),
        },
{
    match header {
        AuthHeader::Missing => Err(
            ExceptionResponse::Forbidden(locale, ErrorKey::RequiredHeaderValueMissing),
        ),
        AuthHeader::Unreadable => Err(
            ExceptionResponse::Forbidden(locale, ErrorKey::AuthHeaderMissing),
        ),
        AuthHeader::Text(h) => {
            let v = chars_of(h.as_str());
            let a = skip_white(&v, 0);
            let b = word_end(&v, a);
            let c = skip_white(&v, b);
            let d = word_end(&v, c);
            let ghost s = h@;
            proof {
                assert(v@.skip(0) =~= v@);
                let t = v@.skip(a as int);
                assert(t.take((b - a) as int) =~= v@.subrange(a as int, b as int));
                assert(t.skip((b - a) as int) =~= v@.skip(b as int));
                let u = v@.skip(c as int);
                assert(u.take((d - c) as int) =~= v@.subrange(c as int, d as int));
            }
            let first = string_of(&v, a, b);
            let word = "Bearer";
            proof {
                reveal_strlit("Bearer");
                assert(word@ =~= bearer_word());
            }
            if str_eq(first.as_str(), word) && d > c {
                Ok(string_of(&v, c, d))
            } else {
                Err(ExceptionResponse::Forbidden(locale, ErrorKey::InvalidJwtToken))
            }
        },
    }
}

/// Tenant owners and tenant users must belong to a tenant.
pub open spec fn principal_allowed(user: CurrentUser) -> bool {
    !((user.role == Role::TenantOwner || user.role == Role::TenantUser) && user.tenant_id is None)
}

/// Refuses a signed-in tenant owner or tenant user who belongs to no tenant.
pub fn check_principal(user: &CurrentUser, locale: Locale) -> (r: Result<(), ExceptionResponse>)
    ensures
        r is Ok <==> principal_allowed(*user),
        r matches Err(e) ==> e == ExceptionResponse::Forbidden(
            locale,
            ErrorKey::InvalidParameterValue,
        ),
{
    if (user.role == Role::TenantOwner || user.role == Role::TenantUser) && user.tenant_id.is_none() {
        Err(ExceptionResponse::Forbidden(locale, ErrorKey::InvalidParameterValue))
    } else {
        Ok(())
    }
}

/// Who the audit trail records a request under.
#[derive(Debug, Clone, Copy, PartialEq, Eq, Structural)]
pub struct AuditScope {
    pub id: i64,
    pub tenant_id: Option<i64>,
    /// Whether writes are held to the user's tenant.
    pub enforce_tenant: bool,
}

/// The audit record of a signed-in user: writes are held to the tenant for
/// everybody but a system administrator bound to no tenant.
pub fn audit_scope(user: &CurrentUser) -> (r: AuditScope)
    ensures
        r.id == match user.id {
            Some(i) => i,
            None => 0,
        },
        r.tenant_id == user.tenant_id,
        r.enforce_tenant == (user.tenant_id is Some || user.role != Role::SysAdmin),
{
    AuditScope {
        id: match user.id {
            Some(i) => i,
            None => 0,
        },
        tenant_id: user.tenant_id,
        enforce_tenant: user.tenant_id.is_some() || user.role != Role::SysAdmin,
    }
}

} // verus!
