//! Which tenant's data a user may read, write and list.
use crate::commons::exception_response::ExceptionResponse;
use crate::commons::i18n::{ErrorKey, Locale};
use crate::domain::{CurrentUser, Role};
use vstd::prelude::*;

verus! {

/// The tenant a user writes to: the one a system administrator asks for,
/// everybody else's own.
pub open spec fn write_tenant(user: CurrentUser, requested: Option<i64>) -> Option<i64> {
    if user.role == Role::SysAdmin {
        requested
    } else {
        user.tenant_id
    }
}

/// A system administrator reads every tenant's records; anybody else only
/// those of their own tenant.
pub open spec fn reads_tenant(user: CurrentUser, tenant_id: Option<i64>) -> bool {
    user.role == Role::SysAdmin || (user.tenant_id is Some && user.tenant_id == tenant_id)
}

/// A user reaches a tenant's own record when it is their tenant, or when they
/// are a system administrator bound to no tenant.
pub open spec fn reaches_tenant(user: CurrentUser, tenant_id: i64) -> bool {
    user.tenant_id == Some(tenant_id) || (user.role == Role::SysAdmin && user.tenant_id is None)
}

/// The tenant a record is written to.
pub fn tenant_for_write(user: &CurrentUser, requested: Option<i64>) -> (r: Option<i64>)
    ensures
        r == write_tenant(*user, requested),
{
    match user.role {
        Role::SysAdmin => requested,
        _ => user.tenant_id,
    }
}

/// Whether the user may read a record of the tenant.
pub fn can_read_tenant(user: &CurrentUser, tenant_id: Option<i64>) -> (r: bool)
    ensures
        r == reads_tenant(*user, tenant_id),
{
    user.role == Role::SysAdmin || (user.tenant_id.is_some() && user.tenant_id == tenant_id)
}

/// Whether the user may read or change the tenant's own record.
pub fn can_access_tenant(user: &CurrentUser, tenant_id: i64) -> (r: bool)
    ensures
        r == reaches_tenant(*user, tenant_id),
{
    user.tenant_id == Some(tenant_id) || (user.role == Role::SysAdmin && user.tenant_id.is_none())
}

/// The rows a listing returns: all of them, one tenant's, or none.
#[derive(Debug, Clone, Copy, PartialEq, Eq, Structural)]
pub enum TenantScope {
    All,
    Only(i64),
    Nothing,
}

/// The rows a listing of tenant-owned records returns: a system administrator
/// sees the tenant they ask for, or all; anybody else their own tenant's
/// rows, or none when bound to no tenant.
pub open spec fn listing_scope(user: CurrentUser, requested: Option<i64>) -> TenantScope {
    if user.role != Role::SysAdmin {
        match user.tenant_id {
            Some(t) => TenantScope::Only(t),
            None => TenantScope::Nothing,
        }
    } else {
        match requested {
            Some(t) => TenantScope::Only(t),
            None => TenantScope::All,
        }
    }
}

/// The rows a listing of tenant-owned records returns.
pub fn list_scope(user: &CurrentUser, requested: Option<i64>) -> (r: TenantScope)
    ensures
        r == listing_scope(*user, requested),
{
    if user.role != Role::SysAdmin {
        match user.tenant_id {
            Some(t) => TenantScope::Only(t),
            None => TenantScope::Nothing,
        }
    } else {
        match requested {
            Some(t) => TenantScope::Only(t),
            None => TenantScope::All,
        }
    }
}

/// The users a listing of users returns: a system administrator sees the
/// tenant asked for, or all; a tenant owner their own tenant's users, or
/// none; anybody else none.
pub open spec fn user_listing_scope(user: CurrentUser, requested: Option<i64>) -> TenantScope {
    match user.role {
        Role::SysAdmin => match requested {
            Some(t) => TenantScope::Only(t),
            None => TenantScope::All,
        },
        Role::TenantOwner => match user.tenant_id {
            Some(t) => TenantScope::Only(t),
            None => TenantScope::Nothing,
        },
        _ => TenantScope::Nothing,
    }
}

/// The users a listing of users returns.
pub fn user_list_scope(user: &CurrentUser, requested: Option<i64>) -> (r: TenantScope)
    ensures
        r == user_listing_scope(*user, requested),
{
    match user.role {
        Role::SysAdmin => match requested {
            Some(t) => TenantScope::Only(t),
            None => TenantScope::All,
        },
        Role::TenantOwner => match user.tenant_id {
            Some(t) => TenantScope::Only(t),
            None => TenantScope::Nothing,
        },
        _ => TenantScope::Nothing,
    }
}

/// The tenants a listing of tenants returns: a user bound to a tenant sees
/// that tenant, an unbound system administrator all, anybody else none.
pub open spec fn tenant_listing_scope(user: CurrentUser) -> TenantScope {
    match user.tenant_id {
        Some(t) => TenantScope::Only(t),
        None => if user.role == Role::SysAdmin {
            TenantScope::All
        } else {
            TenantScope::Nothing
        },
    }
}

/// The tenants a listing of tenants returns.
pub fn tenant_list_scope(user: &CurrentUser) -> (r: TenantScope)
    ensures
        r == tenant_listing_scope(*user),
{
    match user.tenant_id {
        Some(t) => TenantScope::Only(t),
        None => if user.role == Role::SysAdmin {
            TenantScope::All
        } else {
            TenantScope::Nothing
        },
    }
}

/// Only a system administrator passes.
pub fn require_sysadmin(user: &CurrentUser, locale: Locale) -> (r: Result<(), ExceptionResponse>)
    ensures
        r is Ok <==> user.role == Role::SysAdmin,
        r matches Err(e) ==> e == ExceptionResponse::Forbidden(
            locale,
            ErrorKey::InvalidParameterValue,
        ),
{
    if user.role == Role::SysAdmin {
        Ok(())
    } else {
        Err(ExceptionResponse::Forbidden(locale, ErrorKey::InvalidParameterValue))
    }
}

/// Only a system administrator bound to no tenant creates tenants.
pub fn may_create_tenant(user: &CurrentUser) -> (r: bool)
    ensures
        r == (user.role == Role::SysAdmin && user.tenant_id is None),
{
    user.role == Role::SysAdmin && user.tenant_id.is_none()
}

/// A user who is not a system administrator only ever reads their own
/// tenant, and only ever writes to it, whatever tenant they ask for.
pub proof fn tenant_isolation(user: CurrentUser, requested: Option<i64>, tenant_id: Option<i64>)
    requires
        user.role != Role::SysAdmin,
    ensures
        reads_tenant(user, tenant_id) ==> tenant_id == user.tenant_id && tenant_id is Some,
        write_tenant(user, requested) == user.tenant_id,
        write_tenant(user, requested) matches Some(t) ==> reads_tenant(user, Some(t)),
        listing_scope(user, requested) != TenantScope::All,
        listing_scope(user, requested) matches TenantScope::Only(t) ==> reads_tenant(
            user,
            Some(t),
        ),
        tenant_listing_scope(user) != TenantScope::All,
{
}

/// The tenant a new record goes to: the one the user writes to; a user
/// who writes to no tenant is refused.
pub fn authorize_create(user: &CurrentUser, requested: Option<i64>, locale: Locale) -> (r: Result<i64, ExceptionResponse>)
    ensures
        match write_tenant(*user, requested) {
            Some(t) => r == Ok::<i64, ExceptionResponse>(t),
            None => r == Err::<i64, ExceptionResponse>(ExceptionResponse::Forbidden(locale, ErrorKey::InvalidParameterValue)),
        },
{
    match tenant_for_write(user, requested) {
        Some(t) => Ok(t),
        None => Err(ExceptionResponse::Forbidden(locale, ErrorKey::InvalidParameterValue)),
    }
}

/// A record may be changed by a user who reads its tenant and who would
/// write it to that same tenant (asking for none keeps the record's).
pub open spec fn may_update(user: CurrentUser, existing: Option<i64>, requested: Option<i64>) -> bool {
    reads_tenant(user, existing) && write_tenant(
        user,
        match requested {
            Some(t) => Some(t),
            None => existing,
        },
    ) == existing
}

/// Refuses a change of a record of tenant `existing` that the user may
/// not make.
pub fn authorize_update(user: &CurrentUser, existing: Option<i64>, requested: Option<i64>, locale: Locale) -> (r: Result<(), ExceptionResponse>)
    ensures
        r is Ok <==> may_update(*user, existing, requested),
        r matches Err(e) ==> e == ExceptionResponse::Forbidden(locale, ErrorKey::InvalidParameterValue),
{
    let target = match requested {
        Some(t) => Some(t),
        None => existing,
    };
    if !can_read_tenant(user, existing) || tenant_for_write(user, target) != existing {
        return Err(ExceptionResponse::Forbidden(locale, ErrorKey::InvalidParameterValue));
    }
    Ok(())
}

/// Records never change tenant: a change a user may make keeps the record
/// in a tenant the user reads, and a user who is not a system administrator
/// changes only their own tenant's records.
pub proof fn updates_stay_in_their_tenant(user: CurrentUser, existing: Option<i64>, requested: Option<i64>)
    requires
        may_update(user, existing, requested),
    ensures
        reads_tenant(user, existing),
        user.role != Role::SysAdmin ==> existing == user.tenant_id && existing is Some,
        user.role == Role::SysAdmin && requested is Some ==> requested == existing,
{
}

/// The fields of a user account that the access rules set.
#[derive(Debug, Clone, Copy, PartialEq, Eq, Structural)]
pub struct AccountDraft {
    pub role: Role,
    pub tenant_id: Option<i64>,
    pub first_login: bool,
    pub enabled: bool,
}

/// The account a creator may create from a draft: a system administrator
/// creates system administrators (bound to no tenant) and owners of a named
/// tenant; a tenant owner creates owners of their own tenant; nobody else
/// creates accounts.
pub open spec fn created_account(creator: CurrentUser, draft: AccountDraft, locale: Locale) -> Result<
    AccountDraft,
    ExceptionResponse,
> {
    match creator.role {
        Role::SysAdmin => if draft.role == Role::SysAdmin {
            Ok(AccountDraft { tenant_id: None, first_login: false, ..draft })
        } else if draft.role == Role::TenantOwner && draft.tenant_id is Some {
            Ok(AccountDraft { first_login: true, ..draft })
        } else {
            Err(ExceptionResponse::BadRequest(locale, ErrorKey::InvalidParameterValue))
        },
        Role::TenantOwner => match creator.tenant_id {
            Some(t) => Ok(
                AccountDraft { tenant_id: Some(t), role: Role::TenantOwner, first_login: true, ..draft },
            ),
            None => Err(ExceptionResponse::Forbidden(locale, ErrorKey::RequiredHeaderValueMissing)),
        },
        _ => Err(ExceptionResponse::Forbidden(locale, ErrorKey::RequiredHeaderValueMissing)),
    }
}

/// Applies the creation rules to a draft account.
pub fn authorize_user_create(creator: &CurrentUser, draft: AccountDraft, locale: Locale) -> (r:
    Result<AccountDraft, ExceptionResponse>)
    ensures
        r == created_account(*creator, draft, locale),
{
    match creator.role {
        Role::SysAdmin => if draft.role == Role::SysAdmin {
            Ok(AccountDraft { tenant_id: None, first_login: false, ..draft })
        } else if draft.role == Role::TenantOwner && draft.tenant_id.is_some() {
            Ok(AccountDraft { first_login: true, ..draft })
        } else {
            Err(ExceptionResponse::BadRequest(locale, ErrorKey::InvalidParameterValue))
        },
        Role::TenantOwner => match creator.tenant_id {
            Some(t) => Ok(
                AccountDraft { tenant_id: Some(t), role: Role::TenantOwner, first_login: true, ..draft },
            ),
            None => Err(ExceptionResponse::Forbidden(locale, ErrorKey::RequiredHeaderValueMissing)),
        },
        _ => Err(ExceptionResponse::Forbidden(locale, ErrorKey::RequiredHeaderValueMissing)),
    }
}

/// Whether changing account `id` needs the account's current tenant: when a
/// tenant owner changes somebody else.
pub open spec fn update_needs_lookup(current: CurrentUser, id: i64) -> bool {
    current.role != Role::SysAdmin && current.id != Some(id) && current.role == Role::TenantOwner
}

/// The account a user may write when changing account `id`. `existing` is the
/// tenant of the account as stored, when it was looked up and found; it is
/// read only when `update_needs_lookup` holds.
pub open spec fn updated_account(
    current: CurrentUser,
    id: i64,
    draft: AccountDraft,
    existing: Option<Option<i64>>,
    locale: Locale,
) -> Result<AccountDraft, ExceptionResponse> {
    if current.id == Some(id) && !draft.enabled {
        Err(ExceptionResponse::BadRequest(locale, ErrorKey::InvalidParameterValue))
    } else if current.role != Role::SysAdmin && current.id != Some(id) && current.role
        != Role::TenantOwner {
        Err(ExceptionResponse::Forbidden(locale, ErrorKey::RequiredHeaderValueMissing))
    } else if update_needs_lookup(current, id) && existing is None {
        Err(ExceptionResponse::NotFound(locale, ErrorKey::RequiredParameterMissing))
    } else if update_needs_lookup(current, id) && existing.unwrap() != current.tenant_id {
        Err(ExceptionResponse::Forbidden(locale, ErrorKey::RequiredHeaderValueMissing))
    } else if current.role == Role::SysAdmin {
        if draft.role == Role::SysAdmin {
            Ok(AccountDraft { tenant_id: None, ..draft })
        } else if draft.role != Role::TenantOwner || draft.tenant_id is None {
            Err(ExceptionResponse::BadRequest(locale, ErrorKey::InvalidParameterValue))
        } else {
            Ok(draft)
        }
    } else if current.role == Role::TenantOwner {
        Ok(AccountDraft { tenant_id: current.tenant_id, role: Role::TenantOwner, ..draft })
    } else {
        Ok(draft)
    }
}

/// Whether the update of account `id` needs the stored account's tenant.
pub fn user_update_needs_lookup(current: &CurrentUser, id: i64) -> (r: bool)
    ensures
        r == update_needs_lookup(*current, id),
{
    current.role != Role::SysAdmin && current.id != Some(id) && current.role == Role::TenantOwner
}

/// Applies the update rules to a draft account.
pub fn authorize_user_update(
    current: &CurrentUser,
    id: i64,
    draft: AccountDraft,
    existing: Option<Option<i64>>,
    locale: Locale,
) -> (r: Result<AccountDraft, ExceptionResponse>)
    ensures
        r == updated_account(*current, id, draft, existing, locale),
{
    if current.id == Some(id) && !draft.enabled {
        return Err(ExceptionResponse::BadRequest(locale, ErrorKey::InvalidParameterValue));
    }
    let mut out = draft;
    if current.role != Role::SysAdmin && current.id != Some(id) {
        if current.role == Role::TenantOwner {
            match existing {
                None => {
                    return Err(
                        ExceptionResponse::NotFound(locale, ErrorKey::RequiredParameterMissing),
                    );
                },
                Some(stored) => {
                    if stored != current.tenant_id {
                        return Err(
                            ExceptionResponse::Forbidden(
                                locale,
                                ErrorKey::RequiredHeaderValueMissing,
                            ),
                        );
                    }
                },
            }
            out.tenant_id = current.tenant_id;
            out.role = Role::TenantOwner;
        } else {
            return Err(ExceptionResponse::Forbidden(locale, ErrorKey::RequiredHeaderValueMissing));
        }
    }
    if current.role == Role::SysAdmin {
        if out.role == Role::SysAdmin {
            out.tenant_id = None;
        } else if out.role != Role::TenantOwner || out.tenant_id.is_none() {
            return Err(ExceptionResponse::BadRequest(locale, ErrorKey::InvalidParameterValue));
        }
    } else if current.role == Role::TenantOwner {
        out.tenant_id = current.tenant_id;
        out.role = Role::TenantOwner;
    }
    Ok(out)
}

/// Only a system administrator creates or changes system administrators, and
/// a tenant owner only ever writes owners of their own tenant.
pub proof fn account_rules_keep_tenants_apart(
    current: CurrentUser,
    id: i64,
    draft: AccountDraft,
    existing: Option<Option<i64>>,
    locale: Locale,
)
    requires
        current.role != Role::SysAdmin,
    ensures
        created_account(current, draft, locale) matches Ok(a) ==> a.role == Role::TenantOwner
            && a.tenant_id == current.tenant_id && a.tenant_id is Some,
        updated_account(current, id, draft, existing, locale) matches Ok(a) ==> a.role
            != Role::SysAdmin || current.id == Some(id),
        current.role == Role::TenantOwner ==> (updated_account(
            current,
            id,
            draft,
            existing,
            locale,
        ) matches Ok(a) ==> a.tenant_id == current.tenant_id && a.role == Role::TenantOwner),
{
}

/// The tenant a catalogue import writes to: the one a system administrator
/// asks for (a positive id), else their own; a tenant owner's own; nobody
/// else imports.
pub open spec fn import_target(user: CurrentUser, requested: Option<i64>, locale: Locale) -> Result<
    i64,
    ExceptionResponse,
> {
    match user.role {
        Role::SysAdmin => match requested {
            Some(t) => Ok(t),
            None => match user.tenant_id {
                Some(t) => Ok(t),
                None => Err(ExceptionResponse::BadRequest(locale, ErrorKey::RequiredParameterMissing)),
            },
        },
        Role::TenantOwner => match user.tenant_id {
            Some(t) => Ok(t),
            None => Err(ExceptionResponse::Forbidden(locale, ErrorKey::InvalidParameterValue)),
        },
        _ => Err(ExceptionResponse::Forbidden(locale, ErrorKey::InvalidParameterValue)),
    }
}

/// The tenant a catalogue import writes to. `requested` is the tenant the
/// form names, already read as a positive number.
pub fn import_tenant(user: &CurrentUser, requested: Option<i64>, locale: Locale) -> (r: Result<
    i64,
    ExceptionResponse,
>)
    ensures
        r == import_target(*user, requested, locale),
{
    match user.role {
        Role::SysAdmin => match requested {
            Some(t) => Ok(t),
            None => match user.tenant_id {
                Some(t) => Ok(t),
                None => Err(ExceptionResponse::BadRequest(locale, ErrorKey::RequiredParameterMissing)),
            },
        },
        Role::TenantOwner => match user.tenant_id {
            Some(t) => Ok(t),
            None => Err(ExceptionResponse::Forbidden(locale, ErrorKey::InvalidParameterValue)),
        },
        _ => Err(ExceptionResponse::Forbidden(locale, ErrorKey::InvalidParameterValue)),
    }
}

/// A system administrator creates the owner of a tenant that the draft
/// names, as a first login with the draft's enabled flag; an owner draft
/// that names no tenant is refused.
pub proof fn sysadmins_create_owners_of_named_tenants(creator: CurrentUser, draft: AccountDraft, locale: Locale)
    requires
        creator.role == Role::SysAdmin,
        draft.role == Role::TenantOwner,
    ensures
        draft.tenant_id is Some ==> created_account(creator, draft, locale) == Ok::<AccountDraft, ExceptionResponse>(
            AccountDraft { role: Role::TenantOwner, tenant_id: draft.tenant_id, first_login: true, enabled: draft.enabled },
        ),
        draft.tenant_id is None ==> created_account(creator, draft, locale) is Err,
{
}

/// A tenant owner bound to tenant `t` lists exactly the users of `t`,
/// whatever tenant is asked for; a user that is neither a system
/// administrator nor an owner lists no users; only a system administrator
/// lists all users or another tenant's.
pub proof fn user_listings_stay_in_the_owners_tenant(user: CurrentUser, requested: Option<i64>, t: i64)
    ensures
        user.role == Role::TenantOwner && user.tenant_id == Some(t) ==> user_listing_scope(user, requested)
            == TenantScope::Only(t),
        user.role != Role::SysAdmin && user.role != Role::TenantOwner ==> user_listing_scope(user, requested)
            == TenantScope::Nothing,
        user.role != Role::SysAdmin ==> user_listing_scope(user, requested) != TenantScope::All,
        user.role != Role::SysAdmin && user_listing_scope(user, requested) == TenantScope::Only(t)
            ==> user.tenant_id == Some(t),
{
}

/// What a listing of tenant records shows: a user bound to tenant `t` who
/// is not a system administrator sees `t` only, whatever is asked; an
/// unbound one sees nothing; a system administrator sees the tenant asked
/// for, or all. A listing of tenants shows a bound user their own tenant,
/// an unbound system administrator all tenants and anybody else none.
pub proof fn listings_follow_the_user(user: CurrentUser, requested: Option<i64>, t: i64)
    ensures
        user.role != Role::SysAdmin && user.tenant_id == Some(t) ==> listing_scope(user, requested)
            == TenantScope::Only(t),
        user.role != Role::SysAdmin && user.tenant_id is None ==> listing_scope(user, requested)
            == TenantScope::Nothing,
        user.role == Role::SysAdmin && requested == Some(t) ==> listing_scope(user, requested)
            == TenantScope::Only(t),
        user.role == Role::SysAdmin && requested is None ==> listing_scope(user, requested) == TenantScope::All,
        user.tenant_id == Some(t) ==> tenant_listing_scope(user) == TenantScope::Only(t),
        user.tenant_id is None ==> (tenant_listing_scope(user) == TenantScope::All <==> user.role
            == Role::SysAdmin),
        user.tenant_id is None && user.role != Role::SysAdmin ==> tenant_listing_scope(user)
            == TenantScope::Nothing,
{
}

/// Who creates which accounts: a tenant owner of tenant `t` creates owners
/// of `t` only, as a first login; a system administrator creates system
/// administrators bound to no tenant and not as a first login; users that
/// are neither create nothing.
pub proof fn account_creation_outcomes(creator: CurrentUser, draft: AccountDraft, locale: Locale, t: i64)
    ensures
        creator.role == Role::TenantOwner && creator.tenant_id == Some(t) ==> created_account(creator, draft, locale)
            == Ok::<AccountDraft, ExceptionResponse>(
            AccountDraft { role: Role::TenantOwner, tenant_id: Some(t), first_login: true, enabled: draft.enabled },
        ),
        creator.role == Role::TenantOwner && creator.tenant_id is None ==> created_account(creator, draft, locale) is Err,
        creator.role == Role::SysAdmin && draft.role == Role::SysAdmin ==> created_account(creator, draft, locale)
            == Ok::<AccountDraft, ExceptionResponse>(
            AccountDraft { role: Role::SysAdmin, tenant_id: None, first_login: false, enabled: draft.enabled },
        ),
        creator.role == Role::SysAdmin && draft.role != Role::SysAdmin && draft.role != Role::TenantOwner
            ==> created_account(creator, draft, locale) is Err,
        creator.role != Role::SysAdmin && creator.role != Role::TenantOwner ==> created_account(creator, draft, locale) is Err,
{
}

} // verus!
