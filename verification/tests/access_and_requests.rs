use kremlin::authentication::access_policy::{
    authorize_create, authorize_update, authorize_user_create, authorize_user_update, can_access_tenant,
    can_read_tenant, import_tenant, list_scope, may_create_tenant, require_sysadmin, tenant_for_write,
    tenant_list_scope, user_list_scope, user_update_needs_lookup, AccountDraft, TenantScope,
};
use kremlin::authentication::authentication_middleware::{
    audit_scope, bearer_token, check_principal, is_public_route, AuthHeader,
};
use kremlin::commons::exception_response::{purchase_error_response, ExceptionResponse, PurchaseError};
use kremlin::commons::i18n::{translate, ErrorKey, Locale};
use kremlin::commons::pagination::{search_pattern, NormalizedPagination, PageQuery, PagedResponse, SortDirection};
use kremlin::domain::{CurrentUser, Role};
use kremlin::endpoints::web_store_endpoint::build_dummy_user;

fn user(role: Role, id: Option<i64>, tenant_id: Option<i64>) -> CurrentUser {
    CurrentUser { id, role, tenant_id }
}

fn query(page: Option<u64>, size: Option<u64>, q: Option<&str>, sort: Option<&str>, dir: Option<&str>) -> PageQuery {
    PageQuery {
        page,
        page_size: size,
        q: q.map(|s| s.to_string()),
        sort_by: sort.map(|s| s.to_string()),
        sort_dir: dir.map(|s| s.to_string()),
    }
}

#[test]
fn writes_go_to_the_users_own_tenant() {
    let admin = user(Role::SysAdmin, Some(1), None);
    let owner = user(Role::TenantOwner, Some(2), Some(10));
    assert_eq!(tenant_for_write(&admin, Some(7)), Some(7));
    assert_eq!(tenant_for_write(&owner, Some(7)), Some(10));
    assert_eq!(authorize_create(&owner, Some(7), Locale::En).unwrap(), 10);
    assert!(matches!(
        authorize_create(&admin, None, Locale::En),
        Err(ExceptionResponse::Forbidden(Locale::En, ErrorKey::InvalidParameterValue))
    ));
    assert!(can_read_tenant(&owner, Some(10)));
    assert!(!can_read_tenant(&owner, Some(11)));
    assert!(!can_read_tenant(&user(Role::TenantUser, None, None), None));
    assert!(can_access_tenant(&admin, 99));
    assert!(!can_access_tenant(&owner, 99));
}

#[test]
fn updates_never_move_a_record_to_another_tenant() {
    let admin = user(Role::SysAdmin, Some(1), None);
    let owner = user(Role::TenantOwner, Some(2), Some(10));
    assert!(authorize_update(&owner, Some(10), None, Locale::En).is_ok());
    assert!(authorize_update(&owner, Some(10), Some(11), Locale::En).is_ok());
    assert!(authorize_update(&owner, Some(11), None, Locale::En).is_err());
    assert!(authorize_update(&admin, Some(11), None, Locale::En).is_ok());
    assert!(authorize_update(&admin, Some(11), Some(11), Locale::En).is_ok());
    assert!(matches!(
        authorize_update(&admin, Some(11), Some(12), Locale::PtBr),
        Err(ExceptionResponse::Forbidden(Locale::PtBr, ErrorKey::InvalidParameterValue))
    ));
}

#[test]
fn listings_are_scoped() {
    let admin = user(Role::SysAdmin, Some(1), None);
    let seller = user(Role::TenantUser, Some(3), Some(10));
    let lost = user(Role::TenantUser, Some(4), None);
    assert_eq!(list_scope(&admin, None), TenantScope::All);
    assert_eq!(list_scope(&admin, Some(5)), TenantScope::Only(5));
    assert_eq!(list_scope(&seller, Some(5)), TenantScope::Only(10));
    assert_eq!(list_scope(&lost, Some(5)), TenantScope::Nothing);
    assert_eq!(user_list_scope(&seller, None), TenantScope::Nothing);
    assert_eq!(tenant_list_scope(&seller), TenantScope::Only(10));
    assert_eq!(tenant_list_scope(&admin), TenantScope::All);
    assert!(require_sysadmin(&admin, Locale::En).is_ok());
    assert!(require_sysadmin(&seller, Locale::En).is_err());
    assert!(may_create_tenant(&admin));
    assert!(!may_create_tenant(&user(Role::SysAdmin, Some(1), Some(3))));
}

#[test]
fn storefront_visitors_see_the_store_their_header_names() {
    let v = build_dummy_user(Some("12"));
    assert_eq!(v.tenant_id, Some(12));
    assert_eq!(v.role, Role::TenantUser);
    assert_eq!(list_scope(&v, Some(99)), TenantScope::Only(12));
    let anonymous = build_dummy_user(Some("abc"));
    assert_eq!(anonymous.tenant_id, None);
    assert_eq!(list_scope(&anonymous, None), TenantScope::Nothing);
    assert_eq!(build_dummy_user(None).tenant_id, None);
}

#[test]
fn accounts_are_created_within_the_rules() {
    let admin = user(Role::SysAdmin, Some(1), None);
    let owner = user(Role::TenantOwner, Some(2), Some(10));
    let draft = AccountDraft { role: Role::SysAdmin, tenant_id: Some(3), first_login: true, enabled: true };
    let made = authorize_user_create(&admin, draft, Locale::En).unwrap();
    assert_eq!((made.role, made.tenant_id, made.first_login), (Role::SysAdmin, None, false));
    let made = authorize_user_create(&owner, draft, Locale::En).unwrap();
    assert_eq!((made.role, made.tenant_id, made.first_login), (Role::TenantOwner, Some(10), true));
    let seller_draft = AccountDraft { role: Role::TenantUser, tenant_id: Some(3), first_login: false, enabled: true };
    assert!(authorize_user_create(&admin, seller_draft, Locale::En).is_err());
    assert!(authorize_user_create(&user(Role::Customer, Some(5), None), draft, Locale::En).is_err());
}

#[test]
fn accounts_are_updated_within_the_rules() {
    let owner = user(Role::TenantOwner, Some(2), Some(10));
    let draft = AccountDraft { role: Role::SysAdmin, tenant_id: None, first_login: false, enabled: true };
    assert!(user_update_needs_lookup(&owner, 3));
    assert!(!user_update_needs_lookup(&owner, 2));
    let changed = authorize_user_update(&owner, 3, draft, Some(Some(10)), Locale::En).unwrap();
    assert_eq!((changed.role, changed.tenant_id), (Role::TenantOwner, Some(10)));
    assert!(authorize_user_update(&owner, 3, draft, Some(Some(11)), Locale::En).is_err());
    assert!(authorize_user_update(&owner, 3, draft, None, Locale::En).is_err());
    let disabled = AccountDraft { enabled: false, ..draft };
    assert!(authorize_user_update(&owner, 2, disabled, None, Locale::En).is_err());
}

#[test]
fn import_target_tenant() {
    let admin = user(Role::SysAdmin, Some(1), None);
    assert_eq!(import_tenant(&admin, Some(4), Locale::En).unwrap(), 4);
    assert!(matches!(
        import_tenant(&admin, None, Locale::En),
        Err(ExceptionResponse::BadRequest(Locale::En, ErrorKey::RequiredParameterMissing))
    ));
    assert_eq!(import_tenant(&user(Role::TenantOwner, Some(2), Some(10)), Some(4), Locale::En).unwrap(), 10);
    assert!(import_tenant(&user(Role::TenantUser, Some(2), Some(10)), None, Locale::En).is_err());
}

#[test]
fn authentication_layer_decisions() {
    assert!(is_public_route(false, "/login"));
    assert!(is_public_route(true, "/signup/x"));
    assert!(is_public_route(true, "/legal/documents"));
    assert!(!is_public_route(false, "/legal/documents"));
    assert!(!is_public_route(true, "/orders"));
    assert_eq!(bearer_token(AuthHeader::Text("Bearer abc.def".to_string()), Locale::En).unwrap(), "abc.def");
    assert_eq!(bearer_token(AuthHeader::Text("  Bearer   tok  extra".to_string()), Locale::En).unwrap(), "tok");
    assert!(matches!(
        bearer_token(AuthHeader::Text("Basic abc".to_string()), Locale::En),
        Err(ExceptionResponse::Forbidden(Locale::En, ErrorKey::InvalidJwtToken))
    ));
    assert!(matches!(
        bearer_token(AuthHeader::Text("Bearer".to_string()), Locale::En),
        Err(ExceptionResponse::Forbidden(Locale::En, ErrorKey::InvalidJwtToken))
    ));
    assert!(matches!(
        bearer_token(AuthHeader::Missing, Locale::En),
        Err(ExceptionResponse::Forbidden(Locale::En, ErrorKey::RequiredHeaderValueMissing))
    ));
    assert!(matches!(
        bearer_token(AuthHeader::Unreadable, Locale::En),
        Err(ExceptionResponse::Forbidden(Locale::En, ErrorKey::AuthHeaderMissing))
    ));
    assert!(check_principal(&user(Role::TenantUser, Some(1), None), Locale::En).is_err());
    assert!(check_principal(&user(Role::Customer, Some(1), None), Locale::En).is_ok());
    let scope = audit_scope(&user(Role::SysAdmin, None, None));
    assert_eq!((scope.id, scope.tenant_id, scope.enforce_tenant), (0, None, false));
    assert!(audit_scope(&user(Role::SysAdmin, Some(1), Some(3))).enforce_tenant);
}

#[test]
fn locale_and_error_codes() {
    assert_eq!(Locale::from_accept_language(Some(" PT-br ;q=0.9, en")), Locale::PtBr);
    assert_eq!(Locale::from_accept_language(Some("en-US,pt-BR")), Locale::En);
    assert_eq!(Locale::from_accept_language(None), Locale::En);
    assert_eq!(Locale::PtBr.language_id(), "pt-BR");
    assert_eq!(ErrorKey::BadCredentials.as_str(), "BadCredentials");
    assert_eq!(ErrorKey::PurchaseConflict.message_id(), "purchase-conflict");
    assert_eq!(translate(None), "An unexpected error occurred");
    assert_eq!(translate(Some("Olá".to_string())), "Olá");
    let e = ExceptionResponse::NotFound(Locale::En, ErrorKey::TenantNotFound);
    assert_eq!(e.status_code(), 404);
    assert_eq!(e.error_code(), "TenantNotFound");
    let custom = ExceptionResponse::CustomBadRequest("Frete indisponível".to_string());
    assert_eq!(custom.status_code(), 400);
    assert_eq!(custom.error_code(), "bad_request");
    assert!(custom.message_key().is_none());
    assert!(matches!(
        purchase_error_response(Locale::En, PurchaseError::Persistence("x".to_string())),
        ExceptionResponse::InternalServerError(Locale::En, ErrorKey::PurchaseUnavailable)
    ));
    assert!(matches!(
        purchase_error_response(Locale::En, PurchaseError::DeliveryRateMissing("m".to_string())),
        ExceptionResponse::CustomBadRequest(ref m) if m == "m"
    ));
}

#[test]
fn page_requests_are_normalized() {
    let allowed = ["id", "name", "createdAt"];
    let n = NormalizedPagination::new(&query(None, None, None, None, None), &allowed, "name");
    assert_eq!((n.page, n.page_size, n.offset, n.sort_by.as_str()), (1, 25, 0, "name"));
    assert_eq!(n.sort_dir, SortDirection::Asc);
    let n = NormalizedPagination::new(&query(Some(3), Some(500), Some("  vinho "), Some(" CREATEDAT "), Some(" DESC ")), &allowed, "name");
    assert_eq!((n.page, n.page_size, n.offset), (3, 100, 200));
    assert_eq!(n.q.as_deref(), Some("vinho"));
    assert_eq!(n.sort_by, "createdAt");
    assert!(n.sort_dir.is_descending());
    let n = NormalizedPagination::new(&query(Some(0), Some(0), Some("   "), Some("price"), Some("up")), &allowed, "name");
    assert_eq!((n.page, n.page_size, n.offset, n.sort_by.as_str()), (1, 1, 0, "name"));
    assert_eq!(n.q, None);
    assert_eq!(SortDirection::from_optional_str(Some("desc")), SortDirection::Desc);
    assert_eq!(SortDirection::from_optional_str(None), SortDirection::Asc);
    assert_eq!(search_pattern(&Some("ab".to_string())).as_deref(), Some("%ab%"));
    assert_eq!(search_pattern(&None), None);
    let empty: PagedResponse<u8> = PagedResponse::empty(2, 10);
    assert_eq!((empty.total, empty.page, empty.page_size, empty.items.len()), (Some(0), Some(2), Some(10), 0));
    let by_cursor = PagedResponse::page_by_cursor(vec![1u8, 2], Some(9));
    assert_eq!((by_cursor.total, by_cursor.next_cursor), (None, Some(9)));
    let page = PagedResponse::new(vec![7u8], 41, 2, 20);
    assert_eq!((page.total, page.page, page.page_size, page.next_cursor), (Some(41), Some(2), Some(20), None));
}

#[test]
fn message_ids_are_the_codes_in_kebab_case() {
    assert_eq!(ErrorKey::InvalidJwtToken.message_id(), "invalid-jwt-token");
    assert_eq!(ErrorKey::RequiredHeaderValueMissing.message_id(), "required-header-value-missing");
    assert_eq!(ErrorKey::RequiredHeaderValueMissing.as_str(), "RequiredHeaderValueMissing");
    assert_ne!(ErrorKey::TenantNotFound.message_id(), ErrorKey::PurchaseNotFound.message_id());
}
