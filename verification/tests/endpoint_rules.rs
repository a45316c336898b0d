use kremlin::commons::exception_response::ExceptionResponse;
use kremlin::commons::i18n::{ErrorKey, Locale};
use kremlin::domain::{CurrentUser, Role};
use kremlin::endpoints::auth_endpoint::registration;
use kremlin::endpoints::catalog_attribute_endpoint::{
    catalog_attribute_sort_column, catalog_attribute_value_sort_column, product_attribute_sort_column,
    CatalogAttributeSortColumn, CatalogAttributeValueSortColumn, ProductAttributeSortColumn,
};
use kremlin::endpoints::category_endpoint::{category_sort_column, validate_category, CategorySortColumn};
use kremlin::endpoints::checkout_customer_endpoint::{check_tax_id, check_tax_id_unused, require_customer_id, TaxIdInput};
use kremlin::endpoints::json::catalog_json::{CategoryInputJson, ProductInputJson, SkuInputJson};
use kremlin::endpoints::json::customer_json::CustomerAddressInputJson;
use kremlin::endpoints::json::orders_json::OrdersPageQuery;
use kremlin::endpoints::json::person_json::{AvatarPresignRequest, PersonInputJson};
use kremlin::endpoints::json::signup_request::SignupRequest;
use kremlin::endpoints::orders_endpoint::{all_orders_filter, filter, purchase_status_code, require_idempotency_key};
use kremlin::endpoints::product_endpoint::{brand_filter, product_sort_column, validate_product, ProductSortColumn};
use kremlin::endpoints::resource_endpoint::{
    avatar_upload_key,
    avatar_object_key, check_avatar_request, fallback_first_name, profile_update, require_user_id,
    sanitize_filename, ProfileFields,
};
use kremlin::endpoints::sku_endpoint::{
    check_sku_product, sku_record, sku_sort_column, validate_new_sku, validate_sku_price, SkuSortColumn,
};
use kremlin::endpoints::tenant_endpoint::{country_filter, tenant_sort_column, TenantSortColumn};
use kremlin::endpoints::user_endpoint::{user_sort_column, UserSortColumn};
use kremlin::infrastructure::mapper::{tenant_address, tenant_address_json, TenantAddressJson};
use kremlin::text::{decode_hex, split_once_char, trim_str};

fn orders_query(page: Option<u64>, size: Option<u64>, sort: Option<&str>) -> OrdersPageQuery {
    OrdersPageQuery {
        page,
        page_size: size,
        q: Some(" ana ".to_string()),
        sort_by: sort.map(|s| s.to_string()),
        sort_dir: Some("desc".to_string()),
        status: Some("paid".to_string()),
        tenant_id: Some(3),
        customer_id: None,
    }
}

fn sku_input(code: &str, variant: &str, price: i32) -> SkuInputJson {
    SkuInputJson {
        tenant_id: None,
        product_id: 8,
        code: code.to_string(),
        variant_key: variant.to_string(),
        price_cents: price,
        compare_at_price_cents: Some(1000),
        weight_g: None,
        width_mm: None,
        height_mm: None,
        length_mm: Some(30),
        active: true,
    }
}

#[test]
fn order_listings_keep_offsets_in_range() {
    let (norm, f) = filter(orders_query(Some(2), Some(10), Some("paymentstatus")), false);
    assert_eq!((norm.page, norm.page_size, norm.offset), (2, 10, 10));
    assert_eq!(norm.sort_by, "paymentStatus");
    assert_eq!((f.offset, f.limit, f.descending), (10, 10, true));
    assert_eq!(f.query.as_deref(), Some("ana"));
    assert_eq!(f.status.as_deref(), Some("paid"));
    assert_eq!(f.tenant_id, Some(3));
    let (norm, _) = filter(orders_query(None, None, Some("paymentStatus")), true);
    assert_eq!(norm.sort_by, "id");
    let (norm, f) = filter(orders_query(Some(u64::MAX / 100), Some(100), None), true);
    assert_eq!(norm.offset, i64::MAX as u64);
    assert_eq!(f.offset, i64::MAX as u64);
    let (norm, f) = filter(orders_query(Some(u64::MAX), Some(100), None), false);
    assert_eq!((norm.page, norm.offset, f.offset), (u64::MAX, i64::MAX as u64, i64::MAX as u64));
    let all = all_orders_filter();
    assert_eq!((all.offset, all.limit, all.sort_by.as_str(), all.descending), (0, i64::MAX as u64, "id", true));
    assert_eq!(purchase_status_code(true), 200);
    assert_eq!(purchase_status_code(false), 201);
    assert_eq!(require_idempotency_key(Some("k".to_string()), Locale::En).unwrap(), "k");
    assert!(matches!(
        require_idempotency_key(None, Locale::En),
        Err(ExceptionResponse::BadRequest(Locale::En, ErrorKey::RequiredHeaderValueMissing))
    ));
}

#[test]
fn sort_keys_name_columns() {
    assert_eq!(sku_sort_column("variantKey"), SkuSortColumn::VariantKey);
    assert_eq!(sku_sort_column("PRICE_CENTS"), SkuSortColumn::PriceCents);
    assert_eq!(sku_sort_column("name"), SkuSortColumn::Code);
    assert_eq!(product_sort_column("createdAt"), ProductSortColumn::CreatedAt);
    assert_eq!(product_sort_column("whatever"), ProductSortColumn::Name);
    assert_eq!(category_sort_column("slug"), CategorySortColumn::Slug);
    assert_eq!(catalog_attribute_sort_column("displayType"), CatalogAttributeSortColumn::DisplayType);
    assert_eq!(catalog_attribute_value_sort_column("name"), CatalogAttributeValueSortColumn::Id);
    assert_eq!(product_attribute_sort_column("id"), ProductAttributeSortColumn::Id);
    assert_eq!(product_attribute_sort_column("name"), ProductAttributeSortColumn::SortOrder);
    assert_eq!(tenant_sort_column("tax_id"), TenantSortColumn::TaxId);
    assert_eq!(tenant_sort_column("id"), TenantSortColumn::Id);
    assert_eq!(user_sort_column("Role"), UserSortColumn::Role);
    assert_eq!(country_filter(&Some(" br ".to_string())).as_deref(), Some("BR"));
    assert_eq!(country_filter(&Some("  ".to_string())), None);
    assert_eq!(brand_filter(&Some(" Miolo ".to_string())).as_deref(), Some("Miolo"));
    assert_eq!(brand_filter(&Some(" ".to_string())), None);
}

#[test]
fn catalogue_inputs_are_checked() {
    let category = CategoryInputJson { tenant_id: None, name: "Tintos".to_string(), slug: " ".to_string(), parent_id: None, active: true };
    assert!(validate_category(&category, Locale::En).is_err());
    let product = ProductInputJson {
        tenant_id: None,
        name: "Vinho".to_string(),
        slug: "vinho".to_string(),
        description: None,
        brand: None,
        active: true,
        ncm: "22042100".to_string(),
        cest: None,
        origem_mercadoria: 0,
    };
    assert!(validate_product(&product, Locale::En).is_ok());
    assert!(validate_new_sku(&sku_input("C1", "750ml", 0), Locale::En).is_ok());
    assert!(validate_new_sku(&sku_input("C1", " ", 10), Locale::En).is_err());
    assert!(validate_new_sku(&sku_input("C1", "750ml", -1), Locale::En).is_err());
    assert!(matches!(
        validate_sku_price(&sku_input("", "", -5), Locale::En),
        Err(ExceptionResponse::Forbidden(Locale::En, ErrorKey::InvalidParameterValue))
    ));
    assert!(check_sku_product(Some(Some(4)), Some(4), Locale::En).is_ok());
    assert!(check_sku_product(Some(Some(4)), Some(5), Locale::En).is_err());
    assert!(check_sku_product(None, Some(5), Locale::En).is_err());
    let sku = sku_record(0, String::new(), Some(4), sku_input("C1", "750ml", 10));
    assert_eq!((sku.id, sku.tenant_id, sku.product_id, sku.code.as_str()), (0, Some(4), 8, "C1"));
    assert_eq!(sku.length_mm, Some(30));
}

#[test]
fn sign_up_registers_a_customer() {
    let request = SignupRequest {
        name: "Ana".to_string(),
        email: "ana@example.com".to_string(),
        password: "s3cret".to_string(),
        cpf: Some("52998224725".to_string()),
        phone: None,
        address: Some(CustomerAddressInputJson {
            tenant_id: None,
            customer_id: 0,
            label: None,
            recipient: "Ana".to_string(),
            cep: "01001000".to_string(),
            logradouro: "Praça da Sé".to_string(),
            numero: "1".to_string(),
            complemento: None,
            bairro: "Sé".to_string(),
            cidade: "São Paulo".to_string(),
            uf: "SP".to_string(),
            is_default: None,
        }),
    };
    let r = registration(request);
    assert_eq!(r.user.role, Role::Customer);
    assert!(r.user.enabled && r.user.first_login);
    assert_eq!(r.user.tenant_id, None);
    assert_eq!(r.user.name.as_deref(), Some("Ana"));
    assert_eq!(r.customer.password_hash, "s3cret");
    assert!(r.customer.active && !r.customer.marketing_consent);
    let a = r.address.unwrap();
    assert!(a.is_default);
    assert_eq!(a.cidade, "São Paulo");
}

#[test]
fn profile_updates_clean_the_input() {
    let input = PersonInputJson {
        tenant_id: None,
        user_id: 1,
        first_name: "  Ana ".to_string(),
        surname: Some("  ".to_string()),
        date_of_birth: chrono::NaiveDate::from_ymd_opt(1990, 1, 2),
        gender: Some(" f ".to_string()),
        avatar: None,
        phone: None,
        email: Some("  Ana@Example.COM ".to_string()),
    };
    let existing = ProfileFields {
        first_name: "A".to_string(),
        surname: None,
        date_of_birth: None,
        gender: None,
        avatar: Some("a.png".to_string()),
        phone: Some("+55".to_string()),
        email: Some("old@example.com".to_string()),
    };
    let p = profile_update(input.clone(), Some(existing), Locale::En).unwrap();
    assert_eq!(p.first_name, "Ana");
    assert_eq!(p.surname, None);
    assert_eq!(p.gender.as_deref(), Some("f"));
    assert_eq!(p.avatar.as_deref(), Some("a.png"));
    assert_eq!(p.phone.as_deref(), Some("+55"));
    assert_eq!(p.email.as_deref(), Some("ana@example.com"));
    assert_eq!(p.date_of_birth, chrono::NaiveDate::from_ymd_opt(1990, 1, 2));
    let fresh = profile_update(input.clone(), None, Locale::En).unwrap();
    assert_eq!(fresh.avatar, None);
    let mut blank = input;
    blank.first_name = " ".to_string();
    assert!(matches!(
        profile_update(blank, None, Locale::PtBr),
        Err(ExceptionResponse::BadRequest(Locale::PtBr, ErrorKey::InvalidParameterValue))
    ));
    assert_eq!(require_user_id(Some(4), Locale::En).unwrap(), 4);
    assert!(require_user_id(None, Locale::En).is_err());
    assert_eq!(fallback_first_name(&None, "ana@example.com"), "ana");
    assert_eq!(fallback_first_name(&None, "no-at-sign"), "no-at-sign");
    assert_eq!(fallback_first_name(&Some("Bia".to_string()), "b@x"), "Bia");
}

#[test]
fn avatar_keys_are_safe() {
    assert_eq!(sanitize_filename("minha foto (1).png"), "minha_foto__1_.png");
    assert_eq!(sanitize_filename("São-Paulo_1.jpg"), "São-Paulo_1.jpg");
    assert_eq!(sanitize_filename("a/b\\c"), "a_b_c");
    assert_eq!(
        avatar_object_key(Some(3), 7, "u-1", "eu & você.png"),
        "tenants/3/avatars/7-u-1-eu___você.png"
    );
    assert_eq!(avatar_object_key(None, -2, "x", "a"), "tenants/0/avatars/-2-x-a");
    let request = AvatarPresignRequest { original_filename: " ".to_string(), mime_type: "image/png".to_string(), size_bytes: 1 };
    assert!(check_avatar_request(&request, Locale::En).is_err());
}

#[test]
fn checkout_customer_rules() {
    let customer = CurrentUser { id: Some(9), role: Role::Customer, tenant_id: None };
    assert_eq!(require_customer_id(&customer, Locale::En).unwrap(), 9);
    let seller = CurrentUser { id: Some(9), role: Role::TenantUser, tenant_id: Some(1) };
    assert!(matches!(
        require_customer_id(&seller, Locale::En),
        Err(ExceptionResponse::Forbidden(Locale::En, ErrorKey::PurchaseForbidden))
    ));
    let input = TaxIdInput { cpf: "52998224725".to_string() };
    assert!(check_tax_id(&None, &input, Locale::En).is_ok());
    assert!(check_tax_id(&Some("  ".to_string()), &input, Locale::En).is_ok());
    assert!(matches!(
        check_tax_id(&Some("11144477735".to_string()), &input, Locale::En),
        Err(ExceptionResponse::Conflict(Locale::En, ErrorKey::PurchaseConflict))
    ));
    let wrong = TaxIdInput { cpf: "52998224726".to_string() };
    assert!(matches!(
        check_tax_id(&None, &wrong, Locale::En),
        Err(ExceptionResponse::BadRequest(Locale::En, ErrorKey::PurchaseInvalid))
    ));
    assert!(check_tax_id_unused(true, Locale::En).is_err());
    assert!(check_tax_id_unused(false, Locale::En).is_ok());
}

#[test]
fn tenant_address_prefers_canonical_fields() {
    let json = TenantAddressJson {
        email: Some(" a@b.c ".to_string()),
        phone: Some("  ".to_string()),
        address_line1: Some("Rua 1".to_string()),
        address_line2: None,
        locality: None,
        administrative_area: Some(" SP ".to_string()),
        postal_code: Some(" ".to_string()),
        country_code: Some(" br ".to_string()),
        city: Some(" Campinas ".to_string()),
        province: Some("RJ".to_string()),
        zipcode: Some(" 13000 ".to_string()),
    };
    let a = tenant_address(json);
    assert_eq!(a.email.as_deref(), Some("a@b.c"));
    assert_eq!(a.phone, None);
    assert_eq!(a.locality.as_deref(), Some("Campinas"));
    assert_eq!(a.administrative_area.as_deref(), Some("SP"));
    assert_eq!(a.postal_code.as_deref(), Some("13000"));
    assert_eq!(a.country_code.as_deref(), Some("BR"));
    let back = tenant_address_json(a.clone());
    assert_eq!(back.city, a.locality);
    assert_eq!(back.province, a.administrative_area);
    assert_eq!(back.zipcode, a.postal_code);
    let again = tenant_address(back);
    assert_eq!(again.locality, a.locality);
    assert_eq!(again.country_code, a.country_code);
}

#[test]
fn text_helpers() {
    assert_eq!(trim_str("\u{2003} a b \n"), "a b");
    assert_eq!(split_once_char("k=v=w", '='), Some(("k".to_string(), "v=w".to_string())));
    assert_eq!(split_once_char("kv", '='), None);
    assert_eq!(decode_hex("00ff10"), Some(vec![0, 255, 16]));
    assert_eq!(decode_hex("+f"), Some(vec![15]));
    assert_eq!(decode_hex("AbC"), None);
    assert_eq!(decode_hex("g0"), None);
    assert_eq!(decode_hex(""), Some(vec![]));
    assert_eq!(decode_hex("é1"), None);
}

#[test]
fn avatar_upload_keys_carry_a_fresh_uuid() {
    let key = avatar_upload_key(Some(3), 7, "foto.png");
    assert!(key.starts_with("tenants/3/avatars/7-"));
    assert!(key.ends_with("-foto.png"));
    assert_eq!(key.len(), "tenants/3/avatars/7-".len() + 36 + "-foto.png".len());
}
