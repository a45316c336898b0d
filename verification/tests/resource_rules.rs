use kremlin::commons::exception_response::ExceptionResponse;
use kremlin::commons::i18n::{ErrorKey, Locale};
use kremlin::domain::catalog::ProductImage;
use kremlin::domain::{CurrentUser, Role};
use kremlin::endpoints::json::product_image_json::{ProductImagePresignBatchRequest, ProductImagePresignItemRequest};
use kremlin::endpoints::product_image_endpoint::{check_image_batch, presign_item};
use kremlin::endpoints::sku_endpoint::check_catalog_sku_update;
use kremlin::endpoints::campaign_endpoint::{
    campaign_sort_column, new_campaign, updated_campaign, validate_campaign, CampaignSortColumn,
};
use kremlin::endpoints::json::campaign_json::CampaignInputJson;
use kremlin::endpoints::json::coupon_json::CouponInputJson;
use kremlin::endpoints::campaign_target_endpoint::{
    campaign_target_sort_column, new_campaign_target, updated_campaign_target, CampaignTargetSortColumn,
};
use kremlin::endpoints::cart_endpoint::{cart_sort_column, cart_status, CartSortColumn};
use kremlin::endpoints::cart_item_endpoint::{cart_item_sort_column, validate_line_item, CartItemSortColumn};
use kremlin::endpoints::city_endpoint::{city_sort_column, CitySortColumn};
use kremlin::endpoints::coupon_endpoint::{
    coupon_code, coupon_sort_column, new_coupon, updated_coupon, validate_coupon, CouponSortColumn,
};
use kremlin::endpoints::coupon_redemption_endpoint::{coupon_redemption_sort_column, CouponRedemptionSortColumn};
use kremlin::endpoints::customer_address_endpoint::{
    customer_address_sort_column, new_customer_address, updated_customer_address, CustomerAddressSortColumn,
};
use kremlin::endpoints::customer_endpoint::{customer_sort_column, CustomerSortColumn};
use kremlin::endpoints::json::campaign_json::CampaignTargetInputJson;
use kremlin::endpoints::json::customer_json::CustomerAddressInputJson;
use kremlin::endpoints::json::person_json::PersonInputJson;
use kremlin::endpoints::json::sku_stock_json::SkuStockInputJson;
use kremlin::endpoints::json::tax_rule_json::TaxRuleInputJson;
use kremlin::endpoints::order_item_endpoint::{order_item_sort_column, OrderItemSortColumn};
use kremlin::endpoints::order_status_history_endpoint::{
    order_status_history_sort_column, validate_status_change, OrderStatusHistorySortColumn,
};
use kremlin::endpoints::person_address_endpoint::{person_address_sort_column, PersonAddressSortColumn};
use kremlin::endpoints::person_endpoint::{person_sort_column, person_to_create, PersonSortColumn};
use kremlin::endpoints::product_category_endpoint::{product_category_sort_column, ProductCategorySortColumn};
use kremlin::endpoints::province_endpoint::{province_sort_column, ProvinceSortColumn};
use kremlin::endpoints::shipping_rate_endpoint::{
    new_shipping_rate, shipping_rate_sort_column, updated_shipping_rate, validate_shipping_rate,
    ShippingRateSortColumn,
};
use kremlin::endpoints::sku_attribute_endpoint::{
    sku_attribute_sort_column, validate_sku_attribute, SkuAttributeLinks, SkuAttributeSortColumn,
};
use kremlin::endpoints::sku_stock_endpoint::{new_sku_stock, sku_stock_sort_column, updated_sku_stock, SkuStockSortColumn};
use kremlin::endpoints::tax_rule_endpoint::{new_tax_rule, tax_rule_sort_column, updated_tax_rule, TaxRuleSortColumn};

fn is_bad_request<T>(r: Result<T, ExceptionResponse>) -> bool {
    matches!(r, Err(ExceptionResponse::BadRequest(Locale::En, ErrorKey::InvalidParameterValue)))
}

fn is_forbidden<T>(r: Result<T, ExceptionResponse>) -> bool {
    matches!(r, Err(ExceptionResponse::Forbidden(Locale::En, ErrorKey::InvalidParameterValue)))
}

#[test]
fn every_listing_has_its_sort_columns() {
    assert_eq!(campaign_sort_column("campaign_type"), CampaignSortColumn::CampaignType);
    assert_eq!(campaign_sort_column("StartsAt"), CampaignSortColumn::StartsAt);
    assert_eq!(campaign_sort_column("id"), CampaignSortColumn::Name);
    assert_eq!(campaign_target_sort_column("TARGET_ID"), CampaignTargetSortColumn::TargetId);
    assert_eq!(campaign_target_sort_column("name"), CampaignTargetSortColumn::Id);
    assert_eq!(cart_sort_column("expiresAt"), CartSortColumn::ExpiresAt);
    assert_eq!(cart_sort_column("status"), CartSortColumn::Status);
    assert_eq!(cart_item_sort_column("sku_id"), CartItemSortColumn::SkuId);
    assert_eq!(cart_item_sort_column("price"), CartItemSortColumn::Id);
    assert_eq!(city_sort_column("ibgeCode"), CitySortColumn::IbgeCode);
    assert_eq!(city_sort_column("id"), CitySortColumn::Id);
    assert_eq!(city_sort_column("anything"), CitySortColumn::Name);
    assert_eq!(coupon_sort_column("value"), CouponSortColumn::Value);
    assert_eq!(coupon_sort_column("code"), CouponSortColumn::Code);
    assert_eq!(coupon_redemption_sort_column("orderId"), CouponRedemptionSortColumn::OrderId);
    assert_eq!(customer_address_sort_column("Cidade"), CustomerAddressSortColumn::Cidade);
    assert_eq!(customer_sort_column("email"), CustomerSortColumn::Email);
    assert_eq!(customer_sort_column(""), CustomerSortColumn::Name);
    assert_eq!(order_item_sort_column("quantity"), OrderItemSortColumn::Quantity);
    assert_eq!(order_status_history_sort_column("to_status"), OrderStatusHistorySortColumn::ToStatus);
    assert_eq!(person_sort_column("FirstName"), PersonSortColumn::FirstName);
    assert_eq!(person_sort_column("name"), PersonSortColumn::Surname);
    assert_eq!(person_address_sort_column("postalCode"), PersonAddressSortColumn::PostalCode);
    assert_eq!(product_category_sort_column("is_primary"), ProductCategorySortColumn::IsPrimary);
    assert_eq!(province_sort_column("acronym"), ProvinceSortColumn::Acronym);
    assert_eq!(province_sort_column("country_code"), ProvinceSortColumn::CountryCode);
    assert_eq!(shipping_rate_sort_column("priceCents"), ShippingRateSortColumn::PriceCents);
    assert_eq!(shipping_rate_sort_column("uf"), ShippingRateSortColumn::Uf);
    assert_eq!(sku_attribute_sort_column("attributeValueId"), SkuAttributeSortColumn::AttributeValueId);
    assert_eq!(sku_stock_sort_column("updated_at"), SkuStockSortColumn::UpdatedAt);
    assert_eq!(sku_stock_sort_column("reserved"), SkuStockSortColumn::Reserved);
    assert_eq!(tax_rule_sort_column("cfop"), TaxRuleSortColumn::Cfop);
    assert_eq!(tax_rule_sort_column("uf_destino"), TaxRuleSortColumn::UfDestino);
}

fn stamp(day: u32) -> chrono::NaiveDateTime {
    chrono::NaiveDate::from_ymd_opt(2024, 11, day).unwrap().and_hms_opt(0, 0, 0).unwrap()
}

fn campaign_input(name: &str, kind: &str, active: Option<bool>) -> CampaignInputJson {
    CampaignInputJson {
        tenant_id: None,
        name: name.to_string(),
        campaign_type: kind.to_string(),
        value: 15,
        scope: " all ".to_string(),
        starts_at: stamp(1),
        ends_at: stamp(30),
        active,
    }
}

fn coupon_input(code: &str, kind: &str, active: Option<bool>) -> CouponInputJson {
    CouponInputJson {
        tenant_id: None,
        code: code.to_string(),
        campaign_id: Some(4),
        coupon_type: kind.to_string(),
        value: 10,
        min_order_cents: Some(5000),
        max_uses: None,
        max_uses_per_customer: Some(1),
        starts_at: None,
        expires_at: Some(stamp(29)),
        active,
    }
}

#[test]
fn campaigns_coupons_and_status_changes_need_text() {
    assert!(validate_campaign(&campaign_input("Black Friday", "percent", None), Locale::En).is_ok());
    assert!(is_bad_request(validate_campaign(&campaign_input("  ", "percent", None), Locale::En)));
    assert!(is_bad_request(validate_campaign(&campaign_input("Sale", "", None), Locale::En)));
    assert!(validate_coupon(&coupon_input("SAVE10", "fixed", None), Locale::En).is_ok());
    assert!(is_bad_request(validate_coupon(&coupon_input(" ", "fixed", None), Locale::En)));
    assert!(is_bad_request(validate_coupon(&coupon_input("SAVE10", "\t", None), Locale::En)));
    assert!(validate_status_change("shipped", Locale::En).is_ok());
    assert!(is_bad_request(validate_status_change("   ", Locale::En)));
}

#[test]
fn campaigns_are_built_from_requests() {
    let c = new_campaign(campaign_input(" Black Friday ", " percent ", None), 7);
    assert_eq!(c.id, None);
    assert_eq!(c.tenant_id, Some(7));
    assert_eq!(c.name, "Black Friday");
    assert_eq!(c.campaign_type, "percent");
    assert_eq!(c.scope, "all");
    assert_eq!(c.value, 15);
    assert_eq!(c.starts_at, stamp(1));
    assert!(c.active);
    let stored = kremlin::domain::commerce::Campaign { id: Some(3), uuid: Some("u".to_string()), active: false, ..c };
    let changed = updated_campaign(stored.clone(), campaign_input("Cyber Monday", "fixed", None));
    assert_eq!(changed.id, Some(3));
    assert_eq!(changed.tenant_id, Some(7));
    assert_eq!(changed.name, "Cyber Monday");
    assert!(!changed.active);
    let reopened = updated_campaign(stored, campaign_input("Cyber Monday", "fixed", Some(true)));
    assert!(reopened.active);
}

#[test]
fn coupons_are_built_from_requests() {
    let c = new_coupon(coupon_input(" summer10 ", " percentage ", Some(false)), 2);
    assert_eq!(c.code, "SUMMER10");
    assert_eq!(c.coupon_type, "percentage");
    assert_eq!(c.tenant_id, Some(2));
    assert_eq!(c.min_order_cents, Some(5000));
    assert_eq!(c.expires_at, Some(stamp(29)));
    assert!(!c.active);
    let kept = updated_coupon(c.clone(), coupon_input("winter", "fixed", None));
    assert_eq!(kept.code, "WINTER");
    assert!(!kept.active);
    assert_eq!(kept.tenant_id, Some(2));
}

#[test]
fn coupon_codes_are_trimmed_and_upper_cased() {
    assert_eq!(coupon_code("  save10 "), "SAVE10");
    assert_eq!(coupon_code("verão"), "VERÃO");
    assert_eq!(coupon_code(""), "");
}

#[test]
fn cart_status_defaults() {
    assert_eq!(cart_status(None, None), "active");
    assert_eq!(cart_status(Some("Abandoned".to_string()), None), "abandoned");
    assert_eq!(cart_status(None, Some("checked_out".to_string())), "checked_out");
    assert_eq!(cart_status(Some("OPEN".to_string()), Some("closed".to_string())), "open");
}

#[test]
fn line_items_need_a_quantity_and_a_price() {
    assert!(validate_line_item(1, 0, false, Locale::En).is_ok());
    assert!(is_bad_request(validate_line_item(0, 100, false, Locale::En)));
    assert!(is_bad_request(validate_line_item(2, -1, false, Locale::En)));
    assert!(is_forbidden(validate_line_item(-3, 100, true, Locale::En)));
    assert!(validate_line_item(3, 100, true, Locale::En).is_ok());
}

#[test]
fn shipping_rates_check_state_and_price() {
    assert!(validate_shipping_rate("SP", 1500, false, Locale::En).is_ok());
    assert!(is_bad_request(validate_shipping_rate(" ", 1500, false, Locale::En)));
    assert!(is_bad_request(validate_shipping_rate("SP", -1, false, Locale::En)));
    assert!(validate_shipping_rate("", 1500, true, Locale::En).is_ok());
    assert!(is_forbidden(validate_shipping_rate("SP", -1, true, Locale::En)));
}

#[test]
fn sku_attribute_links_are_positive() {
    let links = SkuAttributeLinks {
        product_id: 1,
        sku_id: 2,
        product_attribute_id: 3,
        attribute_id: 4,
        attribute_value_id: 5,
    };
    assert!(validate_sku_attribute(links, false, Locale::En).is_ok());
    let broken = SkuAttributeLinks { attribute_value_id: 0, ..links };
    assert!(is_bad_request(validate_sku_attribute(broken, false, Locale::En)));
    assert!(is_forbidden(validate_sku_attribute(broken, true, Locale::En)));
}

fn person(first: &str, email: Option<&str>) -> PersonInputJson {
    PersonInputJson {
        tenant_id: Some(1),
        user_id: 7,
        first_name: first.to_string(),
        surname: Some("  Silva ".to_string()),
        date_of_birth: chrono::NaiveDate::from_ymd_opt(1990, 1, 2),
        gender: Some("   ".to_string()),
        avatar: None,
        phone: Some("+55 11 99999-0000".to_string()),
        email: email.map(|e| e.to_string()),
    }
}

#[test]
fn new_persons_are_cleaned() {
    let p = person_to_create(person(" Ana ", Some(" Ana@Example.COM ")), Locale::En).unwrap();
    assert_eq!(p.first_name, "Ana");
    assert_eq!(p.surname, Some("Silva".to_string()));
    assert_eq!(p.gender, None);
    assert_eq!(p.date_of_birth, chrono::NaiveDate::from_ymd_opt(1990, 1, 2));
    assert_eq!(p.phone, Some("+55 11 99999-0000".to_string()));
    assert_eq!(p.email, Some("ana@example.com".to_string()));
    let blank_mail = person_to_create(person("Ana", Some("   ")), Locale::En).unwrap();
    assert_eq!(blank_mail.email, None);
    assert!(is_bad_request(person_to_create(person("  ", None), Locale::En)));
}

#[test]
fn catalogue_sku_changes_are_bad_requests_when_refused() {
    let owner = CurrentUser { id: Some(1), role: Role::TenantOwner, tenant_id: Some(3) };
    assert!(check_catalog_sku_update(&owner, Some(3), None, 990, Locale::En).is_ok());
    assert!(is_bad_request(check_catalog_sku_update(&owner, Some(3), None, -1, Locale::En)));
    assert!(is_bad_request(check_catalog_sku_update(&owner, Some(4), None, 990, Locale::En)));
    let admin = CurrentUser { id: Some(2), role: Role::SysAdmin, tenant_id: None };
    assert!(check_catalog_sku_update(&admin, Some(4), Some(4), 0, Locale::En).is_ok());
    assert!(is_bad_request(check_catalog_sku_update(&admin, Some(4), Some(5), 0, Locale::En)));
}

#[test]
fn tax_rules_addresses_and_rates_normalise_state_codes() {
    let input = TaxRuleInputJson {
        tenant_id: None,
        uf_origem: " sp ".to_string(),
        uf_destino: "rj".to_string(),
        ncm_prefix: Some("2204".to_string()),
        regime: "simples".to_string(),
        csosn: Some("102".to_string()),
        cfop: "6102".to_string(),
        icms_rate_bp: 1200,
        active: None,
    };
    let rule = new_tax_rule(input.clone(), 9);
    assert_eq!(rule.uf_origem, "SP");
    assert_eq!(rule.uf_destino, "RJ");
    assert_eq!(rule.icms_rate_bp, 1200);
    assert!(rule.active);
    assert_eq!(rule.tenant_id, Some(9));
    let off = updated_tax_rule(rule.clone(), TaxRuleInputJson { active: Some(false), ..input });
    assert!(!off.active);
    assert_eq!(off.tenant_id, Some(9));

    let address = CustomerAddressInputJson {
        tenant_id: None,
        customer_id: 5,
        label: Some("Casa".to_string()),
        recipient: " Ana ".to_string(),
        cep: " 01001-000".to_string(),
        logradouro: "Praça da Sé ".to_string(),
        numero: " 1".to_string(),
        complemento: None,
        bairro: " Sé ".to_string(),
        cidade: " São Paulo ".to_string(),
        uf: " sp".to_string(),
        is_default: None,
    };
    let a = new_customer_address(address.clone(), 9);
    assert_eq!(a.recipient, "Ana");
    assert_eq!(a.cep, "01001-000");
    assert_eq!(a.logradouro, "Praça da Sé");
    assert_eq!(a.cidade, "São Paulo");
    assert_eq!(a.uf, "SP");
    assert!(!a.is_default);
    let marked = updated_customer_address(a.clone(), CustomerAddressInputJson { is_default: Some(true), ..address.clone() });
    assert!(marked.is_default);
    let kept = updated_customer_address(marked, address);
    assert!(kept.is_default);

    let rate = new_shipping_rate(" mg ", 1990, 9);
    assert_eq!(rate.uf, "MG");
    assert_eq!(rate.price_cents, 1990);
    let cheaper = updated_shipping_rate(rate, "MG", 990);
    assert_eq!(cheaper.price_cents, 990);
    assert_eq!(cheaper.tenant_id, Some(9));
}

#[test]
fn targets_and_stock_entries_are_built_from_requests() {
    let input = CampaignTargetInputJson {
        tenant_id: None,
        campaign_id: 3,
        target_type: " product ".to_string(),
        target_id: 12,
    };
    let t = new_campaign_target(input, 4);
    assert_eq!(t.target_type, "product");
    assert_eq!(t.campaign_id, 3);
    assert_eq!(t.tenant_id, Some(4));
    let moved = updated_campaign_target(
        t,
        CampaignTargetInputJson { tenant_id: Some(99), campaign_id: 5, target_type: "sku".to_string(), target_id: 8 },
    );
    assert_eq!(moved.tenant_id, Some(4));
    assert_eq!(moved.campaign_id, 5);
    assert_eq!(moved.target_type, "sku");

    let stock = new_sku_stock(SkuStockInputJson { tenant_id: None, sku_id: 6, quantity: 40, reserved: None }, 4);
    assert_eq!(stock.reserved, 0);
    assert_eq!(stock.quantity, 40);
    let held = updated_sku_stock(stock, SkuStockInputJson { tenant_id: None, sku_id: 6, quantity: 35, reserved: Some(5) });
    assert_eq!(held.reserved, 5);
    let again = updated_sku_stock(held, SkuStockInputJson { tenant_id: None, sku_id: 6, quantity: 30, reserved: None });
    assert_eq!(again.reserved, 5);
    assert_eq!(again.quantity, 30);
}

fn image_request(name: &str) -> ProductImagePresignItemRequest {
    ProductImagePresignItemRequest {
        original_filename: name.to_string(),
        mime_type: "image/jpeg".to_string(),
        size_bytes: 2048,
        sku_id: None,
        alt_text: None,
        is_primary: Some(true),
        sort_order: None,
    }
}

#[test]
fn image_batches_need_a_writer_and_some_images() {
    let owner = CurrentUser { id: Some(1), role: Role::TenantOwner, tenant_id: Some(3) };
    let batch = ProductImagePresignBatchRequest { images: vec![image_request("a.jpg")] };
    assert_eq!(check_image_batch(&owner, Some(3), &batch, Locale::En).unwrap(), 3);
    let empty = ProductImagePresignBatchRequest { images: vec![] };
    assert!(is_bad_request(check_image_batch(&owner, Some(3), &empty, Locale::En)));
    let admin = CurrentUser { id: Some(2), role: Role::SysAdmin, tenant_id: None };
    assert_eq!(check_image_batch(&admin, Some(8), &batch, Locale::En).unwrap(), 8);
    assert!(is_forbidden(check_image_batch(&admin, None, &batch, Locale::En)));
    let unbound = CurrentUser { id: Some(5), role: Role::TenantUser, tenant_id: None };
    assert!(is_forbidden(check_image_batch(&unbound, Some(3), &empty, Locale::En)));
}

#[test]
fn presigned_items_carry_the_image() {
    let image = ProductImage {
        id: Some(9),
        uuid: Some("img-9".to_string()),
        tenant_id: Some(3),
        product_id: 4,
        sku_id: None,
        alt_text: Some("rótulo".to_string()),
        sort_order: 1,
        is_primary: false,
        storage_provider: "s3".to_string(),
        bucket: "media".to_string(),
        object_key: "tenants/3/products/4/img-9.jpg".to_string(),
        storage_identity_hash: None,
        object_version: None,
        etag: None,
        checksum_sha256: None,
        original_filename: "img.jpg".to_string(),
        mime_type: "image/jpeg".to_string(),
        size_bytes: 2048,
        width_px: None,
        height_px: None,
        storage_status: "pending".to_string(),
        cdn_url: Some("https://cdn.example/img-9.jpg".to_string()),
    };
    let item = presign_item("https://upload.example/put".to_string(), image);
    assert_eq!(item.upload_url, "https://upload.example/put");
    assert_eq!(item.object_key, "tenants/3/products/4/img-9.jpg");
    assert_eq!(item.cdn_url.as_deref(), Some("https://cdn.example/img-9.jpg"));
    assert_eq!(item.image.id, 9);
    assert_eq!(item.image.object_key, item.object_key);
}
