use kremlin::domain::commerce::{
    AccessToken, Coupon, Customer, OrderItem, ProductCategory, ShippingRate, SkuAttributeValue, SkuStock,
};
use kremlin::domain::Role;
use kremlin::endpoints::json::cart_json::CartItemJson;
use kremlin::endpoints::json::customer_json::CustomerJson;
use kremlin::endpoints::json::orders_json::OrderStatusHistoryJson;
use kremlin::endpoints::json::tenant_json::TenantJson;
use kremlin::infrastructure::mapper::{
    AccessTokenMapper, CartItemMapper, CouponMapper, CustomerMapper, Mapper, OrderItemMapper,
    OrderStatusHistoryMapper, ProductCategoryMapper,
    ShippingRateMapper, SkuAttributeValueMapper, SkuStockMapper, TenantMapper,
};

#[test]
fn test_shipping_rate_mapper() {
    let now = chrono::Utc::now().naive_utc();
    let domain = ShippingRate {
        id: Some(1),
        uuid: Some("a1a2a3a4-b1b2-c1c2-d1d2-d3d4d5d6d7d8".to_string()),
        tenant_id: Some(10),
        uf: "SP".to_string(),
        price_cents: 2500,
        created_at: Some(now),
        updated_at: Some(now),
        created_by: None,
        updated_by: None,
    };

    let json = ShippingRateMapper::json(domain.clone());
    assert_eq!(json.uf, "SP");
    assert_eq!(json.price_cents, 2500);
    assert_eq!(json.tenant_id, Some(10));

    let back_to_domain = ShippingRateMapper::domain(json);
    assert_eq!(back_to_domain.uf, domain.uf);
    assert_eq!(back_to_domain.price_cents, domain.price_cents);
}

#[test]
fn test_customer_mapper() {
    let now = chrono::Utc::now().naive_utc();
    let domain = Customer {
        id: Some(42),
        uuid: Some("b1a2a3a4-b1b2-c1c2-d1d2-d3d4d5d6d7d8".to_string()),
        tenant_id: Some(5),
        name: "Alice Smith".to_string(),
        email: "alice@example.com".to_string(),
        password_hash: "secret_hash".to_string(),
        cpf: Some("12345678901".to_string()),
        phone: Some("+5511999999999".to_string()),
        marketing_consent: true,
        consent_at: None,
        active: true,
        created_at: Some(now),
        updated_at: Some(now),
        created_by: None,
        updated_by: None,
    };

    let json = CustomerMapper::json(domain.clone());
    assert_eq!(json.name, "Alice Smith");
    assert_eq!(json.email, "alice@example.com");
    assert_eq!(json.cpf, Some("12345678901".to_string()));

    let back = CustomerMapper::domain(json);
    assert_eq!(back.name, domain.name);
    assert_eq!(back.email, domain.email);
    assert_eq!(back.cpf, domain.cpf);
}

#[test]
fn test_coupon_mapper() {
    let now = chrono::Utc::now().naive_utc();
    let domain = Coupon {
        id: Some(7),
        uuid: Some("c1a2a3a4-b1b2-c1c2-d1d2-d3d4d5d6d7d8".to_string()),
        tenant_id: Some(1),
        campaign_id: Some(2),
        code: "SUMMER10".to_string(),
        coupon_type: "percentage".to_string(),
        value: 10,
        min_order_cents: None,
        max_uses: Some(100),
        max_uses_per_customer: Some(1),
        starts_at: None,
        expires_at: None,
        active: true,
        created_at: Some(now),
        updated_at: Some(now),
        created_by: None,
        updated_by: None,
    };

    let json = CouponMapper::json(domain.clone());
    assert_eq!(json.code, "SUMMER10");
    assert_eq!(json.coupon_type, "percentage");
    assert_eq!(json.value, 10);

    let back = CouponMapper::domain(json);
    assert_eq!(back.code, domain.code);
    assert_eq!(back.coupon_type, domain.coupon_type);
}

#[test]
fn test_product_category_mapper() {
    let domain = ProductCategory {
        id: Some(15),
        uuid: Some("d1a2a3a4-b1b2-c1c2-d1d2-d3d4d5d6d7d8".to_string()),
        tenant_id: Some(1),
        product_id: 100,
        category_id: 200,
        is_primary: true,
        created_at: None,
        created_by: None,
    };
    let json = ProductCategoryMapper::json(domain.clone());
    assert_eq!(json.id, 15);
    assert_eq!(json.product_id, 100);
    assert_eq!(json.category_id, 200);
    assert!(json.is_primary);

    let back = ProductCategoryMapper::domain(json);
    assert_eq!(back.id, domain.id);
    assert_eq!(back.product_id, domain.product_id);
}

#[test]
fn test_sku_attribute_value_mapper() {
    let domain = SkuAttributeValue {
        id: Some(25),
        uuid: Some("e1a2a3a4-b1b2-c1c2-d1d2-d3d4d5d6d7d8".to_string()),
        tenant_id: Some(1),
        product_id: 10,
        sku_id: 20,
        product_attribute_id: 30,
        attribute_id: 40,
        attribute_value_id: 50,
        created_at: None,
        created_by: None,
        updated_at: None,
        updated_by: None,
    };
    let json = SkuAttributeValueMapper::json(domain.clone());
    assert_eq!(json.sku_id, 20);
    assert_eq!(json.attribute_value_id, 50);

    let back = SkuAttributeValueMapper::domain(json);
    assert_eq!(back.sku_id, domain.sku_id);
    assert_eq!(back.attribute_value_id, domain.attribute_value_id);
}

#[test]
fn test_sku_stock_mapper() {
    let domain = SkuStock {
        id: Some(35),
        uuid: Some("f1a2a3a4-b1b2-c1c2-d1d2-d3d4d5d6d7d8".to_string()),
        tenant_id: Some(1),
        sku_id: 20,
        quantity: 150,
        reserved: 10,
        created_at: None,
        created_by: None,
        updated_at: None,
        updated_by: None,
    };
    let json = SkuStockMapper::json(domain.clone());
    assert_eq!(json.quantity, 150);
    assert_eq!(json.reserved, 10);

    let back = SkuStockMapper::domain(json);
    assert_eq!(back.quantity, domain.quantity);
    assert_eq!(back.reserved, domain.reserved);
}

#[test]
fn customers_leave_their_password_behind() {
    let json = CustomerJson {
        id: 0,
        uuid: String::new(),
        tenant_id: Some(5),
        name: "Bia".to_string(),
        email: "bia@example.com".to_string(),
        cpf: None,
        phone: None,
        marketing_consent: false,
        active: true,
        created_at: None,
        updated_at: None,
    };
    let customer = CustomerMapper::domain(json.clone());
    assert_eq!(customer.id, None);
    assert_eq!(customer.uuid, None);
    assert_eq!(customer.password_hash, "");
    assert_eq!(customer.consent_at, None);
    assert_eq!(customer.created_by, None);
    let again = CustomerMapper::json(customer);
    assert_eq!(again.id, json.id);
    assert_eq!(again.uuid, json.uuid);
    assert_eq!(again.name, json.name);
    assert_eq!(again.email, json.email);
    assert_eq!(again.marketing_consent, json.marketing_consent);
}

#[test]
fn new_records_show_zero_ids_and_empty_uuids() {
    let stamp = chrono::NaiveDate::from_ymd_opt(2024, 5, 1).unwrap().and_hms_opt(12, 30, 0).unwrap();
    let rate = ShippingRate {
        id: None,
        uuid: None,
        tenant_id: None,
        uf: "RJ".to_string(),
        price_cents: 0,
        created_at: Some(stamp),
        updated_at: None,
        created_by: Some("admin".to_string()),
        updated_by: None,
    };
    let json = ShippingRateMapper::json(rate);
    assert_eq!(json.id, 0);
    assert_eq!(json.uuid, "");
    assert_eq!(json.created_at, Some(stamp));
    let back = ShippingRateMapper::domain(json);
    assert_eq!(back.id, None);
    assert_eq!(back.uuid, None);
    assert_eq!(back.created_at, Some(stamp));
    assert_eq!(back.created_by, None);
    let item = CartItemJson {
        id: -4,
        uuid: "u-1".to_string(),
        tenant_id: Some(2),
        cart_id: 9,
        sku_id: 11,
        quantity: 3,
        unit_price_cents: 1250,
        created_at: None,
        updated_at: None,
    };
    let line = CartItemMapper::domain(item);
    assert_eq!(line.id, None);
    assert_eq!(line.uuid, Some("u-1".to_string()));
    assert_eq!(line.quantity, 3);
    assert_eq!(line.unit_price_cents, 1250);
}

#[test]
fn access_tokens_pass_through_unchanged() {
    let token = AccessToken {
        access_token: "a.b.c".to_string(),
        token_type: "Bearer".to_string(),
        expire_in: 3600,
        refresh_token: Some("r".to_string()),
        email: "owner@example.com".to_string(),
        uuid: "0f0e".to_string(),
        name: "Owner".to_string(),
        user_id: 8,
        role: Role::TenantOwner,
        tenant_id: Some(4),
        first_login: false,
    };
    let json = AccessTokenMapper::json(token.clone());
    assert_eq!(json.access_token, "a.b.c");
    assert_eq!(json.role, Role::TenantOwner);
    assert_eq!(json.expire_in, 3600);
    let back = AccessTokenMapper::domain(json);
    assert_eq!(back.refresh_token, token.refresh_token);
    assert_eq!(back.tenant_id, Some(4));
    assert_eq!(back.first_login, false);
}

fn tenant_json() -> TenantJson {
    TenantJson {
        id: Some(12),
        uuid: Some("t-uuid".to_string()),
        business_name: Some("Adega Sul".to_string()),
        company_name: None,
        tax_id: Some("12345678000199".to_string()),
        email: Some("  contato@adega.com ".to_string()),
        phone: Some("   ".to_string()),
        web_site: Some("https://adega.example".to_string()),
        address_line1: Some(" Rua A, 1 ".to_string()),
        address_line2: None,
        locality: Some("  ".to_string()),
        administrative_area: None,
        postal_code: Some("90000-000".to_string()),
        country_code: Some(" br ".to_string()),
        province: Some(" RS ".to_string()),
        city: Some(" Porto Alegre ".to_string()),
        zipcode: Some("11111-111".to_string()),
        created_at: None,
        created_by: None,
        updated_at: None,
        updated_by: None,
    }
}

#[test]
fn tenants_are_read_with_clean_addresses() {
    let tenant = TenantMapper::domain(tenant_json());
    assert_eq!(tenant.business_name, "Adega Sul");
    assert_eq!(tenant.tax_id, "12345678000199");
    assert_eq!(tenant.email, Some("contato@adega.com".to_string()));
    assert_eq!(tenant.phone, None);
    assert_eq!(tenant.address_line1, Some("Rua A, 1".to_string()));
    assert_eq!(tenant.locality, Some("Porto Alegre".to_string()));
    assert_eq!(tenant.administrative_area, Some("RS".to_string()));
    assert_eq!(tenant.postal_code, Some("90000-000".to_string()));
    assert_eq!(tenant.country_code, Some("BR".to_string()));
    let shown = TenantMapper::json(tenant.clone());
    assert_eq!(shown.city, Some("Porto Alegre".to_string()));
    assert_eq!(shown.province, Some("RS".to_string()));
    assert_eq!(shown.zipcode, Some("90000-000".to_string()));
    assert_eq!(shown.business_name, Some("Adega Sul".to_string()));
    let again = TenantMapper::domain(shown);
    assert_eq!(again.locality, tenant.locality);
    assert_eq!(again.country_code, tenant.country_code);
    assert_eq!(again.id, Some(12));
}

#[test]
fn order_lines_and_status_changes_map_both_ways() {
    let at = chrono::NaiveDate::from_ymd_opt(2024, 3, 9).unwrap().and_hms_opt(8, 0, 0).unwrap();
    let line = OrderItem {
        id: Some(70),
        uuid: None,
        tenant_id: 2,
        order_id: 31,
        sku_id: 5,
        sku_code: "VT-750".to_string(),
        product_name: "Vinho Tinto".to_string(),
        attributes_desc: Some("750ml".to_string()),
        quantity: 2,
        unit_price_cents: 4990,
        discount_cents: 0,
        ncm: "22042100".to_string(),
        cfop: Some("5102".to_string()),
        csosn: None,
        icms_rate_bp: 1800,
        tax_cents: 1796,
        total_cents: 9980,
        created_at: at,
        created_by: Some("x".to_string()),
        updated_at: at,
        updated_by: None,
    };
    let json = OrderItemMapper::json(line);
    assert_eq!((json.id, json.uuid.as_str(), json.total_cents), (70, "", 9980));
    assert_eq!(json.created_at, at);
    let back = OrderItemMapper::domain(json);
    assert_eq!((back.id, back.uuid, back.created_by), (Some(70), None, None));
    assert_eq!(back.sku_code, "VT-750");

    let change = OrderStatusHistoryJson {
        id: 0,
        uuid: "h-1".to_string(),
        tenant_id: 2,
        order_id: 31,
        from_status: Some("pending_payment".to_string()),
        to_status: "paid".to_string(),
        actor_type: "payment_gateway".to_string(),
        actor_id: None,
        note: Some("mercado_pago:88".to_string()),
        created_at: at,
    };
    let record = OrderStatusHistoryMapper::domain(change);
    assert_eq!((record.id, record.uuid.as_deref()), (None, Some("h-1")));
    assert_eq!(record.to_status, "paid");
    let shown = OrderStatusHistoryMapper::json(record);
    assert_eq!((shown.id, shown.note.as_deref()), (0, Some("mercado_pago:88")));
}
