use kremlin::domain::catalog::{Category, City, Product, ProductImage, Sku};
use kremlin::endpoints::json::catalog_json::SkuJson;
use kremlin::endpoints::json::city_json::CityJson;
use kremlin::infrastructure::mapper::{CategoryMapper, CityMapper, Mapper, ProductImageMapper, ProductMapper, SkuMapper};
use kremlin::infrastructure::sqs_consumer::{
    aws_region, endpoint_override, notification_of, queue_url, uploads_of, S3Entity, S3Notification,
    S3NotificationRecord,
};

fn product(id: Option<i64>, uuid: Option<&str>) -> Product {
    Product {
        id,
        uuid: uuid.map(|u| u.to_string()),
        tenant_id: Some(3),
        name: "Vinho".to_string(),
        slug: "vinho".to_string(),
        description: None,
        brand: Some("Miolo".to_string()),
        active: true,
        ncm: "22042100".to_string(),
        cest: None,
        origem_mercadoria: 1,
    }
}

#[test]
fn records_and_json_round_trip() {
    let p = product(Some(7), Some("u-7"));
    let j = ProductMapper::json(p.clone());
    assert_eq!((j.id, j.uuid.as_str(), j.brand.as_deref()), (7, "u-7", Some("Miolo")));
    let back = ProductMapper::domain(j);
    assert_eq!((back.id, back.uuid.as_deref()), (Some(7), Some("u-7")));
    let fresh = ProductMapper::json(product(None, None));
    assert_eq!((fresh.id, fresh.uuid.as_str()), (0, ""));
    let back = ProductMapper::domain(fresh);
    assert_eq!((back.id, back.uuid), (None, None));
}

#[test]
fn non_positive_json_ids_are_new_records() {
    let j = SkuJson {
        id: -4,
        uuid: String::new(),
        tenant_id: None,
        product_id: 1,
        code: "C".to_string(),
        variant_key: "V".to_string(),
        price_cents: 10,
        compare_at_price_cents: None,
        weight_g: None,
        width_mm: None,
        height_mm: None,
        length_mm: None,
        active: false,
    };
    let s: Sku = SkuMapper::domain(j);
    assert_eq!((s.id, s.uuid.clone()), (None, None));
    assert_eq!(SkuMapper::json(s).id, 0);
}

#[test]
fn categories_and_images_keep_their_uuid_text() {
    let c = CategoryMapper::domain(CategoryMapper::json(Category {
        id: None,
        uuid: None,
        tenant_id: None,
        name: "Tintos".to_string(),
        slug: "tintos".to_string(),
        parent_id: Some(2),
        active: true,
    }));
    assert_eq!(c.uuid.as_deref(), Some(""));
    assert_eq!(c.parent_id, Some(2));
    let image = ProductImage {
        id: None,
        uuid: Some("img".to_string()),
        tenant_id: Some(1),
        product_id: 4,
        sku_id: None,
        alt_text: None,
        sort_order: 0,
        is_primary: true,
        storage_provider: "s3".to_string(),
        bucket: "b".to_string(),
        object_key: "k".to_string(),
        storage_identity_hash: Some("h".to_string()),
        object_version: None,
        etag: Some("e".to_string()),
        checksum_sha256: None,
        original_filename: "a.png".to_string(),
        mime_type: "image/png".to_string(),
        size_bytes: 10,
        width_px: Some(5),
        height_px: None,
        storage_status: "pending".to_string(),
        cdn_url: None,
    };
    let back = ProductImageMapper::domain(ProductImageMapper::json(image));
    assert_eq!((back.id, back.etag, back.width_px), (Some(0), None, None));
    assert_eq!(back.uuid.as_deref(), Some("img"));
}

#[test]
fn lists_map_in_order() {
    let cities = vec![
        City { id: Some(1), uuid: None, province_id: 35, name: "A".to_string(), ibge_code: None },
        City { id: Some(2), uuid: None, province_id: 35, name: "B".to_string(), ibge_code: Some("2".to_string()) },
    ];
    let json: Vec<CityJson> = CityMapper::json_vec(cities);
    assert_eq!(json.len(), 2);
    assert_eq!((json[0].id, json[1].name.as_str(), json[1].ibge_code.as_deref()), (Some(1), "B", Some("2")));
}

#[test]
fn upload_worker_configuration() {
    assert_eq!(queue_url(Some(" ".to_string())), None);
    assert_eq!(queue_url(Some("https://q".to_string())).as_deref(), Some("https://q"));
    assert_eq!(queue_url(None), None);
    assert_eq!(aws_region(None), "us-east-1");
    assert_eq!(aws_region(Some(String::new())), "");
    assert_eq!(endpoint_override(Some(String::new())), None);
    assert_eq!(endpoint_override(Some(" ".to_string())).as_deref(), Some(" "));
}

#[test]
fn upload_notifications_report_their_objects() {
    let entity = |key: &str| S3Entity { bucket: "b".to_string(), key: key.to_string(), size: Some(1), etag: None };
    let n = S3Notification {
        records: vec![
            S3NotificationRecord { event_name: "ObjectCreated:Put".to_string(), s3: Some(entity("k1")) },
            S3NotificationRecord { event_name: "TestEvent".to_string(), s3: None },
            S3NotificationRecord { event_name: "ObjectCreated:Put".to_string(), s3: Some(entity("k2")) },
        ],
    };
    let keys: Vec<String> = uploads_of(n.clone()).into_iter().map(|e| e.key).collect();
    assert_eq!(keys, vec!["k1".to_string(), "k2".to_string()]);
    let chosen = notification_of(None, Some(n)).unwrap();
    assert_eq!(chosen.records.len(), 3);
    assert!(notification_of(None, None).is_none());
}
