//! How address text is cleaned on its way between records and JSON.
use crate::commons::pagination::clone_text;
use crate::domain::catalog::{
    CatalogAttribute, CatalogAttributeValue, Category, City, Product, ProductAttribute, ProductImage,
    Province, Sku,
};
use crate::domain::commerce::{
    AccessToken, Campaign, CampaignTarget, Cart, CartItem, Coupon, CouponRedemption, Customer,
    CustomerAddress, OrderItem, OrderStatusHistory, ProductCategory, ShippingRate, SkuAttributeValue, SkuStock, TaxRule,
};
use crate::domain::tenant::Tenant;
use crate::endpoints::json::access_token_json::AccessTokenJson;
use crate::endpoints::json::campaign_json::{CampaignJson, CampaignTargetJson};
use crate::endpoints::json::cart_json::{CartItemJson, CartJson};
use crate::endpoints::json::coupon_json::{CouponJson, CouponRedemptionJson};
use crate::endpoints::json::customer_json::{CustomerAddressJson, CustomerJson};
use crate::endpoints::json::orders_json::{OrderItemJson, OrderStatusHistoryJson};
use crate::endpoints::json::product_category_json::ProductCategoryJson;
use crate::endpoints::json::shipping_rate_json::ShippingRateJson;
use crate::endpoints::json::sku_attribute_json::SkuAttributeValueJson;
use crate::endpoints::json::sku_stock_json::SkuStockJson;
use crate::endpoints::json::tax_rule_json::TaxRuleJson;
use crate::endpoints::json::tenant_json::TenantJson;
use crate::endpoints::json::catalog_json::{
    CatalogAttributeJson, CatalogAttributeValueJson, CategoryJson, ProductAttributeJson, SkuJson,
};
use crate::endpoints::json::product_image_json::ProductImageJson;
use crate::endpoints::json::product_json::ProductJson;
use crate::endpoints::json::city_json::CityJson;
use crate::endpoints::json::province_json::ProvinceJson;
use crate::text::{all_ascii, ascii_upper, lemma_trim_idempotent, str_to_uppercase, trim, trim_str, unicode_uppercase};
use vstd::prelude::*;

verus! {

/// The text an optional string holds.
pub open spec fn text_view(o: Option<String>) -> Option<Seq<char>> {
    match o {
        Some(s) => Some(s@),
        None => None,
    }
}

/// An optional text trimmed, and absent when nothing is left.
pub open spec fn cleaned_text(o: Option<Seq<char>>) -> Option<Seq<char>> {
    match o {
        Some(s) => if trim(s).len() > 0 {
            Some(trim(s))
        } else {
            None
        },
        None => None,
    }
}

/// The canonical value when it has text, else the legacy alias.
pub open spec fn preferred_text(canonical: Option<Seq<char>>, alias: Option<Seq<char>>) -> Option<Seq<char>> {
    if cleaned_text(canonical) is Some {
        cleaned_text(canonical)
    } else {
        cleaned_text(alias)
    }
}

/// Trims an optional text and drops it when it is blank.
pub fn optional_text(value: Option<String>) -> (r: Option<String>)
    ensures
        text_view(r) == cleaned_text(text_view(value)),
{
    match value {
        Some(v) => {
            let t = trim_str(v.as_str());
            if t.as_str().unicode_len() > 0 {
                Some(t)
            } else {
                None
            }
        },
        None => None,
    }
}

/// The cleaned canonical address field, or the cleaned legacy alias when the
/// canonical one is missing or blank.
pub fn canonical_address(canonical: Option<String>, alias: Option<String>) -> (r: Option<String>)
    ensures
        text_view(r) == preferred_text(text_view(canonical), text_view(alias)),
{
    let first = optional_text(canonical);
    match first {
        Some(v) => Some(v),
        None => optional_text(alias),
    }
}

/// A cleaned country code in Unicode upper case.
pub fn country_code(value: Option<String>) -> (r: Option<String>)
    ensures
        text_view(r) == match cleaned_text(text_view(value)) {
            Some(t) => Some(unicode_uppercase(t)),
            None => None,
        },
        match cleaned_text(text_view(value)) {
            Some(t) => all_ascii(t) ==> text_view(r) == Some(ascii_upper(t)),
            None => true,
        },
{
    match optional_text(value) {
        Some(v) => Some(str_to_uppercase(v.as_str())),
        None => None,
    }
}

/// Cleaning a cleaned text changes nothing.
pub proof fn cleaning_is_idempotent(o: Option<Seq<char>>)
    ensures
        cleaned_text(cleaned_text(o)) == cleaned_text(o),
{
    if let Some(s) = o {
        lemma_trim_idempotent(s);
    }
}

/// The address and contact fields of a tenant as the JSON body carries
/// them, with the legacy aliases `city`, `province` and `zipcode`.
#[derive(Debug, Clone)]
pub struct TenantAddressJson {
    pub email: Option<String>,
    pub phone: Option<String>,
    pub address_line1: Option<String>,
    pub address_line2: Option<String>,
    pub locality: Option<String>,
    pub administrative_area: Option<String>,
    pub postal_code: Option<String>,
    pub country_code: Option<String>,
    pub city: Option<String>,
    pub province: Option<String>,
    pub zipcode: Option<String>,
}

/// The address and contact fields of a tenant as stored.
#[derive(Debug, Clone)]
pub struct TenantAddress {
    pub email: Option<String>,
    pub phone: Option<String>,
    pub address_line1: Option<String>,
    pub address_line2: Option<String>,
    pub locality: Option<String>,
    pub administrative_area: Option<String>,
    pub postal_code: Option<String>,
    pub country_code: Option<String>,
}

/// How a tenant's address is stored: each field cleaned, the canonical
/// field preferred to its legacy alias, the country code in upper case.
pub open spec fn stored_address(j: TenantAddressJson, a: TenantAddress) -> bool {
    &&& text_view(a.email) == cleaned_text(text_view(j.email))
    &&& text_view(a.phone) == cleaned_text(text_view(j.phone))
    &&& text_view(a.address_line1) == cleaned_text(text_view(j.address_line1))
    &&& text_view(a.address_line2) == cleaned_text(text_view(j.address_line2))
    &&& text_view(a.locality) == preferred_text(text_view(j.locality), text_view(j.city))
    &&& text_view(a.administrative_area) == preferred_text(text_view(j.administrative_area), text_view(j.province))
    &&& text_view(a.postal_code) == preferred_text(text_view(j.postal_code), text_view(j.zipcode))
    &&& text_view(a.country_code) == match cleaned_text(text_view(j.country_code)) {
        Some(t) => Some(unicode_uppercase(t)),
        None => None,
    }
}

/// Reads a tenant's address from its JSON form.
pub fn tenant_address(j: TenantAddressJson) -> (r: TenantAddress)
    ensures
        stored_address(j, r),
{
    TenantAddress {
        email: optional_text(j.email),
        phone: optional_text(j.phone),
        address_line1: optional_text(j.address_line1),
        address_line2: optional_text(j.address_line2),
        locality: canonical_address(j.locality, j.city),
        administrative_area: canonical_address(j.administrative_area, j.province),
        postal_code: canonical_address(j.postal_code, j.zipcode),
        country_code: country_code(j.country_code),
    }
}

/// Writes a tenant's address in its JSON form: the fields as stored, and
/// the legacy aliases repeating locality, administrative area and postal
/// code.
pub fn tenant_address_json(a: TenantAddress) -> (r: TenantAddressJson)
    ensures
        r.email == a.email && r.phone == a.phone,
        r.address_line1 == a.address_line1 && r.address_line2 == a.address_line2,
        r.locality == a.locality && r.city == a.locality,
        r.administrative_area == a.administrative_area && r.province == a.administrative_area,
        r.postal_code == a.postal_code && r.zipcode == a.postal_code,
        r.country_code == a.country_code,
{
    TenantAddressJson {
        email: a.email,
        phone: a.phone,
        address_line1: a.address_line1,
        address_line2: a.address_line2,
        city: clone_text(&a.locality),
        locality: a.locality,
        province: clone_text(&a.administrative_area),
        administrative_area: a.administrative_area,
        zipcode: clone_text(&a.postal_code),
        postal_code: a.postal_code,
        country_code: a.country_code,
    }
}

/// A stored address is clean: each text field is trimmed and not blank.
pub open spec fn address_is_clean(a: TenantAddress) -> bool {
    &&& cleaned_text(text_view(a.email)) == text_view(a.email)
    &&& cleaned_text(text_view(a.phone)) == text_view(a.phone)
    &&& cleaned_text(text_view(a.address_line1)) == text_view(a.address_line1)
    &&& cleaned_text(text_view(a.address_line2)) == text_view(a.address_line2)
    &&& cleaned_text(text_view(a.locality)) == text_view(a.locality)
    &&& cleaned_text(text_view(a.administrative_area)) == text_view(a.administrative_area)
    &&& cleaned_text(text_view(a.postal_code)) == text_view(a.postal_code)
}

/// A stored address is clean, and writing it out and reading it back gives
/// the same fields, the country code aside (its upper-casing is Unicode's).
pub proof fn stored_address_reads_back(j: TenantAddressJson, a: TenantAddress, back: TenantAddressJson, again: TenantAddress)
    requires
        stored_address(j, a),
        back.email == a.email && back.phone == a.phone,
        back.address_line1 == a.address_line1 && back.address_line2 == a.address_line2,
        back.locality == a.locality && back.city == a.locality,
        back.administrative_area == a.administrative_area && back.province == a.administrative_area,
        back.postal_code == a.postal_code && back.zipcode == a.postal_code,
        back.country_code == a.country_code,
        stored_address(back, again),
    ensures
        address_is_clean(a),
        text_view(again.email) == text_view(a.email),
        text_view(again.phone) == text_view(a.phone),
        text_view(again.address_line1) == text_view(a.address_line1),
        text_view(again.address_line2) == text_view(a.address_line2),
        text_view(again.locality) == text_view(a.locality),
        text_view(again.administrative_area) == text_view(a.administrative_area),
        text_view(again.postal_code) == text_view(a.postal_code),
        a.country_code is None ==> again.country_code is None,
{
    cleaning_is_idempotent(text_view(j.email));
    cleaning_is_idempotent(text_view(j.phone));
    cleaning_is_idempotent(text_view(j.address_line1));
    cleaning_is_idempotent(text_view(j.address_line2));
    cleaning_is_idempotent(text_view(j.locality));
    cleaning_is_idempotent(text_view(j.city));
    cleaning_is_idempotent(text_view(j.administrative_area));
    cleaning_is_idempotent(text_view(j.province));
    cleaning_is_idempotent(text_view(j.postal_code));
    cleaning_is_idempotent(text_view(j.zipcode));
}

// ------------------------------------------------------------------
// Mappers
// ------------------------------------------------------------------

/// Conversion between a record `T` and its JSON form `U`.
pub trait Mapper<T, U> {
    /// `u` is the JSON form of record `t`.
    spec fn is_json_of(t: T, u: U) -> bool;

    /// `t` is the record JSON form `u` stands for.
    spec fn is_domain_of(u: U, t: T) -> bool;

    /// `u` can be read as a record; every JSON form can, unless a mapper
    /// says otherwise.
    open spec fn can_read(u: U) -> bool {
        true
    }

    fn json(t: T) -> (u: U)
        ensures
            Self::is_json_of(t, u),
    ;

    fn domain(u: U) -> (t: T)
        requires
            Self::can_read(u),
        ensures
            Self::is_domain_of(u, t),
    ;

    /// The JSON forms of records, in order.
    fn json_vec(u: Vec<T>) -> (r: Vec<U>)
        ensures
            r@.len() == u@.len(),
            forall|i: int| 0 <= i < u@.len() ==> Self::is_json_of(u@[i], #[trigger] r@[i]),
    {
        let mut out: Vec<U> = Vec::new();
        let ghost all = u@;
        for t in it: u.into_iter()
            invariant
                it.seq() == all,
                out@.len() == it.index(),
                forall|i: int| 0 <= i < out@.len() ==> Self::is_json_of(all[i], #[trigger] out@[i]),
        {
            let j = Self::json(t);
            out.push(j);
        }
        out
    }
}


/// A record id as JSON shows it: zero when the record has none yet.
pub open spec fn shown_id(id: Option<i64>) -> i64 {
    match id {
        Some(x) => x,
        None => 0,
    }
}

/// The record id a JSON id stands for: none unless it is positive.
pub open spec fn stored_id(id: i64) -> Option<i64> {
    if id > 0 {
        Some(id)
    } else {
        None
    }
}

/// A record uuid as JSON shows it: empty when the record has none yet.
pub open spec fn shown_uuid(u: Option<String>) -> Seq<char> {
    match u {
        Some(x) => x@,
        None => Seq::empty(),
    }
}

/// The record uuid a JSON uuid stands for: none when it is empty.
pub open spec fn stored_uuid(u: Seq<char>) -> Option<Seq<char>> {
    if u.len() == 0 {
        None
    } else {
        Some(u)
    }
}

fn id_or_zero(id: Option<i64>) -> (r: i64)
    ensures
        r == shown_id(id),
{
    match id {
        Some(x) => x,
        None => 0,
    }
}

fn positive_id(id: i64) -> (r: Option<i64>)
    ensures
        r == stored_id(id),
{
    if id > 0 {
        Some(id)
    } else {
        None
    }
}

fn uuid_or_empty(u: Option<String>) -> (r: String)
    ensures
        r@ == shown_uuid(u),
{
    match u {
        Some(x) => x,
        None => String::new(),
    }
}

fn non_empty_uuid(u: String) -> (r: Option<String>)
    ensures
        text_view(r) == stored_uuid(u@),
{
    if u.as_str().unicode_len() == 0 {
        None
    } else {
        Some(u)
    }
}

/// Cities and their JSON form.
pub struct CityMapper;

impl Mapper<City, CityJson> for CityMapper {
    open spec fn is_json_of(t: City, u: CityJson) -> bool {
        u == (CityJson { id: t.id, uuid: t.uuid, province_id: t.province_id, name: t.name, ibge_code: t.ibge_code })
    }

    open spec fn is_domain_of(u: CityJson, t: City) -> bool {
        t == (City { id: u.id, uuid: u.uuid, province_id: u.province_id, name: u.name, ibge_code: u.ibge_code })
    }

    fn json(t: City) -> (u: CityJson) {
        CityJson { id: t.id, uuid: t.uuid, province_id: t.province_id, name: t.name, ibge_code: t.ibge_code }
    }

    fn domain(u: CityJson) -> (t: City) {
        City { id: u.id, uuid: u.uuid, province_id: u.province_id, name: u.name, ibge_code: u.ibge_code }
    }
}

/// Provinces and their JSON form.
pub struct ProvinceMapper;

impl Mapper<Province, ProvinceJson> for ProvinceMapper {
    open spec fn is_json_of(t: Province, u: ProvinceJson) -> bool {
        u == (ProvinceJson {
            id: t.id,
            uuid: t.uuid,
            acronym: t.acronym,
            name: t.name,
            country_code: t.country_code,
            ibge_code: t.ibge_code,
        })
    }

    open spec fn is_domain_of(u: ProvinceJson, t: Province) -> bool {
        t == (Province {
            id: u.id,
            uuid: u.uuid,
            acronym: u.acronym,
            name: u.name,
            country_code: u.country_code,
            ibge_code: u.ibge_code,
        })
    }

    fn json(t: Province) -> (u: ProvinceJson) {
        ProvinceJson {
            id: t.id,
            uuid: t.uuid,
            acronym: t.acronym,
            name: t.name,
            country_code: t.country_code,
            ibge_code: t.ibge_code,
        }
    }

    fn domain(u: ProvinceJson) -> (t: Province) {
        Province {
            id: u.id,
            uuid: u.uuid,
            acronym: u.acronym,
            name: u.name,
            country_code: u.country_code,
            ibge_code: u.ibge_code,
        }
    }
}

/// Cities and provinces lose nothing on their way to JSON and back.
pub proof fn place_mappings_round_trip(c: City, cj: CityJson, c2: City, p: Province, pj: ProvinceJson, p2: Province)
    requires
        CityMapper::is_json_of(c, cj),
        CityMapper::is_domain_of(cj, c2),
        ProvinceMapper::is_json_of(p, pj),
        ProvinceMapper::is_domain_of(pj, p2),
    ensures
        c2 == c,
        p2 == p,
{
}

/// Categories and their JSON form.
pub struct CategoryMapper;

impl Mapper<Category, CategoryJson> for CategoryMapper {
    open spec fn is_json_of(t: Category, u: CategoryJson) -> bool {
        &&& u.id == t.id
        &&& u.uuid@ == shown_uuid(t.uuid)
        &&& u.tenant_id == t.tenant_id
        &&& u.name == t.name
        &&& u.slug == t.slug
        &&& u.parent_id == t.parent_id
        &&& u.active == t.active
    }

    open spec fn is_domain_of(u: CategoryJson, t: Category) -> bool {
        &&& t.id == u.id
        &&& t.uuid == Some(u.uuid)
        &&& t.tenant_id == u.tenant_id
        &&& t.name == u.name
        &&& t.slug == u.slug
        &&& t.parent_id == u.parent_id
        &&& t.active == u.active
    }

    fn json(t: Category) -> (u: CategoryJson) {
        CategoryJson {
            id: t.id,
            uuid: uuid_or_empty(t.uuid),
            tenant_id: t.tenant_id,
            name: t.name,
            slug: t.slug,
            parent_id: t.parent_id,
            active: t.active,
        }
    }

    fn domain(u: CategoryJson) -> (t: Category) {
        Category {
            id: u.id,
            uuid: Some(u.uuid),
            tenant_id: u.tenant_id,
            name: u.name,
            slug: u.slug,
            parent_id: u.parent_id,
            active: u.active,
        }
    }
}

/// Products and their JSON form.
pub struct ProductMapper;

impl Mapper<Product, ProductJson> for ProductMapper {
    open spec fn is_json_of(t: Product, u: ProductJson) -> bool {
        &&& u.id == shown_id(t.id)
        &&& u.uuid@ == shown_uuid(t.uuid)
        &&& u.tenant_id == t.tenant_id
        &&& u.name == t.name
        &&& u.slug == t.slug
        &&& u.description == t.description
        &&& u.brand == t.brand
        &&& u.active == t.active
        &&& u.ncm == t.ncm
        &&& u.cest == t.cest
        &&& u.origem_mercadoria == t.origem_mercadoria
    }

    open spec fn is_domain_of(u: ProductJson, t: Product) -> bool {
        &&& t.id == stored_id(u.id)
        &&& text_view(t.uuid) == stored_uuid(u.uuid@)
        &&& t.tenant_id == u.tenant_id
        &&& t.name == u.name
        &&& t.slug == u.slug
        &&& t.description == u.description
        &&& t.brand == u.brand
        &&& t.active == u.active
        &&& t.ncm == u.ncm
        &&& t.cest == u.cest
        &&& t.origem_mercadoria == u.origem_mercadoria
    }

    fn json(t: Product) -> (u: ProductJson) {
        ProductJson {
            id: id_or_zero(t.id),
            uuid: uuid_or_empty(t.uuid),
            tenant_id: t.tenant_id,
            name: t.name,
            slug: t.slug,
            description: t.description,
            brand: t.brand,
            active: t.active,
            ncm: t.ncm,
            cest: t.cest,
            origem_mercadoria: t.origem_mercadoria,
        }
    }

    fn domain(u: ProductJson) -> (t: Product) {
        Product {
            id: positive_id(u.id),
            uuid: non_empty_uuid(u.uuid),
            tenant_id: u.tenant_id,
            name: u.name,
            slug: u.slug,
            description: u.description,
            brand: u.brand,
            active: u.active,
            ncm: u.ncm,
            cest: u.cest,
            origem_mercadoria: u.origem_mercadoria,
        }
    }
}

/// SKUs and their JSON form.
pub struct SkuMapper;

impl Mapper<Sku, SkuJson> for SkuMapper {
    open spec fn is_json_of(t: Sku, u: SkuJson) -> bool {
        &&& u.id == shown_id(t.id)
        &&& u.uuid@ == shown_uuid(t.uuid)
        &&& u.tenant_id == t.tenant_id
        &&& u.product_id == t.product_id
        &&& u.code == t.code
        &&& u.variant_key == t.variant_key
        &&& u.price_cents == t.price_cents
        &&& u.compare_at_price_cents == t.compare_at_price_cents
        &&& u.weight_g == t.weight_g
        &&& u.width_mm == t.width_mm
        &&& u.height_mm == t.height_mm
        &&& u.length_mm == t.length_mm
        &&& u.active == t.active
    }

    open spec fn is_domain_of(u: SkuJson, t: Sku) -> bool {
        &&& t.id == stored_id(u.id)
        &&& text_view(t.uuid) == stored_uuid(u.uuid@)
        &&& t.tenant_id == u.tenant_id
        &&& t.product_id == u.product_id
        &&& t.code == u.code
        &&& t.variant_key == u.variant_key
        &&& t.price_cents == u.price_cents
        &&& t.compare_at_price_cents == u.compare_at_price_cents
        &&& t.weight_g == u.weight_g
        &&& t.width_mm == u.width_mm
        &&& t.height_mm == u.height_mm
        &&& t.length_mm == u.length_mm
        &&& t.active == u.active
    }

    fn json(t: Sku) -> (u: SkuJson) {
        SkuJson {
            id: id_or_zero(t.id),
            uuid: uuid_or_empty(t.uuid),
            tenant_id: t.tenant_id,
            product_id: t.product_id,
            code: t.code,
            variant_key: t.variant_key,
            price_cents: t.price_cents,
            compare_at_price_cents: t.compare_at_price_cents,
            weight_g: t.weight_g,
            width_mm: t.width_mm,
            height_mm: t.height_mm,
            length_mm: t.length_mm,
            active: t.active,
        }
    }

    fn domain(u: SkuJson) -> (t: Sku) {
        Sku {
            id: positive_id(u.id),
            uuid: non_empty_uuid(u.uuid),
            tenant_id: u.tenant_id,
            product_id: u.product_id,
            code: u.code,
            variant_key: u.variant_key,
            price_cents: u.price_cents,
            compare_at_price_cents: u.compare_at_price_cents,
            weight_g: u.weight_g,
            width_mm: u.width_mm,
            height_mm: u.height_mm,
            length_mm: u.length_mm,
            active: u.active,
        }
    }
}

/// Catalogue attributes and their JSON form.
pub struct CatalogAttributeMapper;

impl Mapper<CatalogAttribute, CatalogAttributeJson> for CatalogAttributeMapper {
    open spec fn is_json_of(t: CatalogAttribute, u: CatalogAttributeJson) -> bool {
        &&& u.id == shown_id(t.id)
        &&& u.uuid@ == shown_uuid(t.uuid)
        &&& u.tenant_id == t.tenant_id
        &&& u.name == t.name
        &&& u.display_type == t.display_type
    }

    open spec fn is_domain_of(u: CatalogAttributeJson, t: CatalogAttribute) -> bool {
        &&& t.id == stored_id(u.id)
        &&& text_view(t.uuid) == stored_uuid(u.uuid@)
        &&& t.tenant_id == u.tenant_id
        &&& t.name == u.name
        &&& t.display_type == u.display_type
    }

    fn json(t: CatalogAttribute) -> (u: CatalogAttributeJson) {
        CatalogAttributeJson {
            id: id_or_zero(t.id),
            uuid: uuid_or_empty(t.uuid),
            tenant_id: t.tenant_id,
            name: t.name,
            display_type: t.display_type,
        }
    }

    fn domain(u: CatalogAttributeJson) -> (t: CatalogAttribute) {
        CatalogAttribute {
            id: positive_id(u.id),
            uuid: non_empty_uuid(u.uuid),
            tenant_id: u.tenant_id,
            name: u.name,
            display_type: u.display_type,
        }
    }
}

/// Attribute values and their JSON form.
pub struct CatalogAttributeValueMapper;

impl Mapper<CatalogAttributeValue, CatalogAttributeValueJson> for CatalogAttributeValueMapper {
    open spec fn is_json_of(t: CatalogAttributeValue, u: CatalogAttributeValueJson) -> bool {
        &&& u.id == shown_id(t.id)
        &&& u.uuid@ == shown_uuid(t.uuid)
        &&& u.tenant_id == t.tenant_id
        &&& u.attribute_id == t.attribute_id
        &&& u.value == t.value
    }

    open spec fn is_domain_of(u: CatalogAttributeValueJson, t: CatalogAttributeValue) -> bool {
        &&& t.id == stored_id(u.id)
        &&& text_view(t.uuid) == stored_uuid(u.uuid@)
        &&& t.tenant_id == u.tenant_id
        &&& t.attribute_id == u.attribute_id
        &&& t.value == u.value
    }

    fn json(t: CatalogAttributeValue) -> (u: CatalogAttributeValueJson) {
        CatalogAttributeValueJson {
            id: id_or_zero(t.id),
            uuid: uuid_or_empty(t.uuid),
            tenant_id: t.tenant_id,
            attribute_id: t.attribute_id,
            value: t.value,
        }
    }

    fn domain(u: CatalogAttributeValueJson) -> (t: CatalogAttributeValue) {
        CatalogAttributeValue {
            id: positive_id(u.id),
            uuid: non_empty_uuid(u.uuid),
            tenant_id: u.tenant_id,
            attribute_id: u.attribute_id,
            value: u.value,
        }
    }
}

/// Product attributes and their JSON form.
pub struct ProductAttributeMapper;

impl Mapper<ProductAttribute, ProductAttributeJson> for ProductAttributeMapper {
    open spec fn is_json_of(t: ProductAttribute, u: ProductAttributeJson) -> bool {
        &&& u.id == shown_id(t.id)
        &&& u.uuid@ == shown_uuid(t.uuid)
        &&& u.tenant_id == t.tenant_id
        &&& u.product_id == t.product_id
        &&& u.attribute_id == t.attribute_id
        &&& u.required == t.required
        &&& u.sort_order == t.sort_order
    }

    open spec fn is_domain_of(u: ProductAttributeJson, t: ProductAttribute) -> bool {
        &&& t.id == stored_id(u.id)
        &&& text_view(t.uuid) == stored_uuid(u.uuid@)
        &&& t.tenant_id == u.tenant_id
        &&& t.product_id == u.product_id
        &&& t.attribute_id == u.attribute_id
        &&& t.required == u.required
        &&& t.sort_order == u.sort_order
    }

    fn json(t: ProductAttribute) -> (u: ProductAttributeJson) {
        ProductAttributeJson {
            id: id_or_zero(t.id),
            uuid: uuid_or_empty(t.uuid),
            tenant_id: t.tenant_id,
            product_id: t.product_id,
            attribute_id: t.attribute_id,
            required: t.required,
            sort_order: t.sort_order,
        }
    }

    fn domain(u: ProductAttributeJson) -> (t: ProductAttribute) {
        ProductAttribute {
            id: positive_id(u.id),
            uuid: non_empty_uuid(u.uuid),
            tenant_id: u.tenant_id,
            product_id: u.product_id,
            attribute_id: u.attribute_id,
            required: u.required,
            sort_order: u.sort_order,
        }
    }
}

/// Product images and their JSON form.
pub struct ProductImageMapper;

impl Mapper<ProductImage, ProductImageJson> for ProductImageMapper {
    open spec fn is_json_of(t: ProductImage, u: ProductImageJson) -> bool {
        &&& u.id == shown_id(t.id)
        &&& u.uuid@ == shown_uuid(t.uuid)
        &&& u.tenant_id == t.tenant_id
        &&& u.product_id == t.product_id
        &&& u.sku_id == t.sku_id
        &&& u.alt_text == t.alt_text
        &&& u.sort_order == t.sort_order
        &&& u.is_primary == t.is_primary
        &&& u.storage_provider == t.storage_provider
        &&& u.bucket == t.bucket
        &&& u.object_key == t.object_key
        &&& u.original_filename == t.original_filename
        &&& u.mime_type == t.mime_type
        &&& u.size_bytes == t.size_bytes
        &&& u.storage_status == t.storage_status
        &&& u.cdn_url == t.cdn_url
    }

    open spec fn is_domain_of(u: ProductImageJson, t: ProductImage) -> bool {
        &&& t.id == Some(u.id)
        &&& t.uuid == Some(u.uuid)
        &&& t.tenant_id == u.tenant_id
        &&& t.product_id == u.product_id
        &&& t.sku_id == u.sku_id
        &&& t.alt_text == u.alt_text
        &&& t.sort_order == u.sort_order
        &&& t.is_primary == u.is_primary
        &&& t.storage_provider == u.storage_provider
        &&& t.bucket == u.bucket
        &&& t.object_key == u.object_key
        &&& t.original_filename == u.original_filename
        &&& t.mime_type == u.mime_type
        &&& t.size_bytes == u.size_bytes
        &&& t.storage_status == u.storage_status
        &&& t.cdn_url == u.cdn_url
        &&& t.storage_identity_hash is None
        &&& t.object_version is None
        &&& t.etag is None
        &&& t.checksum_sha256 is None
        &&& t.width_px is None
        &&& t.height_px is None
    }

    fn json(t: ProductImage) -> (u: ProductImageJson) {
        ProductImageJson {
            id: id_or_zero(t.id),
            uuid: uuid_or_empty(t.uuid),
            tenant_id: t.tenant_id,
            product_id: t.product_id,
            sku_id: t.sku_id,
            alt_text: t.alt_text,
            sort_order: t.sort_order,
            is_primary: t.is_primary,
            storage_provider: t.storage_provider,
            bucket: t.bucket,
            object_key: t.object_key,
            original_filename: t.original_filename,
            mime_type: t.mime_type,
            size_bytes: t.size_bytes,
            storage_status: t.storage_status,
            cdn_url: t.cdn_url,
        }
    }

    fn domain(u: ProductImageJson) -> (t: ProductImage) {
        ProductImage {
            id: Some(u.id),
            uuid: Some(u.uuid),
            tenant_id: u.tenant_id,
            product_id: u.product_id,
            sku_id: u.sku_id,
            alt_text: u.alt_text,
            sort_order: u.sort_order,
            is_primary: u.is_primary,
            storage_provider: u.storage_provider,
            bucket: u.bucket,
            object_key: u.object_key,
            original_filename: u.original_filename,
            mime_type: u.mime_type,
            size_bytes: u.size_bytes,
            storage_status: u.storage_status,
            cdn_url: u.cdn_url,
            storage_identity_hash: None,
            object_version: None,
            etag: None,
            checksum_sha256: None,
            width_px: None,
            height_px: None,
        }
    }
}


/// A record whose id is absent or positive and whose uuid is absent or not
/// empty comes back from its JSON form as it was (its uuid by its text).
pub proof fn product_mapping_round_trip(t: Product, u: ProductJson, back: Product)
    requires
        t.id matches Some(x) ==> x > 0,
        shown_uuid(t.uuid).len() > 0 || t.uuid is None,
        ProductMapper::is_json_of(t, u),
        ProductMapper::is_domain_of(u, back),
    ensures
        back.id == t.id,
        text_view(back.uuid) == text_view(t.uuid),
        back.name == t.name && back.slug == t.slug && back.ncm == t.ncm,
        back.description == t.description && back.brand == t.brand && back.cest == t.cest,
        back.tenant_id == t.tenant_id && back.active == t.active,
        back.origem_mercadoria == t.origem_mercadoria,
{
}

/// A SKU's JSON form read back and written again is the same JSON, when its
/// id is not negative.
pub proof fn sku_json_round_trip(u: SkuJson, t: Sku, again: SkuJson)
    requires
        u.id >= 0,
        SkuMapper::is_domain_of(u, t),
        SkuMapper::is_json_of(t, again),
    ensures
        again.id == u.id,
        again.uuid@ == u.uuid@,
        again.code == u.code && again.variant_key == u.variant_key && again.price_cents == u.price_cents,
        again.product_id == u.product_id && again.tenant_id == u.tenant_id && again.active == u.active,
{
}

/// A negative id in JSON is not a record id: it reads as none and is shown
/// as zero.
pub proof fn negative_json_id_reads_as_new(u: SkuJson, t: Sku, again: SkuJson)
    requires
        u.id < 0,
        SkuMapper::is_domain_of(u, t),
        SkuMapper::is_json_of(t, again),
    ensures
        t.id is None,
        again.id == 0,
{
}

/// Access tokens and their JSON form: every field is carried as it is.
pub struct AccessTokenMapper;

impl Mapper<AccessToken, AccessTokenJson> for AccessTokenMapper {
    open spec fn is_json_of(t: AccessToken, u: AccessTokenJson) -> bool {
        u == (AccessTokenJson {
            access_token: t.access_token,
            token_type: t.token_type,
            expire_in: t.expire_in,
            refresh_token: t.refresh_token,
            email: t.email,
            uuid: t.uuid,
            name: t.name,
            user_id: t.user_id,
            role: t.role,
            tenant_id: t.tenant_id,
            first_login: t.first_login,
        })
    }

    open spec fn is_domain_of(u: AccessTokenJson, t: AccessToken) -> bool {
        t == (AccessToken {
            access_token: u.access_token,
            token_type: u.token_type,
            expire_in: u.expire_in,
            refresh_token: u.refresh_token,
            email: u.email,
            uuid: u.uuid,
            name: u.name,
            user_id: u.user_id,
            role: u.role,
            tenant_id: u.tenant_id,
            first_login: u.first_login,
        })
    }

    fn json(t: AccessToken) -> (u: AccessTokenJson) {
        AccessTokenJson {
            access_token: t.access_token,
            token_type: t.token_type,
            expire_in: t.expire_in,
            refresh_token: t.refresh_token,
            email: t.email,
            uuid: t.uuid,
            name: t.name,
            user_id: t.user_id,
            role: t.role,
            tenant_id: t.tenant_id,
            first_login: t.first_login,
        }
    }

    fn domain(u: AccessTokenJson) -> (t: AccessToken) {
        AccessToken {
            access_token: u.access_token,
            token_type: u.token_type,
            expire_in: u.expire_in,
            refresh_token: u.refresh_token,
            email: u.email,
            uuid: u.uuid,
            name: u.name,
            user_id: u.user_id,
            role: u.role,
            tenant_id: u.tenant_id,
            first_login: u.first_login,
        }
    }
}

/// Shipping rates and their JSON form.
pub struct ShippingRateMapper;

impl Mapper<ShippingRate, ShippingRateJson> for ShippingRateMapper {
    open spec fn is_json_of(t: ShippingRate, u: ShippingRateJson) -> bool {
        &&& u.id == shown_id(t.id)
        &&& u.uuid@ == shown_uuid(t.uuid)
        &&& u.tenant_id == t.tenant_id
        &&& u.uf == t.uf
        &&& u.price_cents == t.price_cents
        &&& u.created_at == t.created_at
        &&& u.updated_at == t.updated_at
    }

    open spec fn is_domain_of(u: ShippingRateJson, t: ShippingRate) -> bool {
        &&& t.id == stored_id(u.id)
        &&& text_view(t.uuid) == stored_uuid(u.uuid@)
        &&& t.tenant_id == u.tenant_id
        &&& t.uf == u.uf
        &&& t.price_cents == u.price_cents
        &&& t.created_at == u.created_at
        &&& t.updated_at == u.updated_at
        &&& t.created_by is None
        &&& t.updated_by is None
    }

    fn json(t: ShippingRate) -> (u: ShippingRateJson) {
        ShippingRateJson {
            id: id_or_zero(t.id),
            uuid: uuid_or_empty(t.uuid),
            tenant_id: t.tenant_id,
            uf: t.uf,
            price_cents: t.price_cents,
            created_at: t.created_at,
            updated_at: t.updated_at,
        }
    }

    fn domain(u: ShippingRateJson) -> (t: ShippingRate) {
        ShippingRate {
            id: positive_id(u.id),
            uuid: non_empty_uuid(u.uuid),
            tenant_id: u.tenant_id,
            uf: u.uf,
            price_cents: u.price_cents,
            created_at: u.created_at,
            updated_at: u.updated_at,
            created_by: None,
            updated_by: None,
        }
    }
}

/// Customers and their JSON form.
pub struct CustomerMapper;

impl Mapper<Customer, CustomerJson> for CustomerMapper {
    open spec fn is_json_of(t: Customer, u: CustomerJson) -> bool {
        &&& u.id == shown_id(t.id)
        &&& u.uuid@ == shown_uuid(t.uuid)
        &&& u.tenant_id == t.tenant_id
        &&& u.name == t.name
        &&& u.email == t.email
        &&& u.cpf == t.cpf
        &&& u.phone == t.phone
        &&& u.marketing_consent == t.marketing_consent
        &&& u.active == t.active
        &&& u.created_at == t.created_at
        &&& u.updated_at == t.updated_at
    }

    open spec fn is_domain_of(u: CustomerJson, t: Customer) -> bool {
        &&& t.id == stored_id(u.id)
        &&& text_view(t.uuid) == stored_uuid(u.uuid@)
        &&& t.tenant_id == u.tenant_id
        &&& t.name == u.name
        &&& t.email == u.email
        &&& t.cpf == u.cpf
        &&& t.phone == u.phone
        &&& t.marketing_consent == u.marketing_consent
        &&& t.active == u.active
        &&& t.created_at == u.created_at
        &&& t.updated_at == u.updated_at
        &&& t.password_hash@.len() == 0
        &&& t.consent_at is None
        &&& t.created_by is None
        &&& t.updated_by is None
    }

    fn json(t: Customer) -> (u: CustomerJson) {
        CustomerJson {
            id: id_or_zero(t.id),
            uuid: uuid_or_empty(t.uuid),
            tenant_id: t.tenant_id,
            name: t.name,
            email: t.email,
            cpf: t.cpf,
            phone: t.phone,
            marketing_consent: t.marketing_consent,
            active: t.active,
            created_at: t.created_at,
            updated_at: t.updated_at,
        }
    }

    fn domain(u: CustomerJson) -> (t: Customer) {
        Customer {
            id: positive_id(u.id),
            uuid: non_empty_uuid(u.uuid),
            tenant_id: u.tenant_id,
            name: u.name,
            email: u.email,
            cpf: u.cpf,
            phone: u.phone,
            marketing_consent: u.marketing_consent,
            active: u.active,
            created_at: u.created_at,
            updated_at: u.updated_at,
            password_hash: String::new(),
            consent_at: None,
            created_by: None,
            updated_by: None,
        }
    }
}

/// Customer addresses and their JSON form.
pub struct CustomerAddressMapper;

impl Mapper<CustomerAddress, CustomerAddressJson> for CustomerAddressMapper {
    open spec fn is_json_of(t: CustomerAddress, u: CustomerAddressJson) -> bool {
        &&& u.id == shown_id(t.id)
        &&& u.uuid@ == shown_uuid(t.uuid)
        &&& u.tenant_id == t.tenant_id
        &&& u.customer_id == t.customer_id
        &&& u.label == t.label
        &&& u.recipient == t.recipient
        &&& u.cep == t.cep
        &&& u.logradouro == t.logradouro
        &&& u.numero == t.numero
        &&& u.complemento == t.complemento
        &&& u.bairro == t.bairro
        &&& u.cidade == t.cidade
        &&& u.uf == t.uf
        &&& u.is_default == t.is_default
        &&& u.created_at == t.created_at
        &&& u.updated_at == t.updated_at
    }

    open spec fn is_domain_of(u: CustomerAddressJson, t: CustomerAddress) -> bool {
        &&& t.id == stored_id(u.id)
        &&& text_view(t.uuid) == stored_uuid(u.uuid@)
        &&& t.tenant_id == u.tenant_id
        &&& t.customer_id == u.customer_id
        &&& t.label == u.label
        &&& t.recipient == u.recipient
        &&& t.cep == u.cep
        &&& t.logradouro == u.logradouro
        &&& t.numero == u.numero
        &&& t.complemento == u.complemento
        &&& t.bairro == u.bairro
        &&& t.cidade == u.cidade
        &&& t.uf == u.uf
        &&& t.is_default == u.is_default
        &&& t.created_at == u.created_at
        &&& t.updated_at == u.updated_at
        &&& t.created_by is None
        &&& t.updated_by is None
    }

    fn json(t: CustomerAddress) -> (u: CustomerAddressJson) {
        CustomerAddressJson {
            id: id_or_zero(t.id),
            uuid: uuid_or_empty(t.uuid),
            tenant_id: t.tenant_id,
            customer_id: t.customer_id,
            label: t.label,
            recipient: t.recipient,
            cep: t.cep,
            logradouro: t.logradouro,
            numero: t.numero,
            complemento: t.complemento,
            bairro: t.bairro,
            cidade: t.cidade,
            uf: t.uf,
            is_default: t.is_default,
            created_at: t.created_at,
            updated_at: t.updated_at,
        }
    }

    fn domain(u: CustomerAddressJson) -> (t: CustomerAddress) {
        CustomerAddress {
            id: positive_id(u.id),
            uuid: non_empty_uuid(u.uuid),
            tenant_id: u.tenant_id,
            customer_id: u.customer_id,
            label: u.label,
            recipient: u.recipient,
            cep: u.cep,
            logradouro: u.logradouro,
            numero: u.numero,
            complemento: u.complemento,
            bairro: u.bairro,
            cidade: u.cidade,
            uf: u.uf,
            is_default: u.is_default,
            created_at: u.created_at,
            updated_at: u.updated_at,
            created_by: None,
            updated_by: None,
        }
    }
}

/// Tax rules and their JSON form.
pub struct TaxRuleMapper;

impl Mapper<TaxRule, TaxRuleJson> for TaxRuleMapper {
    open spec fn is_json_of(t: TaxRule, u: TaxRuleJson) -> bool {
        &&& u.id == shown_id(t.id)
        &&& u.uuid@ == shown_uuid(t.uuid)
        &&& u.tenant_id == t.tenant_id
        &&& u.uf_origem == t.uf_origem
        &&& u.uf_destino == t.uf_destino
        &&& u.ncm_prefix == t.ncm_prefix
        &&& u.regime == t.regime
        &&& u.csosn == t.csosn
        &&& u.cfop == t.cfop
        &&& u.icms_rate_bp == t.icms_rate_bp
        &&& u.active == t.active
        &&& u.created_at == t.created_at
        &&& u.updated_at == t.updated_at
    }

    open spec fn is_domain_of(u: TaxRuleJson, t: TaxRule) -> bool {
        &&& t.id == stored_id(u.id)
        &&& text_view(t.uuid) == stored_uuid(u.uuid@)
        &&& t.tenant_id == u.tenant_id
        &&& t.uf_origem == u.uf_origem
        &&& t.uf_destino == u.uf_destino
        &&& t.ncm_prefix == u.ncm_prefix
        &&& t.regime == u.regime
        &&& t.csosn == u.csosn
        &&& t.cfop == u.cfop
        &&& t.icms_rate_bp == u.icms_rate_bp
        &&& t.active == u.active
        &&& t.created_at == u.created_at
        &&& t.updated_at == u.updated_at
        &&& t.created_by is None
        &&& t.updated_by is None
    }

    fn json(t: TaxRule) -> (u: TaxRuleJson) {
        TaxRuleJson {
            id: id_or_zero(t.id),
            uuid: uuid_or_empty(t.uuid),
            tenant_id: t.tenant_id,
            uf_origem: t.uf_origem,
            uf_destino: t.uf_destino,
            ncm_prefix: t.ncm_prefix,
            regime: t.regime,
            csosn: t.csosn,
            cfop: t.cfop,
            icms_rate_bp: t.icms_rate_bp,
            active: t.active,
            created_at: t.created_at,
            updated_at: t.updated_at,
        }
    }

    fn domain(u: TaxRuleJson) -> (t: TaxRule) {
        TaxRule {
            id: positive_id(u.id),
            uuid: non_empty_uuid(u.uuid),
            tenant_id: u.tenant_id,
            uf_origem: u.uf_origem,
            uf_destino: u.uf_destino,
            ncm_prefix: u.ncm_prefix,
            regime: u.regime,
            csosn: u.csosn,
            cfop: u.cfop,
            icms_rate_bp: u.icms_rate_bp,
            active: u.active,
            created_at: u.created_at,
            updated_at: u.updated_at,
            created_by: None,
            updated_by: None,
        }
    }
}

/// Campaigns and their JSON form.
pub struct CampaignMapper;

impl Mapper<Campaign, CampaignJson> for CampaignMapper {
    open spec fn is_json_of(t: Campaign, u: CampaignJson) -> bool {
        &&& u.id == shown_id(t.id)
        &&& u.uuid@ == shown_uuid(t.uuid)
        &&& u.tenant_id == t.tenant_id
        &&& u.name == t.name
        &&& u.campaign_type == t.campaign_type
        &&& u.value == t.value
        &&& u.scope == t.scope
        &&& u.starts_at == t.starts_at
        &&& u.ends_at == t.ends_at
        &&& u.active == t.active
        &&& u.created_at == t.created_at
        &&& u.updated_at == t.updated_at
    }

    open spec fn is_domain_of(u: CampaignJson, t: Campaign) -> bool {
        &&& t.id == stored_id(u.id)
        &&& text_view(t.uuid) == stored_uuid(u.uuid@)
        &&& t.tenant_id == u.tenant_id
        &&& t.name == u.name
        &&& t.campaign_type == u.campaign_type
        &&& t.value == u.value
        &&& t.scope == u.scope
        &&& t.starts_at == u.starts_at
        &&& t.ends_at == u.ends_at
        &&& t.active == u.active
        &&& t.created_at == u.created_at
        &&& t.updated_at == u.updated_at
        &&& t.created_by is None
        &&& t.updated_by is None
    }

    fn json(t: Campaign) -> (u: CampaignJson) {
        CampaignJson {
            id: id_or_zero(t.id),
            uuid: uuid_or_empty(t.uuid),
            tenant_id: t.tenant_id,
            name: t.name,
            campaign_type: t.campaign_type,
            value: t.value,
            scope: t.scope,
            starts_at: t.starts_at,
            ends_at: t.ends_at,
            active: t.active,
            created_at: t.created_at,
            updated_at: t.updated_at,
        }
    }

    fn domain(u: CampaignJson) -> (t: Campaign) {
        Campaign {
            id: positive_id(u.id),
            uuid: non_empty_uuid(u.uuid),
            tenant_id: u.tenant_id,
            name: u.name,
            campaign_type: u.campaign_type,
            value: u.value,
            scope: u.scope,
            starts_at: u.starts_at,
            ends_at: u.ends_at,
            active: u.active,
            created_at: u.created_at,
            updated_at: u.updated_at,
            created_by: None,
            updated_by: None,
        }
    }
}

/// Campaign targets and their JSON form.
pub struct CampaignTargetMapper;

impl Mapper<CampaignTarget, CampaignTargetJson> for CampaignTargetMapper {
    open spec fn is_json_of(t: CampaignTarget, u: CampaignTargetJson) -> bool {
        &&& u.id == shown_id(t.id)
        &&& u.uuid@ == shown_uuid(t.uuid)
        &&& u.tenant_id == t.tenant_id
        &&& u.campaign_id == t.campaign_id
        &&& u.target_type == t.target_type
        &&& u.target_id == t.target_id
        &&& u.created_at == t.created_at
    }

    open spec fn is_domain_of(u: CampaignTargetJson, t: CampaignTarget) -> bool {
        &&& t.id == stored_id(u.id)
        &&& text_view(t.uuid) == stored_uuid(u.uuid@)
        &&& t.tenant_id == u.tenant_id
        &&& t.campaign_id == u.campaign_id
        &&& t.target_type == u.target_type
        &&& t.target_id == u.target_id
        &&& t.created_at == u.created_at
        &&& t.created_by is None
    }

    fn json(t: CampaignTarget) -> (u: CampaignTargetJson) {
        CampaignTargetJson {
            id: id_or_zero(t.id),
            uuid: uuid_or_empty(t.uuid),
            tenant_id: t.tenant_id,
            campaign_id: t.campaign_id,
            target_type: t.target_type,
            target_id: t.target_id,
            created_at: t.created_at,
        }
    }

    fn domain(u: CampaignTargetJson) -> (t: CampaignTarget) {
        CampaignTarget {
            id: positive_id(u.id),
            uuid: non_empty_uuid(u.uuid),
            tenant_id: u.tenant_id,
            campaign_id: u.campaign_id,
            target_type: u.target_type,
            target_id: u.target_id,
            created_at: u.created_at,
            created_by: None,
        }
    }
}

/// Coupons and their JSON form.
pub struct CouponMapper;

impl Mapper<Coupon, CouponJson> for CouponMapper {
    open spec fn is_json_of(t: Coupon, u: CouponJson) -> bool {
        &&& u.id == shown_id(t.id)
        &&& u.uuid@ == shown_uuid(t.uuid)
        &&& u.tenant_id == t.tenant_id
        &&& u.code == t.code
        &&& u.campaign_id == t.campaign_id
        &&& u.coupon_type == t.coupon_type
        &&& u.value == t.value
        &&& u.min_order_cents == t.min_order_cents
        &&& u.max_uses == t.max_uses
        &&& u.max_uses_per_customer == t.max_uses_per_customer
        &&& u.starts_at == t.starts_at
        &&& u.expires_at == t.expires_at
        &&& u.active == t.active
        &&& u.created_at == t.created_at
        &&& u.updated_at == t.updated_at
    }

    open spec fn is_domain_of(u: CouponJson, t: Coupon) -> bool {
        &&& t.id == stored_id(u.id)
        &&& text_view(t.uuid) == stored_uuid(u.uuid@)
        &&& t.tenant_id == u.tenant_id
        &&& t.code == u.code
        &&& t.campaign_id == u.campaign_id
        &&& t.coupon_type == u.coupon_type
        &&& t.value == u.value
        &&& t.min_order_cents == u.min_order_cents
        &&& t.max_uses == u.max_uses
        &&& t.max_uses_per_customer == u.max_uses_per_customer
        &&& t.starts_at == u.starts_at
        &&& t.expires_at == u.expires_at
        &&& t.active == u.active
        &&& t.created_at == u.created_at
        &&& t.updated_at == u.updated_at
        &&& t.created_by is None
        &&& t.updated_by is None
    }

    fn json(t: Coupon) -> (u: CouponJson) {
        CouponJson {
            id: id_or_zero(t.id),
            uuid: uuid_or_empty(t.uuid),
            tenant_id: t.tenant_id,
            code: t.code,
            campaign_id: t.campaign_id,
            coupon_type: t.coupon_type,
            value: t.value,
            min_order_cents: t.min_order_cents,
            max_uses: t.max_uses,
            max_uses_per_customer: t.max_uses_per_customer,
            starts_at: t.starts_at,
            expires_at: t.expires_at,
            active: t.active,
            created_at: t.created_at,
            updated_at: t.updated_at,
        }
    }

    fn domain(u: CouponJson) -> (t: Coupon) {
        Coupon {
            id: positive_id(u.id),
            uuid: non_empty_uuid(u.uuid),
            tenant_id: u.tenant_id,
            code: u.code,
            campaign_id: u.campaign_id,
            coupon_type: u.coupon_type,
            value: u.value,
            min_order_cents: u.min_order_cents,
            max_uses: u.max_uses,
            max_uses_per_customer: u.max_uses_per_customer,
            starts_at: u.starts_at,
            expires_at: u.expires_at,
            active: u.active,
            created_at: u.created_at,
            updated_at: u.updated_at,
            created_by: None,
            updated_by: None,
        }
    }
}

/// Coupon redemptions and their JSON form.
pub struct CouponRedemptionMapper;

impl Mapper<CouponRedemption, CouponRedemptionJson> for CouponRedemptionMapper {
    open spec fn is_json_of(t: CouponRedemption, u: CouponRedemptionJson) -> bool {
        &&& u.id == shown_id(t.id)
        &&& u.uuid@ == shown_uuid(t.uuid)
        &&& u.tenant_id == t.tenant_id
        &&& u.coupon_id == t.coupon_id
        &&& u.order_id == t.order_id
        &&& u.customer_id == t.customer_id
        &&& u.created_at == t.created_at
    }

    open spec fn is_domain_of(u: CouponRedemptionJson, t: CouponRedemption) -> bool {
        &&& t.id == stored_id(u.id)
        &&& text_view(t.uuid) == stored_uuid(u.uuid@)
        &&& t.tenant_id == u.tenant_id
        &&& t.coupon_id == u.coupon_id
        &&& t.order_id == u.order_id
        &&& t.customer_id == u.customer_id
        &&& t.created_at == u.created_at
        &&& t.created_by is None
    }

    fn json(t: CouponRedemption) -> (u: CouponRedemptionJson) {
        CouponRedemptionJson {
            id: id_or_zero(t.id),
            uuid: uuid_or_empty(t.uuid),
            tenant_id: t.tenant_id,
            coupon_id: t.coupon_id,
            order_id: t.order_id,
            customer_id: t.customer_id,
            created_at: t.created_at,
        }
    }

    fn domain(u: CouponRedemptionJson) -> (t: CouponRedemption) {
        CouponRedemption {
            id: positive_id(u.id),
            uuid: non_empty_uuid(u.uuid),
            tenant_id: u.tenant_id,
            coupon_id: u.coupon_id,
            order_id: u.order_id,
            customer_id: u.customer_id,
            created_at: u.created_at,
            created_by: None,
        }
    }
}

/// Carts and their JSON form.
pub struct CartMapper;

impl Mapper<Cart, CartJson> for CartMapper {
    open spec fn is_json_of(t: Cart, u: CartJson) -> bool {
        &&& u.id == shown_id(t.id)
        &&& u.uuid@ == shown_uuid(t.uuid)
        &&& u.tenant_id == t.tenant_id
        &&& u.customer_id == t.customer_id
        &&& u.status == t.status
        &&& u.expires_at == t.expires_at
        &&& u.created_at == t.created_at
        &&& u.updated_at == t.updated_at
    }

    open spec fn is_domain_of(u: CartJson, t: Cart) -> bool {
        &&& t.id == stored_id(u.id)
        &&& text_view(t.uuid) == stored_uuid(u.uuid@)
        &&& t.tenant_id == u.tenant_id
        &&& t.customer_id == u.customer_id
        &&& t.status == u.status
        &&& t.expires_at == u.expires_at
        &&& t.created_at == u.created_at
        &&& t.updated_at == u.updated_at
        &&& t.created_by is None
        &&& t.updated_by is None
    }

    fn json(t: Cart) -> (u: CartJson) {
        CartJson {
            id: id_or_zero(t.id),
            uuid: uuid_or_empty(t.uuid),
            tenant_id: t.tenant_id,
            customer_id: t.customer_id,
            status: t.status,
            expires_at: t.expires_at,
            created_at: t.created_at,
            updated_at: t.updated_at,
        }
    }

    fn domain(u: CartJson) -> (t: Cart) {
        Cart {
            id: positive_id(u.id),
            uuid: non_empty_uuid(u.uuid),
            tenant_id: u.tenant_id,
            customer_id: u.customer_id,
            status: u.status,
            expires_at: u.expires_at,
            created_at: u.created_at,
            updated_at: u.updated_at,
            created_by: None,
            updated_by: None,
        }
    }
}

/// Cart items and their JSON form.
pub struct CartItemMapper;

impl Mapper<CartItem, CartItemJson> for CartItemMapper {
    open spec fn is_json_of(t: CartItem, u: CartItemJson) -> bool {
        &&& u.id == shown_id(t.id)
        &&& u.uuid@ == shown_uuid(t.uuid)
        &&& u.tenant_id == t.tenant_id
        &&& u.cart_id == t.cart_id
        &&& u.sku_id == t.sku_id
        &&& u.quantity == t.quantity
        &&& u.unit_price_cents == t.unit_price_cents
        &&& u.created_at == t.created_at
        &&& u.updated_at == t.updated_at
    }

    open spec fn is_domain_of(u: CartItemJson, t: CartItem) -> bool {
        &&& t.id == stored_id(u.id)
        &&& text_view(t.uuid) == stored_uuid(u.uuid@)
        &&& t.tenant_id == u.tenant_id
        &&& t.cart_id == u.cart_id
        &&& t.sku_id == u.sku_id
        &&& t.quantity == u.quantity
        &&& t.unit_price_cents == u.unit_price_cents
        &&& t.created_at == u.created_at
        &&& t.updated_at == u.updated_at
        &&& t.created_by is None
        &&& t.updated_by is None
    }

    fn json(t: CartItem) -> (u: CartItemJson) {
        CartItemJson {
            id: id_or_zero(t.id),
            uuid: uuid_or_empty(t.uuid),
            tenant_id: t.tenant_id,
            cart_id: t.cart_id,
            sku_id: t.sku_id,
            quantity: t.quantity,
            unit_price_cents: t.unit_price_cents,
            created_at: t.created_at,
            updated_at: t.updated_at,
        }
    }

    fn domain(u: CartItemJson) -> (t: CartItem) {
        CartItem {
            id: positive_id(u.id),
            uuid: non_empty_uuid(u.uuid),
            tenant_id: u.tenant_id,
            cart_id: u.cart_id,
            sku_id: u.sku_id,
            quantity: u.quantity,
            unit_price_cents: u.unit_price_cents,
            created_at: u.created_at,
            updated_at: u.updated_at,
            created_by: None,
            updated_by: None,
        }
    }
}

/// Product categories and their JSON form.
pub struct ProductCategoryMapper;

impl Mapper<ProductCategory, ProductCategoryJson> for ProductCategoryMapper {
    open spec fn is_json_of(t: ProductCategory, u: ProductCategoryJson) -> bool {
        &&& u.id == shown_id(t.id)
        &&& u.uuid@ == shown_uuid(t.uuid)
        &&& u.tenant_id == t.tenant_id
        &&& u.product_id == t.product_id
        &&& u.category_id == t.category_id
        &&& u.is_primary == t.is_primary
        &&& u.created_at == t.created_at
        &&& u.created_by == t.created_by
    }

    open spec fn is_domain_of(u: ProductCategoryJson, t: ProductCategory) -> bool {
        &&& t.id == stored_id(u.id)
        &&& text_view(t.uuid) == stored_uuid(u.uuid@)
        &&& t.tenant_id == u.tenant_id
        &&& t.product_id == u.product_id
        &&& t.category_id == u.category_id
        &&& t.is_primary == u.is_primary
        &&& t.created_at == u.created_at
        &&& t.created_by == u.created_by
    }

    fn json(t: ProductCategory) -> (u: ProductCategoryJson) {
        ProductCategoryJson {
            id: id_or_zero(t.id),
            uuid: uuid_or_empty(t.uuid),
            tenant_id: t.tenant_id,
            product_id: t.product_id,
            category_id: t.category_id,
            is_primary: t.is_primary,
            created_at: t.created_at,
            created_by: t.created_by,
        }
    }

    fn domain(u: ProductCategoryJson) -> (t: ProductCategory) {
        ProductCategory {
            id: positive_id(u.id),
            uuid: non_empty_uuid(u.uuid),
            tenant_id: u.tenant_id,
            product_id: u.product_id,
            category_id: u.category_id,
            is_primary: u.is_primary,
            created_at: u.created_at,
            created_by: u.created_by,
        }
    }
}

/// SKU attribute values and their JSON form.
pub struct SkuAttributeValueMapper;

impl Mapper<SkuAttributeValue, SkuAttributeValueJson> for SkuAttributeValueMapper {
    open spec fn is_json_of(t: SkuAttributeValue, u: SkuAttributeValueJson) -> bool {
        &&& u.id == shown_id(t.id)
        &&& u.uuid@ == shown_uuid(t.uuid)
        &&& u.tenant_id == t.tenant_id
        &&& u.product_id == t.product_id
        &&& u.sku_id == t.sku_id
        &&& u.product_attribute_id == t.product_attribute_id
        &&& u.attribute_id == t.attribute_id
        &&& u.attribute_value_id == t.attribute_value_id
        &&& u.created_at == t.created_at
        &&& u.created_by == t.created_by
        &&& u.updated_at == t.updated_at
        &&& u.updated_by == t.updated_by
    }

    open spec fn is_domain_of(u: SkuAttributeValueJson, t: SkuAttributeValue) -> bool {
        &&& t.id == stored_id(u.id)
        &&& text_view(t.uuid) == stored_uuid(u.uuid@)
        &&& t.tenant_id == u.tenant_id
        &&& t.product_id == u.product_id
        &&& t.sku_id == u.sku_id
        &&& t.product_attribute_id == u.product_attribute_id
        &&& t.attribute_id == u.attribute_id
        &&& t.attribute_value_id == u.attribute_value_id
        &&& t.created_at == u.created_at
        &&& t.created_by == u.created_by
        &&& t.updated_at == u.updated_at
        &&& t.updated_by == u.updated_by
    }

    fn json(t: SkuAttributeValue) -> (u: SkuAttributeValueJson) {
        SkuAttributeValueJson {
            id: id_or_zero(t.id),
            uuid: uuid_or_empty(t.uuid),
            tenant_id: t.tenant_id,
            product_id: t.product_id,
            sku_id: t.sku_id,
            product_attribute_id: t.product_attribute_id,
            attribute_id: t.attribute_id,
            attribute_value_id: t.attribute_value_id,
            created_at: t.created_at,
            created_by: t.created_by,
            updated_at: t.updated_at,
            updated_by: t.updated_by,
        }
    }

    fn domain(u: SkuAttributeValueJson) -> (t: SkuAttributeValue) {
        SkuAttributeValue {
            id: positive_id(u.id),
            uuid: non_empty_uuid(u.uuid),
            tenant_id: u.tenant_id,
            product_id: u.product_id,
            sku_id: u.sku_id,
            product_attribute_id: u.product_attribute_id,
            attribute_id: u.attribute_id,
            attribute_value_id: u.attribute_value_id,
            created_at: u.created_at,
            created_by: u.created_by,
            updated_at: u.updated_at,
            updated_by: u.updated_by,
        }
    }
}

/// Stock entries and their JSON form.
pub struct SkuStockMapper;

impl Mapper<SkuStock, SkuStockJson> for SkuStockMapper {
    open spec fn is_json_of(t: SkuStock, u: SkuStockJson) -> bool {
        &&& u.id == shown_id(t.id)
        &&& u.uuid@ == shown_uuid(t.uuid)
        &&& u.tenant_id == t.tenant_id
        &&& u.sku_id == t.sku_id
        &&& u.quantity == t.quantity
        &&& u.reserved == t.reserved
        &&& u.created_at == t.created_at
        &&& u.created_by == t.created_by
        &&& u.updated_at == t.updated_at
        &&& u.updated_by == t.updated_by
    }

    open spec fn is_domain_of(u: SkuStockJson, t: SkuStock) -> bool {
        &&& t.id == stored_id(u.id)
        &&& text_view(t.uuid) == stored_uuid(u.uuid@)
        &&& t.tenant_id == u.tenant_id
        &&& t.sku_id == u.sku_id
        &&& t.quantity == u.quantity
        &&& t.reserved == u.reserved
        &&& t.created_at == u.created_at
        &&& t.created_by == u.created_by
        &&& t.updated_at == u.updated_at
        &&& t.updated_by == u.updated_by
    }

    fn json(t: SkuStock) -> (u: SkuStockJson) {
        SkuStockJson {
            id: id_or_zero(t.id),
            uuid: uuid_or_empty(t.uuid),
            tenant_id: t.tenant_id,
            sku_id: t.sku_id,
            quantity: t.quantity,
            reserved: t.reserved,
            created_at: t.created_at,
            created_by: t.created_by,
            updated_at: t.updated_at,
            updated_by: t.updated_by,
        }
    }

    fn domain(u: SkuStockJson) -> (t: SkuStock) {
        SkuStock {
            id: positive_id(u.id),
            uuid: non_empty_uuid(u.uuid),
            tenant_id: u.tenant_id,
            sku_id: u.sku_id,
            quantity: u.quantity,
            reserved: u.reserved,
            created_at: u.created_at,
            created_by: u.created_by,
            updated_at: u.updated_at,
            updated_by: u.updated_by,
        }
    }
}

/// A customer read from JSON carries no password hash, consent time or
/// audit author, and shows again as the same JSON (for an id that is not
/// negative).
pub proof fn customer_json_reads_back(u: CustomerJson, t: Customer, again: CustomerJson)
    requires
        u.id >= 0,
        CustomerMapper::is_domain_of(u, t),
        CustomerMapper::is_json_of(t, again),
    ensures
        t.password_hash@.len() == 0,
        t.consent_at is None && t.created_by is None && t.updated_by is None,
        again.id == u.id,
        again.uuid@ == u.uuid@,
        again.tenant_id == u.tenant_id && again.name == u.name && again.email == u.email,
        again.cpf == u.cpf && again.phone == u.phone,
        again.marketing_consent == u.marketing_consent && again.active == u.active,
        again.created_at == u.created_at && again.updated_at == u.updated_at,
{
}

/// Order items and their JSON form.
pub struct OrderItemMapper;

impl Mapper<OrderItem, OrderItemJson> for OrderItemMapper {
    open spec fn is_json_of(t: OrderItem, u: OrderItemJson) -> bool {
        &&& u.id == shown_id(t.id)
        &&& u.uuid@ == shown_uuid(t.uuid)
        &&& u.tenant_id == t.tenant_id
        &&& u.order_id == t.order_id
        &&& u.sku_id == t.sku_id
        &&& u.sku_code == t.sku_code
        &&& u.product_name == t.product_name
        &&& u.attributes_desc == t.attributes_desc
        &&& u.quantity == t.quantity
        &&& u.unit_price_cents == t.unit_price_cents
        &&& u.discount_cents == t.discount_cents
        &&& u.ncm == t.ncm
        &&& u.cfop == t.cfop
        &&& u.csosn == t.csosn
        &&& u.icms_rate_bp == t.icms_rate_bp
        &&& u.tax_cents == t.tax_cents
        &&& u.total_cents == t.total_cents
        &&& u.created_at == t.created_at
        &&& u.updated_at == t.updated_at
    }

    open spec fn is_domain_of(u: OrderItemJson, t: OrderItem) -> bool {
        &&& t.id == stored_id(u.id)
        &&& text_view(t.uuid) == stored_uuid(u.uuid@)
        &&& t.tenant_id == u.tenant_id
        &&& t.order_id == u.order_id
        &&& t.sku_id == u.sku_id
        &&& t.sku_code == u.sku_code
        &&& t.product_name == u.product_name
        &&& t.attributes_desc == u.attributes_desc
        &&& t.quantity == u.quantity
        &&& t.unit_price_cents == u.unit_price_cents
        &&& t.discount_cents == u.discount_cents
        &&& t.ncm == u.ncm
        &&& t.cfop == u.cfop
        &&& t.csosn == u.csosn
        &&& t.icms_rate_bp == u.icms_rate_bp
        &&& t.tax_cents == u.tax_cents
        &&& t.total_cents == u.total_cents
        &&& t.created_at == u.created_at
        &&& t.updated_at == u.updated_at
        &&& t.created_by is None
        &&& t.updated_by is None
    }

    fn json(t: OrderItem) -> (u: OrderItemJson) {
        OrderItemJson {
            id: id_or_zero(t.id),
            uuid: uuid_or_empty(t.uuid),
            tenant_id: t.tenant_id,
            order_id: t.order_id,
            sku_id: t.sku_id,
            sku_code: t.sku_code,
            product_name: t.product_name,
            attributes_desc: t.attributes_desc,
            quantity: t.quantity,
            unit_price_cents: t.unit_price_cents,
            discount_cents: t.discount_cents,
            ncm: t.ncm,
            cfop: t.cfop,
            csosn: t.csosn,
            icms_rate_bp: t.icms_rate_bp,
            tax_cents: t.tax_cents,
            total_cents: t.total_cents,
            created_at: t.created_at,
            updated_at: t.updated_at,
        }
    }

    fn domain(u: OrderItemJson) -> (t: OrderItem) {
        OrderItem {
            id: positive_id(u.id),
            uuid: non_empty_uuid(u.uuid),
            tenant_id: u.tenant_id,
            order_id: u.order_id,
            sku_id: u.sku_id,
            sku_code: u.sku_code,
            product_name: u.product_name,
            attributes_desc: u.attributes_desc,
            quantity: u.quantity,
            unit_price_cents: u.unit_price_cents,
            discount_cents: u.discount_cents,
            ncm: u.ncm,
            cfop: u.cfop,
            csosn: u.csosn,
            icms_rate_bp: u.icms_rate_bp,
            tax_cents: u.tax_cents,
            total_cents: u.total_cents,
            created_at: u.created_at,
            updated_at: u.updated_at,
            created_by: None,
            updated_by: None,
        }
    }
}

/// Order status changes and their JSON form.
pub struct OrderStatusHistoryMapper;

impl Mapper<OrderStatusHistory, OrderStatusHistoryJson> for OrderStatusHistoryMapper {
    open spec fn is_json_of(t: OrderStatusHistory, u: OrderStatusHistoryJson) -> bool {
        &&& u.id == shown_id(t.id)
        &&& u.uuid@ == shown_uuid(t.uuid)
        &&& u.tenant_id == t.tenant_id
        &&& u.order_id == t.order_id
        &&& u.from_status == t.from_status
        &&& u.to_status == t.to_status
        &&& u.actor_type == t.actor_type
        &&& u.actor_id == t.actor_id
        &&& u.note == t.note
        &&& u.created_at == t.created_at
    }

    open spec fn is_domain_of(u: OrderStatusHistoryJson, t: OrderStatusHistory) -> bool {
        &&& t.id == stored_id(u.id)
        &&& text_view(t.uuid) == stored_uuid(u.uuid@)
        &&& t.tenant_id == u.tenant_id
        &&& t.order_id == u.order_id
        &&& t.from_status == u.from_status
        &&& t.to_status == u.to_status
        &&& t.actor_type == u.actor_type
        &&& t.actor_id == u.actor_id
        &&& t.note == u.note
        &&& t.created_at == u.created_at
        &&& t.created_by is None
    }

    fn json(t: OrderStatusHistory) -> (u: OrderStatusHistoryJson) {
        OrderStatusHistoryJson {
            id: id_or_zero(t.id),
            uuid: uuid_or_empty(t.uuid),
            tenant_id: t.tenant_id,
            order_id: t.order_id,
            from_status: t.from_status,
            to_status: t.to_status,
            actor_type: t.actor_type,
            actor_id: t.actor_id,
            note: t.note,
            created_at: t.created_at,
        }
    }

    fn domain(u: OrderStatusHistoryJson) -> (t: OrderStatusHistory) {
        OrderStatusHistory {
            id: positive_id(u.id),
            uuid: non_empty_uuid(u.uuid),
            tenant_id: u.tenant_id,
            order_id: u.order_id,
            from_status: u.from_status,
            to_status: u.to_status,
            actor_type: u.actor_type,
            actor_id: u.actor_id,
            note: u.note,
            created_at: u.created_at,
            created_by: None,
        }
    }
}

/// The address and contact part of a tenant's JSON form.
pub open spec fn address_part_json(u: TenantJson) -> TenantAddressJson {
    TenantAddressJson {
        email: u.email,
        phone: u.phone,
        address_line1: u.address_line1,
        address_line2: u.address_line2,
        locality: u.locality,
        administrative_area: u.administrative_area,
        postal_code: u.postal_code,
        country_code: u.country_code,
        city: u.city,
        province: u.province,
        zipcode: u.zipcode,
    }
}

/// The address and contact part of a stored tenant.
pub open spec fn address_part(t: Tenant) -> TenantAddress {
    TenantAddress {
        email: t.email,
        phone: t.phone,
        address_line1: t.address_line1,
        address_line2: t.address_line2,
        locality: t.locality,
        administrative_area: t.administrative_area,
        postal_code: t.postal_code,
        country_code: t.country_code,
    }
}

/// Tenants and their JSON form. A tenant is read only from JSON that names
/// its business and its tax id; its address and contacts are stored as
/// `stored_address` says, and shown with the legacy aliases repeated.
pub struct TenantMapper;

impl Mapper<Tenant, TenantJson> for TenantMapper {
    open spec fn is_json_of(t: Tenant, u: TenantJson) -> bool {
        &&& u.id == t.id && u.uuid == t.uuid
        &&& u.business_name == Some(t.business_name)
        &&& u.company_name == t.company_name
        &&& u.tax_id == Some(t.tax_id)
        &&& u.web_site == t.web_site
        &&& u.email == t.email && u.phone == t.phone
        &&& u.address_line1 == t.address_line1 && u.address_line2 == t.address_line2
        &&& u.locality == t.locality && u.city == t.locality
        &&& u.administrative_area == t.administrative_area && u.province == t.administrative_area
        &&& u.postal_code == t.postal_code && u.zipcode == t.postal_code
        &&& u.country_code == t.country_code
        &&& u.created_at == t.created_at && u.created_by == t.created_by
        &&& u.updated_at == t.updated_at && u.updated_by == t.updated_by
    }

    open spec fn is_domain_of(u: TenantJson, t: Tenant) -> bool {
        &&& t.id == u.id && t.uuid == u.uuid
        &&& u.business_name == Some(t.business_name)
        &&& t.company_name == u.company_name
        &&& u.tax_id == Some(t.tax_id)
        &&& t.web_site == u.web_site
        &&& stored_address(address_part_json(u), address_part(t))
        &&& t.created_at == u.created_at && t.created_by == u.created_by
        &&& t.updated_at == u.updated_at && t.updated_by == u.updated_by
    }

    open spec fn can_read(u: TenantJson) -> bool {
        u.business_name is Some && u.tax_id is Some
    }

    fn json(t: Tenant) -> (u: TenantJson) {
        TenantJson {
            id: t.id,
            uuid: t.uuid,
            business_name: Some(t.business_name),
            company_name: t.company_name,
            tax_id: Some(t.tax_id),
            email: t.email,
            phone: t.phone,
            web_site: t.web_site,
            address_line1: t.address_line1,
            address_line2: t.address_line2,
            province: clone_text(&t.administrative_area),
            city: clone_text(&t.locality),
            zipcode: clone_text(&t.postal_code),
            locality: t.locality,
            administrative_area: t.administrative_area,
            postal_code: t.postal_code,
            country_code: t.country_code,
            created_at: t.created_at,
            created_by: t.created_by,
            updated_at: t.updated_at,
            updated_by: t.updated_by,
        }
    }

    fn domain(u: TenantJson) -> (t: Tenant) {
        let business_name = u.business_name.unwrap();
        let tax_id = u.tax_id.unwrap();
        let a = tenant_address(TenantAddressJson {
            email: u.email,
            phone: u.phone,
            address_line1: u.address_line1,
            address_line2: u.address_line2,
            locality: u.locality,
            administrative_area: u.administrative_area,
            postal_code: u.postal_code,
            country_code: u.country_code,
            city: u.city,
            province: u.province,
            zipcode: u.zipcode,
        });
        Tenant {
            id: u.id,
            uuid: u.uuid,
            business_name,
            company_name: u.company_name,
            tax_id,
            email: a.email,
            phone: a.phone,
            web_site: u.web_site,
            address_line1: a.address_line1,
            address_line2: a.address_line2,
            locality: a.locality,
            administrative_area: a.administrative_area,
            postal_code: a.postal_code,
            country_code: a.country_code,
            created_at: u.created_at,
            created_by: u.created_by,
            updated_at: u.updated_at,
            updated_by: u.updated_by,
        }
    }
}

/// A tenant read from JSON, shown and read again is the same tenant, the
/// country code aside (its upper-casing is Unicode's): its names, tax id
/// and timestamps are carried through and its cleaned address fields stay
/// as they are.
pub proof fn tenant_json_reads_back(u: TenantJson, t: Tenant, back: TenantJson, again: Tenant)
    requires
        TenantMapper::can_read(u),
        TenantMapper::is_domain_of(u, t),
        TenantMapper::is_json_of(t, back),
        TenantMapper::is_domain_of(back, again),
    ensures
        TenantMapper::can_read(back),
        again.id == t.id && again.uuid == t.uuid,
        again.business_name == t.business_name && again.tax_id == t.tax_id,
        again.company_name == t.company_name && again.web_site == t.web_site,
        text_view(again.email) == text_view(t.email),
        text_view(again.phone) == text_view(t.phone),
        text_view(again.address_line1) == text_view(t.address_line1),
        text_view(again.address_line2) == text_view(t.address_line2),
        text_view(again.locality) == text_view(t.locality),
        text_view(again.administrative_area) == text_view(t.administrative_area),
        text_view(again.postal_code) == text_view(t.postal_code),
        t.country_code is None ==> again.country_code is None,
        again.created_at == t.created_at && again.created_by == t.created_by,
        again.updated_at == t.updated_at && again.updated_by == t.updated_by,
{
    stored_address_reads_back(address_part_json(u), address_part(t), address_part_json(back), address_part(again));
}

} // verus!
