use kremlin::commons::exception_response::ExceptionResponse;
use kremlin::commons::i18n::{ErrorKey, Locale};
use kremlin::endpoints::catalog_import_endpoint::{
    category_display_name, category_slug, deserialize_bool_lenient, deserialize_empty_as_none,
    deserialize_origem_lenient, deserialize_price_cents, row_is_valid, sku_link_action, stock_action,
    validate_import_rows, wine_attributes, CatalogRow, ImportCounts, InvalidField, LenientValue,
    import_source, read_rows, requested_tenant, ImportSource,
    LinkAction, StockAction,
};

fn text(s: &str) -> LenientValue {
    LenientValue::Text(s.to_string())
}

fn row() -> CatalogRow {
    CatalogRow {
        product_key: "pk-1".to_string(),
        category_key: "vinhos-tintos".to_string(),
        category_name: Some("Vinhos Tintos".to_string()),
        product_name: "Vinho Teste".to_string(),
        slug: "vinho-teste".to_string(),
        description: None,
        brand: None,
        ncm: "22042100".to_string(),
        cest: None,
        origem_mercadoria: 0,
        code: "SKU-001".to_string(),
        variant_key: "750ml".to_string(),
        price_cents: 9900,
        compare_at_price_cents: None,
        stock_quantity: None,
        weight_g: None,
        width_mm: None,
        height_mm: None,
        length_mm: None,
        active: true,
        country: Some("Brasil".to_string()),
        region: None,
        grape: None,
        vintage: None,
        alcohol: None,
        volume: None,
        color: Some("Tinto".to_string()),
    }
}

#[test]
fn optional_integer_cells_are_lenient() {
    assert_eq!(deserialize_empty_as_none(LenientValue::Missing), Ok(None));
    assert_eq!(deserialize_empty_as_none(text("   ")), Ok(None));
    assert_eq!(deserialize_empty_as_none(text(" 42 ")), Ok(Some(42)));
    assert_eq!(deserialize_empty_as_none(text("-7")), Ok(Some(-7)));
    assert_eq!(deserialize_empty_as_none(LenientValue::Int(12)), Ok(Some(12)));
    assert_eq!(deserialize_empty_as_none(LenientValue::Int(3_000_000_000)), Err(InvalidField));
    assert_eq!(deserialize_empty_as_none(text("4x")), Err(InvalidField));
    assert_eq!(deserialize_empty_as_none(LenientValue::Bool(true)), Err(InvalidField));
    assert_eq!(deserialize_empty_as_none(LenientValue::Other), Err(InvalidField));
}

#[test]
fn price_cells_are_lenient() {
    assert_eq!(deserialize_price_cents(LenientValue::Int(9900)), Ok(9900));
    assert_eq!(deserialize_price_cents(text("")), Ok(0));
    assert_eq!(deserialize_price_cents(text(" 150 ")), Ok(150));
    assert_eq!(deserialize_price_cents(LenientValue::Missing), Err(InvalidField));
    assert_eq!(deserialize_price_cents(text("1.5")), Err(InvalidField));
    assert_eq!(deserialize_price_cents(LenientValue::Other), Err(InvalidField));
}

#[test]
fn origem_cells_are_lenient() {
    assert_eq!(deserialize_origem_lenient(LenientValue::Missing), Ok(0));
    assert_eq!(deserialize_origem_lenient(text(" ")), Ok(0));
    assert_eq!(deserialize_origem_lenient(LenientValue::Int(1)), Ok(1));
    assert_eq!(deserialize_origem_lenient(text("2")), Ok(2));
    assert_eq!(deserialize_origem_lenient(LenientValue::Int(40_000)), Err(InvalidField));
    assert_eq!(deserialize_origem_lenient(text("40000")), Err(InvalidField));
}

#[test]
fn boolean_cells_are_lenient() {
    assert_eq!(deserialize_bool_lenient(LenientValue::Missing), Ok(true));
    assert_eq!(deserialize_bool_lenient(LenientValue::Bool(false)), Ok(false));
    assert_eq!(deserialize_bool_lenient(LenientValue::Int(0)), Ok(false));
    assert_eq!(deserialize_bool_lenient(LenientValue::Int(-3)), Ok(true));
    for yes in ["", "true", "1", "t", "yes", "sim", " SIM ", "True"] {
        assert_eq!(deserialize_bool_lenient(text(yes)), Ok(true), "{yes}");
    }
    for no in ["false", "0", "f", "no", "nao", "não", "NÃO", " No "] {
        assert_eq!(deserialize_bool_lenient(text(no)), Ok(false), "{no}");
    }
    assert_eq!(deserialize_bool_lenient(text("maybe")), Err(InvalidField));
    assert_eq!(deserialize_bool_lenient(LenientValue::Other), Err(InvalidField));
}

#[test]
fn rows_need_name_slug_code_and_a_price() {
    assert!(row_is_valid(&row()));
    let mut r = row();
    r.slug = "  ".to_string();
    assert!(!row_is_valid(&r));
    let mut r = row();
    r.price_cents = -1;
    assert!(!row_is_valid(&r));
    let mut r = row();
    r.price_cents = 0;
    assert!(row_is_valid(&r));
    assert!(validate_import_rows(&vec![row(), row()], Locale::En).is_ok());
    let mut bad = row();
    bad.code = String::new();
    assert!(matches!(
        validate_import_rows(&vec![row(), bad], Locale::PtBr),
        Err(ExceptionResponse::BadRequest(Locale::PtBr, ErrorKey::InvalidParameterValue))
    ));
    assert!(matches!(
        validate_import_rows(&vec![], Locale::En),
        Err(ExceptionResponse::BadRequest(Locale::En, ErrorKey::InvalidParameterValue))
    ));
}

#[test]
fn category_slug_and_name() {
    assert_eq!(category_slug("  Vinhos Tintos "), "vinhos-tintos");
    assert_eq!(category_slug("Espumantes Rosé"), "espumantes-rosé");
    assert_eq!(category_slug("   "), "geral");
    assert_eq!(category_slug(""), "geral");
    assert_eq!(category_display_name(&Some(" Tintos ".to_string()), "x"), "Tintos");
    assert_eq!(category_display_name(&Some("  ".to_string()), " vinhos "), "vinhos");
    assert_eq!(category_display_name(&None, "  "), "Geral");
}

#[test]
fn stock_changes_only_when_given() {
    assert_eq!(stock_action(Some(5), true), StockAction::Replace(5));
    assert_eq!(stock_action(None, true), StockAction::Keep);
    assert_eq!(stock_action(None, false), StockAction::Create(36));
    assert_eq!(stock_action(Some(0), false), StockAction::Create(0));
}

#[test]
fn sku_links_change_only_when_they_differ() {
    assert_eq!(sku_link_action(None, 1, 2), LinkAction::Create);
    assert_eq!(sku_link_action(Some((1, 2)), 1, 2), LinkAction::Keep);
    assert_eq!(sku_link_action(Some((1, 3)), 1, 2), LinkAction::Update);
    assert_eq!(sku_link_action(Some((4, 2)), 1, 2), LinkAction::Update);
}

#[test]
fn wine_attributes_keep_their_position_among_named_ones() {
    let mut r = row();
    r.grape = Some("  ".to_string());
    r.alcohol = Some(" 13% ".to_string());
    let attrs = wine_attributes(&r);
    let seen: Vec<(i32, &str, &str)> = attrs.iter().map(|a| (a.sort_order, a.name, a.value.as_str())).collect();
    assert_eq!(
        seen,
        vec![(0, "País", "Brasil"), (2, "Teor Alcoólico", "13%"), (3, "Volume", "750ml"), (4, "Cor", "Tinto")]
    );
    let mut r = row();
    r.volume = Some("1L".to_string());
    r.country = None;
    r.color = None;
    let attrs = wine_attributes(&r);
    assert_eq!(attrs.len(), 1);
    assert_eq!((attrs[0].sort_order, attrs[0].name, attrs[0].value.as_str()), (0, "Volume", "1L"));
    let mut r = row();
    r.variant_key = String::new();
    r.country = None;
    r.color = None;
    assert!(wine_attributes(&r).is_empty());
}

#[test]
fn every_imported_row_is_counted_once() {
    let mut counts = ImportCounts::new();
    for existed in [true, false, false, true, false] {
        counts.record_sku(existed);
    }
    let result = counts.result(5);
    assert_eq!((result.total, result.created, result.updated, result.unchanged), (5, 3, 2, 0));
    assert_eq!(result.created + result.updated, result.total);
    assert!(result.errors.is_empty());
}

/// A CSV cell as the lenient readers take it: an empty or missing cell is
/// no value, `true`/`false` a boolean, an integer a number, anything else
/// text.
fn csv_cell(cell: Option<&str>) -> LenientValue {
    match cell {
        None | Some("") => LenientValue::Missing,
        Some("true") => LenientValue::Bool(true),
        Some("false") => LenientValue::Bool(false),
        Some(t) => match t.parse::<i64>() {
            Ok(n) => LenientValue::Int(n),
            Err(_) => LenientValue::Text(t.to_string()),
        },
    }
}

/// Reads catalogue rows from CSV text with a header line, each cell through
/// the library's lenient readers.
fn csv_rows(csv_data: &str) -> Vec<CatalogRow> {
    let mut reader = csv::ReaderBuilder::new().flexible(true).trim(csv::Trim::All).from_reader(csv_data.as_bytes());
    let headers = reader.headers().unwrap().clone();
    let mut rows = Vec::new();
    for record in reader.records() {
        let record = record.unwrap();
        let get = |name: &str| headers.iter().position(|h| h == name).and_then(|i| record.get(i));
        let text = |name: &str| get(name).unwrap_or("").to_string();
        let optional = |name: &str| get(name).filter(|s| !s.is_empty()).map(|s| s.to_string());
        let number = |name: &str| deserialize_empty_as_none(csv_cell(get(name))).unwrap();
        rows.push(CatalogRow {
            product_key: text("product_key"),
            category_key: text("category_key"),
            category_name: optional("category_name"),
            product_name: text("product_name"),
            slug: text("slug"),
            description: optional("description"),
            brand: optional("brand"),
            ncm: text("ncm"),
            cest: optional("cest"),
            origem_mercadoria: deserialize_origem_lenient(csv_cell(get("origem_mercadoria"))).unwrap(),
            code: text("code"),
            variant_key: text("variant_key"),
            price_cents: match get("price_cents") {
                None => 0,
                Some(_) => deserialize_price_cents(csv_cell(get("price_cents"))).unwrap(),
            },
            compare_at_price_cents: number("compare_at_price_cents"),
            stock_quantity: number("stock_quantity"),
            weight_g: number("weight_g"),
            width_mm: number("width_mm"),
            height_mm: number("height_mm"),
            length_mm: number("length_mm"),
            active: deserialize_bool_lenient(csv_cell(get("active"))).unwrap(),
            country: optional("country"),
            region: optional("region"),
            grape: optional("grape"),
            vintage: optional("vintage"),
            alcohol: optional("alcohol"),
            volume: optional("volume"),
            color: optional("color"),
        });
    }
    rows
}

#[test]
fn test_lenient_csv_deserialization_with_empty_fields() {
    let csv_data = "product_key,category_key,category_name,product_name,slug,description,brand,ncm,cest,origem_mercadoria,code,variant_key,price_cents,compare_at_price_cents,stock_quantity,weight_g,width_mm,height_mm,length_mm,active,country,region,grape,vintage,alcohol,volume,color\n\
    pk-1,vinhos-tintos,Vinhos Tintos,Vinho Teste,vinho-teste,,,22042100,,0,SKU-001,750ml,9900,,,,,,,true,Brasil,,,,,,Tinto\n";

    let rows = csv_rows(csv_data);

    assert_eq!(rows.len(), 1);
    let row = &rows[0];
    assert_eq!(row.product_name, "Vinho Teste");
    assert_eq!(row.price_cents, 9900);
    assert_eq!(row.compare_at_price_cents, None);
    assert_eq!(row.stock_quantity, None);
    assert_eq!(row.weight_g, None);
    assert_eq!(row.description, None);
    assert_eq!(row.cest, None);
    assert!(row.active);
    assert_eq!(row.country.as_deref(), Some("Brasil"));
    assert_eq!(row.color.as_deref(), Some("Tinto"));
}

#[test]
fn test_lenient_boolean_and_numeric_parsing() {
    let csv_data = "product_name,slug,code,price_cents,active,origem_mercadoria\n\
    W1,w-1,C-1,1000,1,0\n\
    W2,w-2,C-2,2000,0,1\n\
    W3,w-3,C-3,3000,true,0\n\
    W4,w-4,C-4,4000,false,1\n";

    let rows = csv_rows(csv_data);

    assert_eq!(rows.len(), 4);
    assert!(rows[0].active);
    assert!(!rows[1].active);
    assert!(rows[2].active);
    assert!(!rows[3].active);
}

#[test]
fn import_forms_pick_their_source_and_tenant() {
    assert_eq!(requested_tenant(Some("42")), Some(42));
    assert_eq!(requested_tenant(Some("+7")), Some(7));
    assert_eq!(requested_tenant(Some("0")), None);
    assert_eq!(requested_tenant(Some("-3")), None);
    assert_eq!(requested_tenant(Some("abc")), None);
    assert_eq!(requested_tenant(Some(" 5")), None);
    assert_eq!(requested_tenant(None), None);

    let both = import_source(Some("[]".to_string()), Some(b"a,b".to_vec()), Locale::En).unwrap();
    assert!(matches!(both, ImportSource::EditedRows(ref j) if j == "[]"));
    let file = import_source(None, Some(b"a,b".to_vec()), Locale::En).unwrap();
    assert!(matches!(file, ImportSource::File(ref b) if b == b"a,b"));
    assert!(matches!(
        import_source(None, None, Locale::PtBr),
        Err(ExceptionResponse::BadRequest(Locale::PtBr, ErrorKey::RequiredParameterMissing))
    ));

    assert!(matches!(
        read_rows(None, Locale::En),
        Err(ExceptionResponse::BadRequest(Locale::En, ErrorKey::InvalidParameterValue))
    ));
    assert_eq!(read_rows(Some(vec![row()]), Locale::En).unwrap().len(), 1);
}
