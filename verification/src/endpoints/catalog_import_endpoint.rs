//! Catalogue import: how lenient spreadsheet cells are read, which rows are
//! accepted, and what each accepted row writes.
use crate::commons::exception_response::ExceptionResponse;
use crate::commons::i18n::{opt_view, ErrorKey, Locale};
use crate::infrastructure::mapper::text_view;
use crate::text::{
    is_blank, is_blank_str, is_white_space, lemma_white_space_is_blank, parse_i16, parse_i32, parse_i64, parse_in_range, replace_char, replace_char_str,
    str_eq, str_to_lowercase, trim, trim_str, unicode_lowercase,
};
use vstd::prelude::*;

verus! {

// ------------------------------------------------------------------
// Lenient cells
// ------------------------------------------------------------------

/// A spreadsheet or JSON cell as it was read: absent (empty or `null`), a
/// boolean, an integer, a text, or anything else (such as a fraction).
#[derive(Debug, Clone)]
pub enum LenientValue {
    Missing,
    Bool(bool),
    Int(i64),
    Text(String),
    Other,
}

/// A cell that cannot be read as the column asks.
#[derive(Debug, Clone, Copy, PartialEq, Eq, Structural)]
pub struct InvalidField;

/// An optional integer cell: absent or blank text is no value; an integer
/// in `lo..=hi`, or a text that reads as one once trimmed, is that value;
/// anything else is invalid.
pub open spec fn optional_int_cell(v: LenientValue, lo: int, hi: int) -> Result<Option<int>, InvalidField> {
    match v {
        LenientValue::Missing => Ok(None),
        LenientValue::Int(n) => if lo <= n <= hi {
            Ok(Some(n as int))
        } else {
            Err(InvalidField)
        },
        LenientValue::Text(s) => if trim(s@).len() == 0 {
            Ok(None)
        } else {
            match parse_in_range(trim(s@), lo, hi) {
                Some(x) => Ok(Some(x)),
                None => Err(InvalidField),
            }
        },
        _ => Err(InvalidField),
    }
}

/// Reads an optional 32-bit integer cell: blank means no value.
pub fn deserialize_empty_as_none(v: LenientValue) -> (r: Result<Option<i32>, InvalidField>)
    ensures
        match optional_int_cell(v, i32::MIN as int, i32::MAX as int) {
            Ok(Some(x)) => r == Ok::<Option<i32>, InvalidField>(Some(x as i32)),
            Ok(None) => r == Ok::<Option<i32>, InvalidField>(None),
            Err(e) => r == Err::<Option<i32>, InvalidField>(e),
        },
{
    match v {
        LenientValue::Missing => Ok(None),
        LenientValue::Int(n) => {
            if i32::MIN as i64 <= n && n <= i32::MAX as i64 {
                Ok(Some(n as i32))
            } else {
                Err(InvalidField)
            }
        },
        LenientValue::Text(s) => {
            let t = trim_str(s.as_str());
            if t.as_str().unicode_len() == 0 {
                Ok(None)
            } else {
                match parse_i32(t.as_str()) {
                    Some(x) => Ok(Some(x)),
                    None => Err(InvalidField),
                }
            }
        },
        _ => Err(InvalidField),
    }
}

/// A price cell: an integer in range, or a text that reads as one once
/// trimmed; blank text is zero. An absent or other cell is invalid.
pub open spec fn price_cell(v: LenientValue) -> Result<int, InvalidField> {
    match v {
        LenientValue::Int(n) => if i32::MIN <= n <= i32::MAX {
            Ok(n as int)
        } else {
            Err(InvalidField)
        },
        LenientValue::Text(s) => if trim(s@).len() == 0 {
            Ok(0)
        } else {
            match parse_in_range(trim(s@), i32::MIN as int, i32::MAX as int) {
                Some(x) => Ok(x),
                None => Err(InvalidField),
            }
        },
        _ => Err(InvalidField),
    }
}

/// Reads a price in cents.
pub fn deserialize_price_cents(v: LenientValue) -> (r: Result<i32, InvalidField>)
    ensures
        match price_cell(v) {
            Ok(x) => r == Ok::<i32, InvalidField>(x as i32),
            Err(e) => r == Err::<i32, InvalidField>(e),
        },
{
    match v {
        LenientValue::Int(n) => {
            if i32::MIN as i64 <= n && n <= i32::MAX as i64 {
                Ok(n as i32)
            } else {
                Err(InvalidField)
            }
        },
        LenientValue::Text(s) => {
            let t = trim_str(s.as_str());
            if t.as_str().unicode_len() == 0 {
                Ok(0)
            } else {
                match parse_i32(t.as_str()) {
                    Some(x) => Ok(x),
                    None => Err(InvalidField),
                }
            }
        },
        _ => Err(InvalidField),
    }
}

/// A goods-origin cell: absent or blank is zero; otherwise a 16-bit
/// integer, given as one or as text.
pub open spec fn origem_cell(v: LenientValue) -> Result<int, InvalidField> {
    match v {
        LenientValue::Missing => Ok(0),
        LenientValue::Int(n) => if i16::MIN <= n <= i16::MAX {
            Ok(n as int)
        } else {
            Err(InvalidField)
        },
        LenientValue::Text(s) => if trim(s@).len() == 0 {
            Ok(0)
        } else {
            match parse_in_range(trim(s@), i16::MIN as int, i16::MAX as int) {
                Some(x) => Ok(x),
                None => Err(InvalidField),
            }
        },
        _ => Err(InvalidField),
    }
}

/// Reads the goods-origin code of a product.
pub fn deserialize_origem_lenient(v: LenientValue) -> (r: Result<i16, InvalidField>)
    ensures
        match origem_cell(v) {
            Ok(x) => r == Ok::<i16, InvalidField>(x as i16),
            Err(e) => r == Err::<i16, InvalidField>(e),
        },
{
    match v {
        LenientValue::Missing => Ok(0),
        LenientValue::Int(n) => {
            if i16::MIN as i64 <= n && n <= i16::MAX as i64 {
                Ok(n as i16)
            } else {
                Err(InvalidField)
            }
        },
        LenientValue::Text(s) => {
            let t = trim_str(s.as_str());
            if t.as_str().unicode_len() == 0 {
                Ok(0)
            } else {
                match parse_i16(t.as_str()) {
                    Some(x) => Ok(x),
                    None => Err(InvalidField),
                }
            }
        },
        _ => Err(InvalidField),
    }
}

/// The words read as yes and as no, once trimmed and lower-cased.
pub open spec fn yes_word(t: Seq<char>) -> bool {
    t == ""@ || t == "true"@ || t == "1"@ || t == "t"@ || t == "yes"@ || t == "sim"@
}

pub open spec fn no_word(t: Seq<char>) -> bool {
    t == "false"@ || t == "0"@ || t == "f"@ || t == "no"@ || t == "nao"@ || t == "não"@
}

/// A yes/no cell: absent is yes; a boolean is itself; an integer is yes
/// unless zero; a text is read by its words, in Unicode lower case.
pub open spec fn bool_cell(v: LenientValue) -> Result<bool, InvalidField> {
    match v {
        LenientValue::Missing => Ok(true),
        LenientValue::Bool(b) => Ok(b),
        LenientValue::Int(i) => Ok(i != 0),
        LenientValue::Text(s) => {
            let t = unicode_lowercase(trim(s@));
            if yes_word(t) {
                Ok(true)
            } else if no_word(t) {
                Ok(false)
            } else {
                Err(InvalidField)
            }
        },
        LenientValue::Other => Err(InvalidField),
    }
}

/// Reads a yes/no cell.
pub fn deserialize_bool_lenient(v: LenientValue) -> (r: Result<bool, InvalidField>)
    ensures
        r == bool_cell(v),
{
    match v {
        LenientValue::Missing => Ok(true),
        LenientValue::Bool(b) => Ok(b),
        LenientValue::Int(i) => Ok(i != 0),
        LenientValue::Text(s) => {
            let trimmed = trim_str(s.as_str());
            let lowered = str_to_lowercase(trimmed.as_str());
            let t = lowered.as_str();
            if str_eq(t, "") || str_eq(t, "true") || str_eq(t, "1") || str_eq(t, "t") || str_eq(
                t,
                "yes",
            ) || str_eq(t, "sim") {
                Ok(true)
            } else if str_eq(t, "false") || str_eq(t, "0") || str_eq(t, "f") || str_eq(t, "no")
                || str_eq(t, "nao") || str_eq(t, "não") {
                Ok(false)
            } else {
                Err(InvalidField)
            }
        },
        LenientValue::Other => Err(InvalidField),
    }
}

// ------------------------------------------------------------------
// Rows
// ------------------------------------------------------------------

/// One product/SKU row of a catalogue import.
#[derive(Debug, Clone)]
pub struct CatalogRow {
    pub product_key: String,
    pub category_key: String,
    pub category_name: Option<String>,
    pub product_name: String,
    pub slug: String,
    pub description: Option<String>,
    pub brand: Option<String>,
    pub ncm: String,
    pub cest: Option<String>,
    pub origem_mercadoria: i16,
    pub code: String,
    pub variant_key: String,
    pub price_cents: i32,
    pub compare_at_price_cents: Option<i32>,
    pub stock_quantity: Option<i32>,
    pub weight_g: Option<i32>,
    pub width_mm: Option<i32>,
    pub height_mm: Option<i32>,
    pub length_mm: Option<i32>,
    pub active: bool,
    pub country: Option<String>,
    pub region: Option<String>,
    pub grape: Option<String>,
    pub vintage: Option<String>,
    pub alcohol: Option<String>,
    pub volume: Option<String>,
    pub color: Option<String>,
}

/// A row can be imported: it names a product, a slug and a SKU code, and
/// its price is not negative.
pub open spec fn row_acceptable(row: CatalogRow) -> bool {
    !is_blank(row.product_name@) && !is_blank(row.slug@) && !is_blank(row.code@) && row.price_cents >= 0
}

/// Whether a row can be imported.
pub fn row_is_valid(row: &CatalogRow) -> (r: bool)
    ensures
        r == row_acceptable(*row),
{
    !is_blank_str(row.product_name.as_str()) && !is_blank_str(row.slug.as_str()) && !is_blank_str(
        row.code.as_str(),
    ) && row.price_cents >= 0
}

/// An import is refused as a whole when it has no rows or any row cannot
/// be imported; nothing of it is written then.
pub fn validate_import_rows(rows: &Vec<CatalogRow>, locale: Locale) -> (r: Result<(), ExceptionResponse>)
    ensures
        r is Ok <==> rows@.len() > 0 && forall|i: int| 0 <= i < rows@.len() ==> row_acceptable(#[trigger] rows@[i]),
        r matches Err(e) ==> e == ExceptionResponse::BadRequest(locale, ErrorKey::InvalidParameterValue),
{
    if rows.len() == 0 {
        return Err(ExceptionResponse::BadRequest(locale, ErrorKey::InvalidParameterValue));
    }
    let mut i: usize = 0;
    while i < rows.len()
        invariant
            i <= rows@.len(),
            forall|k: int| 0 <= k < i ==> row_acceptable(#[trigger] rows@[k]),
        decreases rows@.len() - i,
    {
        if !row_is_valid(&rows[i]) {
            return Err(ExceptionResponse::BadRequest(locale, ErrorKey::InvalidParameterValue));
        }
        i = i + 1;
    }
    Ok(())
}

/// The slug of a row's category: `geral` when the key is blank, else the
/// key trimmed, in Unicode lower case, with spaces turned into `-`.
pub open spec fn category_slug_of(key: Seq<char>) -> Seq<char> {
    if is_blank(key) {
        "geral"@
    } else {
        replace_char(unicode_lowercase(trim(key)), ' ', '-')
    }
}

/// The slug of a row's category.
pub fn category_slug(key: &str) -> (r: String)
    ensures
        r@ == category_slug_of(key@),
{
    let t = trim_str(key);
    if t.as_str().unicode_len() == 0 {
        String::from_str("geral")
    } else {
        let lowered = str_to_lowercase(t.as_str());
        replace_char_str(lowered.as_str(), ' ', '-')
    }
}

/// The name a category created by an import gets: the row's category name
/// when it has text, else its category key, else `Geral`; trimmed.
pub open spec fn category_display_name_of(name: Option<Seq<char>>, key: Seq<char>) -> Seq<char> {
    if name matches Some(n) && !is_blank(n) {
        trim(name->0)
    } else if !is_blank(key) {
        trim(key)
    } else {
        "Geral"@
    }
}

/// The name of a category created by an import.
pub fn category_display_name(name: &Option<String>, key: &str) -> (r: String)
    ensures
        r@ == category_display_name_of(text_view(*name), key@),
{
    match name {
        Some(n) => {
            let t = trim_str(n.as_str());
            if t.as_str().unicode_len() > 0 {
                return t;
            }
        },
        None => {},
    }
    let k = trim_str(key);
    if k.as_str().unicode_len() > 0 {
        k
    } else {
        String::from_str("Geral")
    }
}

/// The stock quantity a new SKU starts with when the row gives none.
pub const DEFAULT_STOCK_QUANTITY: i32 = 36;

/// What an import does to a SKU's stock.
#[derive(Debug, Clone, Copy, PartialEq, Eq, Structural)]
pub enum StockAction {
    /// Leave the existing stock as it is.
    Keep,
    /// Set the existing stock to this quantity.
    Replace(i32),
    /// Create the stock with this quantity and nothing reserved.
    Create(i32),
}

/// Existing stock changes only when the row gives a quantity; missing
/// stock is created with the row's quantity, or the default one.
pub fn stock_action(requested: Option<i32>, stock_exists: bool) -> (r: StockAction)
    ensures
        stock_exists && requested is Some ==> r == StockAction::Replace(requested->0),
        stock_exists && requested is None ==> r == StockAction::Keep,
        !stock_exists ==> r == StockAction::Create(
            match requested {
                Some(q) => q,
                None => DEFAULT_STOCK_QUANTITY,
            },
        ),
{
    if stock_exists {
        match requested {
            Some(q) => StockAction::Replace(q),
            None => StockAction::Keep,
        }
    } else {
        match requested {
            Some(q) => StockAction::Create(q),
            None => StockAction::Create(DEFAULT_STOCK_QUANTITY),
        }
    }
}

/// What an import does to the attribute value a SKU is linked to.
#[derive(Debug, Clone, Copy, PartialEq, Eq, Structural)]
pub enum LinkAction {
    Keep,
    Update,
    Create,
}

/// A SKU's link to an attribute is created when missing, and rewritten
/// only when it points at another value or product attribute. `existing`
/// is the linked value id and product attribute id.
pub fn sku_link_action(existing: Option<(i64, i64)>, value_id: i64, product_attribute_id: i64) -> (r: LinkAction)
    ensures
        existing is None ==> r == LinkAction::Create,
        existing matches Some((v, p)) ==> (r == if v != value_id || p != product_attribute_id {
            LinkAction::Update
        } else {
            LinkAction::Keep
        }),
{
    match existing {
        None => LinkAction::Create,
        Some((v, p)) => {
            if v != value_id || p != product_attribute_id {
                LinkAction::Update
            } else {
                LinkAction::Keep
            }
        },
    }
}

// ------------------------------------------------------------------
// Wine attributes
// ------------------------------------------------------------------

/// One attribute value a row gives its SKU.
#[derive(Debug, Clone)]
pub struct WineAttribute {
    /// The attribute's position among the attributes the row names.
    pub sort_order: i32,
    pub name: &'static str,
    /// The value, trimmed.
    pub value: String,
}

pub open spec fn attribute_view(a: WineAttribute) -> (int, Seq<char>, Seq<char>) {
    (a.sort_order as int, a.name@, a.value@)
}

/// `(name, value)` when the value is given.
pub open spec fn present(name: Seq<char>, v: Option<Seq<char>>) -> Seq<(Seq<char>, Seq<char>)> {
    match v {
        Some(x) => seq![(name, x)],
        None => Seq::empty(),
    }
}

/// A row's volume: its own, else its variant key when that is not empty.
pub open spec fn volume_of(row: CatalogRow) -> Option<Seq<char>> {
    if row.volume is Some {
        text_view(row.volume)
    } else if row.variant_key@.len() > 0 {
        Some(row.variant_key@)
    } else {
        None
    }
}

/// The attributes a row names, in this order: country, region, grape,
/// vintage, alcohol, volume and colour.
pub open spec fn attribute_candidates(row: CatalogRow) -> Seq<(Seq<char>, Seq<char>)> {
    present("País"@, text_view(row.country)) + present("Região"@, text_view(row.region)) + present(
        "Uva"@,
        text_view(row.grape),
    ) + present("Safra"@, text_view(row.vintage)) + present("Teor Alcoólico"@, text_view(row.alcohol))
        + present("Volume"@, volume_of(row)) + present("Cor"@, text_view(row.color))
}

/// The named attributes whose value is not blank, each with its position
/// among all named ones and its value trimmed.
pub open spec fn kept_attributes(c: Seq<(Seq<char>, Seq<char>)>) -> Seq<(int, Seq<char>, Seq<char>)>
    decreases c.len(),
{
    if c.len() == 0 {
        Seq::empty()
    } else {
        let prev = kept_attributes(c.drop_last());
        if is_blank(c.last().1) {
            prev
        } else {
            prev.push((c.len() - 1, c.last().0, trim(c.last().1)))
        }
    }
}

pub open spec fn candidate_view(p: (&'static str, String)) -> (Seq<char>, Seq<char>) {
    (p.0@, p.1@)
}

fn push_candidate(v: &mut Vec<(&'static str, String)>, name: &'static str, value: &Option<String>)
    ensures
        final(v)@.map_values(|p: (&'static str, String)| candidate_view(p)) == old(v)@.map_values(
            |p: (&'static str, String)| candidate_view(p),
        ) + present(name@, text_view(*value)),
{
    match value {
        Some(x) => {
            v.push((name, x.clone()));
            assert(final(v)@.map_values(|p: (&'static str, String)| candidate_view(p)) =~= old(v)@.map_values(
                |p: (&'static str, String)| candidate_view(p),
            ) + present(name@, text_view(*value)));
        },
        None => {
            assert(old(v)@.map_values(|p: (&'static str, String)| candidate_view(p)) + present(name@, text_view(*value))
                =~= old(v)@.map_values(|p: (&'static str, String)| candidate_view(p)));
        },
    }
}

/// The wine attributes a row gives its SKU.
pub fn wine_attributes(row: &CatalogRow) -> (r: Vec<WineAttribute>)
    ensures
        r@.map_values(|a: WineAttribute| attribute_view(a)) == kept_attributes(attribute_candidates(*row)),
{
    let mut cands: Vec<(&'static str, String)> = Vec::new();
    assert(cands@.map_values(|p: (&'static str, String)| candidate_view(p)) =~= Seq::<(Seq<char>, Seq<char>)>::empty());
    push_candidate(&mut cands, "País", &row.country);
    push_candidate(&mut cands, "Região", &row.region);
    push_candidate(&mut cands, "Uva", &row.grape);
    push_candidate(&mut cands, "Safra", &row.vintage);
    push_candidate(&mut cands, "Teor Alcoólico", &row.alcohol);
    let volume: Option<String> = match &row.volume {
        Some(x) => Some(x.clone()),
        None => if row.variant_key.as_str().unicode_len() > 0 {
            Some(row.variant_key.clone())
        } else {
            None
        },
    };
    push_candidate(&mut cands, "Volume", &volume);
    push_candidate(&mut cands, "Cor", &row.color);
    let ghost c = cands@.map_values(|p: (&'static str, String)| candidate_view(p));
    assert(c =~= attribute_candidates(*row));
    let mut out: Vec<WineAttribute> = Vec::new();
    let mut i: usize = 0;
    assert(c.take(0) =~= Seq::<(Seq<char>, Seq<char>)>::empty());
    assert(out@.map_values(|a: WineAttribute| attribute_view(a)) =~= kept_attributes(c.take(0)));
    while i < cands.len()
        invariant
            c == cands@.map_values(|p: (&'static str, String)| candidate_view(p)),
            cands@.len() <= 7,
            i <= cands@.len(),
            out@.map_values(|a: WineAttribute| attribute_view(a)) == kept_attributes(c.take(i as int)),
        decreases cands@.len() - i,
    {
        let name = cands[i].0;
        let t = trim_str(cands[i].1.as_str());
        assert(c.take(i + 1).drop_last() =~= c.take(i as int));
        assert(c.take(i + 1).last() == candidate_view(cands@[i as int]));
        if t.as_str().unicode_len() > 0 {
            let ghost before = out@;
            out.push(WineAttribute { sort_order: i as i32, name, value: t });
            assert(out@.map_values(|a: WineAttribute| attribute_view(a)) =~= before.map_values(
                |a: WineAttribute| attribute_view(a),
            ).push((i as int, name@, trim(cands@[i as int].1@))));
        }
        i = i + 1;
    }
    assert(c.take(cands@.len() as int) =~= c);
    out
}

/// Catalog import result.
#[derive(Debug, Clone)]
pub struct CatalogImportResult {
    pub total: usize,
    pub created: usize,
    pub updated: usize,
    pub unchanged: usize,
    pub errors: Vec<String>,
}

// ------------------------------------------------------------------
// Counting
// ------------------------------------------------------------------

/// SKUs created and updated so far by an import.
#[derive(Debug, Clone, Copy, PartialEq, Eq, Structural)]
pub struct ImportCounts {
    pub created: usize,
    pub updated: usize,
}

/// The counts after rows whose SKU existed or not, in order.
pub open spec fn counts_after(existed: Seq<bool>) -> (nat, nat)
    decreases existed.len(),
{
    if existed.len() == 0 {
        (0, 0)
    } else {
        let (c, u) = counts_after(existed.drop_last());
        if existed.last() {
            (c, u + 1)
        } else {
            (c + 1, u)
        }
    }
}

/// Every imported row is counted once: as created when its SKU was new,
/// as updated when it existed.
pub proof fn every_imported_row_is_counted_once(existed: Seq<bool>)
    ensures
        counts_after(existed).0 + counts_after(existed).1 == existed.len(),
    decreases existed.len(),
{
    if existed.len() > 0 {
        every_imported_row_is_counted_once(existed.drop_last());
    }
}

impl ImportCounts {
    /// No SKU counted yet.
    pub fn new() -> (r: ImportCounts)
        ensures
            r.created == 0 && r.updated == 0,
    {
        ImportCounts { created: 0, updated: 0 }
    }

    /// Counts one imported row's SKU: updated when it existed, else created.
    pub fn record_sku(&mut self, existed: bool)
        requires
            old(self).created + old(self).updated < usize::MAX,
        ensures
            existed ==> final(self).updated == old(self).updated + 1 && final(self).created == old(
                self,
            ).created,
            !existed ==> final(self).created == old(self).created + 1 && final(self).updated == old(
                self,
            ).updated,
    {
        if existed {
            self.updated = self.updated + 1;
        } else {
            self.created = self.created + 1;
        }
    }

    /// The result of an import of `total` rows: nothing is ever left
    /// unchanged or reported as an error, since a failing row fails the
    /// whole import.
    pub fn result(&self, total: usize) -> (r: CatalogImportResult)
        ensures
            r.total == total,
            r.created == self.created,
            r.updated == self.updated,
            r.unchanged == 0,
            r.errors@.len() == 0,
    {
        CatalogImportResult {
            total,
            created: self.created,
            updated: self.updated,
            unchanged: 0,
            errors: Vec::new(),
        }
    }
}

/// The tenant an import form asks for: its `tenantId` field read as an
/// integer, kept only when positive.
pub open spec fn requested_import_tenant(field: Option<Seq<char>>) -> Option<i64> {
    match field {
        Some(t) => match parse_in_range(t, i64::MIN as int, i64::MAX as int) {
            Some(n) => if n > 0 {
                Some(n as i64)
            } else {
                None
            },
            None => None,
        },
        None => None,
    }
}

/// Reads the `tenantId` field of an import form.
pub fn requested_tenant(field: Option<&str>) -> (r: Option<i64>)
    ensures
        r == requested_import_tenant(opt_view(field)),
{
    match field {
        Some(t) => match parse_i64(t) {
            Some(n) => if n > 0 {
                Some(n)
            } else {
                None
            },
            None => None,
        },
        None => None,
    }
}

/// Where an import's rows are read from.
#[derive(Debug, Clone)]
pub enum ImportSource {
    /// Rows edited in the browser, as JSON text.
    EditedRows(String),
    /// An uploaded CSV file.
    File(Vec<u8>),
}

/// Picks the rows to import: edited rows win over an uploaded file; a form
/// with neither is a bad request for a missing parameter.
pub fn import_source(edited_rows: Option<String>, file: Option<Vec<u8>>, locale: Locale) -> (r: Result<
    ImportSource,
    ExceptionResponse,
>)
    ensures
        match edited_rows {
            Some(j) => r matches Ok(ImportSource::EditedRows(x)) && x == j,
            None => match file {
                Some(b) => r matches Ok(ImportSource::File(x)) && x@ == b@,
                None => r == Err::<ImportSource, ExceptionResponse>(
                    ExceptionResponse::BadRequest(locale, ErrorKey::RequiredParameterMissing),
                ),
            },
        },
{
    match edited_rows {
        Some(j) => Ok(ImportSource::EditedRows(j)),
        None => match file {
            Some(b) => Ok(ImportSource::File(b)),
            None => Err(ExceptionResponse::BadRequest(locale, ErrorKey::RequiredParameterMissing)),
        },
    }
}

/// The rows an import goes on with: rows that could not be read, from
/// either source, are a bad request for an invalid parameter.
pub fn read_rows(parsed: Option<Vec<CatalogRow>>, locale: Locale) -> (r: Result<Vec<CatalogRow>, ExceptionResponse>)
    ensures
        match parsed {
            Some(rows) => r matches Ok(x) && x@ == rows@,
            None => r == Err::<Vec<CatalogRow>, ExceptionResponse>(
                ExceptionResponse::BadRequest(locale, ErrorKey::InvalidParameterValue),
            ),
        },
{
    match parsed {
        Some(rows) => Ok(rows),
        None => Err(ExceptionResponse::BadRequest(locale, ErrorKey::InvalidParameterValue)),
    }
}

/// An importable row names its product, its slug and its SKU code each with
/// a character that is not whitespace, and has no negative price: a row with
/// a blank product name is never imported.
pub proof fn imported_rows_are_named(row: CatalogRow)
    requires
        row_acceptable(row),
    ensures
        exists|i: int| 0 <= i < row.product_name@.len() && !is_white_space(#[trigger] row.product_name@[i]),
        exists|i: int| 0 <= i < row.slug@.len() && !is_white_space(#[trigger] row.slug@[i]),
        exists|i: int| 0 <= i < row.code@.len() && !is_white_space(#[trigger] row.code@[i]),
        row.price_cents >= 0,
{
    lemma_white_space_is_blank(row.product_name@);
    lemma_white_space_is_blank(row.slug@);
    lemma_white_space_is_blank(row.code@);
}

/// An import goes ahead only when every row names its product: a batch
/// holding a row whose product name is all whitespace is refused.
pub proof fn unnamed_products_refuse_the_import(rows: Seq<CatalogRow>, k: int)
    requires
        0 <= k < rows.len(),
        forall|i: int| 0 <= i < rows[k].product_name@.len() ==> is_white_space(#[trigger] rows[k].product_name@[i]),
    ensures
        !(forall|i: int| 0 <= i < rows.len() ==> row_acceptable(#[trigger] rows[i])),
{
    lemma_white_space_is_blank(rows[k].product_name@);
    assert(!row_acceptable(rows[k]));
}

} // verus!
