use crate::commons::pagination::{clone_text, PageQuery};
use crate::endpoints::city_endpoint::CodedEntry;
use crate::endpoints::json::province_json::ProvinceJson;
use crate::text::{
    ascii_lower, ascii_upper, ascii_upper_char, chars_of, decimal, is_ascii_alpha, is_blank, is_white_space,
    lemma_white_space_is_blank, str_eq, to_ascii_lowercase, to_ascii_uppercase, trim, trim_end, trim_start, trim_str, u64_to_decimal, utf8_len,
    utf8_len_exceeds,
};
use vstd::prelude::*;

verus! {

/// Province query params.
#[derive(Debug, Clone)]
pub struct ProvinceQueryParams {
    pub country_code: String,
}

/// Province page query.
#[derive(Debug, Clone)]
pub struct ProvincePageQuery {
    pub page: Option<u64>,
    pub page_size: Option<u64>,
    pub q: Option<String>,
    pub sort_by: Option<String>,
    pub sort_dir: Option<String>,
    pub country_code: Option<String>,
}

impl ProvincePageQuery {
    /// The paging part of the request.
    pub fn to_page_query(&self) -> (r: PageQuery)
        ensures
            r == (PageQuery {
                page: self.page,
                page_size: self.page_size,
                q: self.q,
                sort_by: self.sort_by,
                sort_dir: self.sort_dir,
            }),
    {
        PageQuery {
            page: self.page,
            page_size: self.page_size,
            q: clone_text(&self.q),
            sort_by: clone_text(&self.sort_by),
            sort_dir: clone_text(&self.sort_dir),
        }
    }
}

/// Import report.
#[derive(Debug, Clone)]
pub struct ImportReport {
    pub inserted: usize,
    pub updated: usize,
    pub skipped: usize,
    pub errors: Vec<String>,
}

/// The country code that `value` names: trimmed and in ASCII upper case,
/// when that leaves exactly two ASCII letters.
pub open spec fn country_code_of(value: Seq<char>) -> Option<Seq<char>> {
    let normalized = ascii_upper(trim(value));
    if normalized.len() == 2 && is_ascii_alpha(normalized[0]) && is_ascii_alpha(normalized[1]) {
        Some(normalized)
    } else {
        None
    }
}

/// Normalises a country code: trims it, upper-cases its ASCII letters and
/// accepts it only when exactly two ASCII letters remain.
pub fn normalize_country_code(value: &str) -> (r: Option<String>)
    ensures
        match r {
            Some(code) => country_code_of(value@) == Some(code@),
            None => country_code_of(value@) is None,
        },
{
    let trimmed = trim_str(value);
    let normalized = to_ascii_uppercase(trimmed.as_str());
    let v = chars_of(normalized.as_str());
    if v.len() == 2 && is_ascii_letter(v[0]) && is_ascii_letter(v[1]) {
        Some(normalized)
    } else {
        None
    }
}

fn is_ascii_letter(c: char) -> (r: bool)
    ensures
        r == is_ascii_alpha(c),
{
    ('a' <= c && c <= 'z') || ('A' <= c && c <= 'Z')
}

/// Normalising a country code a second time changes nothing.
pub proof fn country_code_normalization_is_idempotent(value: Seq<char>)
    requires
        country_code_of(value) is Some,
    ensures
        country_code_of(country_code_of(value).unwrap()) == country_code_of(value),
{
    let n = country_code_of(value).unwrap();
    assert(!is_white_space(n[0]) && !is_white_space(n[1]));
    assert(n.drop_first().len() == 1 && n.drop_first()[0] == n[1]);
    assert(trim_start(n.drop_first()) == n.drop_first());
    assert(trim_start(n) == n);
    assert(n.drop_last().len() == 1 && n.drop_last()[0] == n[0]);
    assert(trim_end(n.drop_last()) == n.drop_last());
    assert(trim_end(n) == n);
    assert(trim(n) == n);
    assert(ascii_upper_char(n[0]) == n[0]);
    assert(ascii_upper_char(n[1]) == n[1]);
    assert(ascii_upper(n) =~= n);
}

/// The message of a skipped import row: `row {n}: {reason}`, where `n` is
/// the row's line in the file (the header is line 1).
pub open spec fn row_message(index: int, reason: Seq<char>) -> Seq<char> {
    "row "@ + decimal((index + 2) as nat) + ": "@ + reason
}

/// Builds the message of a skipped import row.
pub fn row_error(index: usize, reason: &str) -> (r: String)
    requires
        index < usize::MAX - 2,
    ensures
        r@ == row_message(index as int, reason@),
{
    let mut m = String::from_str("row ");
    m.append(u64_to_decimal((index + 2) as u64).as_str());
    m.append(": ");
    m.append(reason);
    m
}

impl ImportReport {
    /// The rows the report has accounted for.
    pub open spec fn processed(&self) -> int {
        self.inserted + self.updated + self.skipped
    }

    /// Each skipped row has its message.
    pub open spec fn well_formed(&self) -> bool {
        self.errors@.len() == self.skipped
    }

    /// A report of no rows.
    pub fn new() -> (r: ImportReport)
        ensures
            r.inserted == 0 && r.updated == 0 && r.skipped == 0 && r.errors@.len() == 0,
            r.well_formed(),
    {
        ImportReport { inserted: 0, updated: 0, skipped: 0, errors: Vec::new() }
    }

    /// Skips row `index` for `reason`.
    pub fn skip(&mut self, index: usize, reason: &str)
        requires
            old(self).processed() < usize::MAX,
            index < usize::MAX - 2,
        ensures
            final(self).skipped == old(self).skipped + 1,
            final(self).inserted == old(self).inserted,
            final(self).updated == old(self).updated,
            final(self).errors@.drop_last() == old(self).errors@,
            final(self).errors@.last()@ == row_message(index as int, reason@),
            final(self).processed() == old(self).processed() + 1,
            old(self).well_formed() ==> final(self).well_formed(),
    {
        self.skipped = self.skipped + 1;
        let m = row_error(index, reason);
        self.errors.push(m);
        assert(self.errors@.drop_last() =~= old(self).errors@);
    }

    /// Skips row `index` because saving it failed.
    pub fn skip_failed_save(&mut self, index: usize)
        requires
            old(self).processed() < usize::MAX,
            index < usize::MAX - 2,
        ensures
            final(self).skipped == old(self).skipped + 1,
            final(self).inserted == old(self).inserted,
            final(self).updated == old(self).updated,
            final(self).errors@.drop_last() == old(self).errors@,
            final(self).errors@.last()@ == row_message(index as int, "database error"@),
            final(self).processed() == old(self).processed() + 1,
            old(self).well_formed() ==> final(self).well_formed(),
    {
        self.skip(index, "database error");
    }

    /// Counts a saved row: as updated when the province existed, else
    /// inserted.
    pub fn record_saved(&mut self, was_update: bool)
        requires
            old(self).processed() < usize::MAX,
        ensures
            was_update ==> final(self).updated == old(self).updated + 1 && final(self).inserted
                == old(self).inserted,
            !was_update ==> final(self).inserted == old(self).inserted + 1 && final(self).updated
                == old(self).updated,
            final(self).skipped == old(self).skipped,
            final(self).errors == old(self).errors,
            final(self).processed() == old(self).processed() + 1,
            old(self).well_formed() ==> final(self).well_formed(),
    {
        if was_update {
            self.updated = self.updated + 1;
        } else {
            self.inserted = self.inserted + 1;
        }
    }
}

/// One row of a province import file.
#[derive(Debug, Clone)]
pub struct ProvinceCsv {
    pub ibge_code: String,
    pub acronym: String,
    pub name: String,
    pub country_code: String,
}

/// A province row can be saved: code, acronym and name have text, and the
/// country code takes two bytes once trimmed.
pub open spec fn province_row_acceptable(row: ProvinceCsv) -> bool {
    &&& !is_blank(row.ibge_code@)
    &&& !is_blank(row.acronym@)
    &&& !is_blank(row.name@)
    &&& utf8_len(trim(row.country_code@)) == 2
}

/// The first of `entries` with `code`.
pub open spec fn first_with_code(entries: Seq<CodedEntry>, code: Seq<char>) -> Option<int>
    decreases entries.len(),
{
    if entries.len() == 0 {
        None
    } else if entries[0].code@ == code {
        Some(0)
    } else {
        match first_with_code(entries.drop_first(), code) {
            Some(i) => Some(i + 1),
            None => None,
        }
    }
}

/// Finds the first province with `code`.
pub fn find_first_code(entries: &Vec<CodedEntry>, code: &str) -> (r: Option<usize>)
    ensures
        r matches Some(i) ==> first_with_code(entries@, code@) == Some(i as int) && i < entries@.len(),
        r is None ==> first_with_code(entries@, code@) is None,
{
    let mut i: usize = 0;
    assert(entries@.skip(0) =~= entries@);
    while i < entries.len()
        invariant
            i <= entries@.len(),
            first_with_code(entries@, code@) == match first_with_code(entries@.skip(i as int), code@) {
                Some(k) => Some(k + i),
                None => None,
            },
        decreases entries@.len() - i,
    {
        assert(entries@.skip(i as int).drop_first() =~= entries@.skip(i + 1));
        assert(entries@.skip(i as int)[0] == entries@[i as int]);
        if str_eq(entries[i].code.as_str(), code) {
            return Some(i);
        }
        i = i + 1;
    }
    None
}

/// Decides one row of a province import: a row that cannot be saved is
/// skipped as invalid; otherwise the province is saved trimmed, with its
/// acronym and country code in ASCII upper case, updating the first known
/// province with the same code when there is one. `known` are the provinces
/// on record, by code.
pub fn province_row_step(row: &ProvinceCsv, known: &Vec<CodedEntry>) -> (r: Result<(ProvinceJson, bool), &'static str>)
    ensures
        !province_row_acceptable(*row) ==> r == Err::<(ProvinceJson, bool), &'static str>("invalid required value"),
        province_row_acceptable(*row) ==> (r matches Ok((p, is_update)) && {
            let e = first_with_code(known@, trim(row.ibge_code@));
            &&& p.acronym@ == ascii_upper(trim(row.acronym@))
            &&& p.name@ == trim(row.name@)
            &&& p.country_code@ == ascii_upper(trim(row.country_code@))
            &&& p.ibge_code matches Some(code) && code@ == trim(row.ibge_code@)
            &&& is_update == e is Some
            &&& e matches Some(i) ==> p.id == known@[i].id && p.uuid == known@[i].uuid
            &&& e is None ==> p.id is None && p.uuid is None
        }),
{
    let code = trim_str(row.ibge_code.as_str());
    let acronym = trim_str(row.acronym.as_str());
    let name = trim_str(row.name.as_str());
    let country = trim_str(row.country_code.as_str());
    let country_len_ok = !utf8_len_exceeds(country.as_str(), 2) && utf8_len_exceeds(country.as_str(), 1);
    if code.as_str().unicode_len() == 0 || acronym.as_str().unicode_len() == 0
        || name.as_str().unicode_len() == 0 || !country_len_ok {
        return Err("invalid required value");
    }
    let acronym = to_ascii_uppercase(acronym.as_str());
    let country_code = to_ascii_uppercase(country.as_str());
    match find_first_code(known, code.as_str()) {
        Some(i) => Ok((
            ProvinceJson {
                id: known[i].id,
                uuid: clone_text(&known[i].uuid),
                acronym,
                name,
                country_code,
                ibge_code: Some(code),
            },
            true,
        )),
        None => Ok((
            ProvinceJson { id: None, uuid: None, acronym, name, country_code, ibge_code: Some(code) },
            false,
        )),
    }
}

/// The column provinces are ordered by.
#[derive(Debug, Clone, Copy, PartialEq, Eq, Structural)]
pub enum ProvinceSortColumn {
    Acronym,
    CountryCode,
    IbgeCode,
    Id,
    Name,
}

/// The column a sort key names, in any ASCII case; any other key sorts by
/// Name.
pub open spec fn province_sort_of(key: Seq<char>) -> ProvinceSortColumn {
    let k = ascii_lower(key);
    if k == "acronym"@ {
        ProvinceSortColumn::Acronym
    } else if k == "countrycode"@ || k == "country_code"@ {
        ProvinceSortColumn::CountryCode
    } else if k == "ibgecode"@ || k == "ibge_code"@ {
        ProvinceSortColumn::IbgeCode
    } else if k == "id"@ {
        ProvinceSortColumn::Id
    } else {
        ProvinceSortColumn::Name
    }
}

/// The column provinces are sorted by for the normalised sort key.
pub fn province_sort_column(sort_by: &str) -> (r: ProvinceSortColumn)
    ensures
        r == province_sort_of(sort_by@),
{
    let lowered = to_ascii_lowercase(sort_by);
    let k = lowered.as_str();
    if str_eq(k, "acronym") {
        ProvinceSortColumn::Acronym
    } else if str_eq(k, "countrycode") || str_eq(k, "country_code") {
        ProvinceSortColumn::CountryCode
    } else if str_eq(k, "ibgecode") || str_eq(k, "ibge_code") {
        ProvinceSortColumn::IbgeCode
    } else if str_eq(k, "id") {
        ProvinceSortColumn::Id
    } else {
        ProvinceSortColumn::Name
    }
}

/// A saved province has a code, an acronym and a name, each with a character
/// that is not whitespace: a row with a blank name is refused.
pub proof fn saved_provinces_are_named(row: ProvinceCsv)
    requires
        province_row_acceptable(row),
    ensures
        exists|i: int| 0 <= i < row.name@.len() && !is_white_space(#[trigger] row.name@[i]),
        exists|i: int| 0 <= i < row.acronym@.len() && !is_white_space(#[trigger] row.acronym@[i]),
        exists|i: int| 0 <= i < row.ibge_code@.len() && !is_white_space(#[trigger] row.ibge_code@[i]),
        trim(row.name@).len() > 0,
{
    lemma_white_space_is_blank(row.name@);
    lemma_white_space_is_blank(row.acronym@);
    lemma_white_space_is_blank(row.ibge_code@);
}

} // verus!
