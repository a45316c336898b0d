use crate::commons::pagination::{clone_text, PageQuery};
use crate::endpoints::json::city_json::CityJson;
use crate::text::{ascii_lower, decimal, is_blank, str_eq, to_ascii_lowercase, trim, trim_str, u64_to_decimal};
use vstd::prelude::*;

verus! {

/// City page query.
#[derive(Debug, Clone)]
pub struct CityPageQuery {
    pub page: Option<u64>,
    pub page_size: Option<u64>,
    pub q: Option<String>,
    pub sort_by: Option<String>,
    pub sort_dir: Option<String>,
    pub province_id: Option<i64>,
}

impl CityPageQuery {
    /// The paging part of the request.
    pub fn to_page_query(&self) -> (r: PageQuery)
        ensures
            r == (PageQuery {
                page: self.page,
                page_size: self.page_size,
                q: self.q,
                sort_by: self.sort_by,
                sort_dir: self.sort_dir,
            }),
    {
        PageQuery {
            page: self.page,
            page_size: self.page_size,
            q: clone_text(&self.q),
            sort_by: clone_text(&self.sort_by),
            sort_dir: clone_text(&self.sort_dir),
        }
    }
}

/// Import report.
#[derive(Debug, Clone)]
pub struct ImportReport {
    pub inserted: usize,
    pub updated: usize,
    pub skipped: usize,
    pub errors: Vec<String>,
}

/// The message of a skipped import row: `row {n}: {reason}`, where `n` is
/// the row's line in the file (the header is line 1).
pub open spec fn row_message(index: int, reason: Seq<char>) -> Seq<char> {
    "row "@ + decimal((index + 2) as nat) + ": "@ + reason
}

/// Builds the message of a skipped import row.
pub fn row_error(index: usize, reason: &str) -> (r: String)
    requires
        index < usize::MAX - 2,
    ensures
        r@ == row_message(index as int, reason@),
{
    let mut m = String::from_str("row ");
    m.append(u64_to_decimal((index + 2) as u64).as_str());
    m.append(": ");
    m.append(reason);
    m
}

impl ImportReport {
    /// The rows the report has accounted for.
    pub open spec fn processed(&self) -> int {
        self.inserted + self.updated + self.skipped
    }

    /// Each skipped row has its message.
    pub open spec fn well_formed(&self) -> bool {
        self.errors@.len() == self.skipped
    }

    /// A report of no rows.
    pub fn new() -> (r: ImportReport)
        ensures
            r.inserted == 0 && r.updated == 0 && r.skipped == 0 && r.errors@.len() == 0,
            r.well_formed(),
    {
        ImportReport { inserted: 0, updated: 0, skipped: 0, errors: Vec::new() }
    }

    /// Skips row `index` for `reason`.
    pub fn skip(&mut self, index: usize, reason: &str)
        requires
            old(self).processed() < usize::MAX,
            index < usize::MAX - 2,
        ensures
            final(self).skipped == old(self).skipped + 1,
            final(self).inserted == old(self).inserted,
            final(self).updated == old(self).updated,
            final(self).errors@.len() == old(self).errors@.len() + 1,
            final(self).errors@.drop_last() == old(self).errors@,
            final(self).errors@.last()@ == row_message(index as int, reason@),
            final(self).processed() == old(self).processed() + 1,
            old(self).well_formed() ==> final(self).well_formed(),
    {
        self.skipped = self.skipped + 1;
        let m = row_error(index, reason);
        self.errors.push(m);
        assert(self.errors@.drop_last() =~= old(self).errors@);
    }

    /// Skips row `index` because saving it failed.
    pub fn skip_failed_save(&mut self, index: usize)
        requires
            old(self).processed() < usize::MAX,
            index < usize::MAX - 2,
        ensures
            final(self).skipped == old(self).skipped + 1,
            final(self).inserted == old(self).inserted,
            final(self).updated == old(self).updated,
            final(self).errors@.drop_last() == old(self).errors@,
            final(self).errors@.last()@ == row_message(index as int, "database error"@),
            final(self).processed() == old(self).processed() + 1,
            old(self).well_formed() ==> final(self).well_formed(),
    {
        self.skip(index, "database error");
    }

    /// Counts a saved row: as updated when the city existed, else inserted.
    pub fn record_saved(&mut self, was_update: bool)
        requires
            old(self).processed() < usize::MAX,
        ensures
            was_update ==> final(self).updated == old(self).updated + 1 && final(self).inserted
                == old(self).inserted,
            !was_update ==> final(self).inserted == old(self).inserted + 1 && final(self).updated
                == old(self).updated,
            final(self).skipped == old(self).skipped,
            final(self).errors == old(self).errors,
            final(self).processed() == old(self).processed() + 1,
            old(self).well_formed() ==> final(self).well_formed(),
    {
        if was_update {
            self.updated = self.updated + 1;
        } else {
            self.inserted = self.inserted + 1;
        }
    }
}

/// One row of a city import file.
#[derive(Debug, Clone)]
pub struct CityCsv {
    pub ibge_code: String,
    pub province_ibge_code: String,
    pub name: String,
}

/// A place known by its official (IBGE) code: its id and uuid.
#[derive(Debug, Clone)]
pub struct CodedEntry {
    pub code: String,
    pub id: Option<i64>,
    pub uuid: Option<String>,
}

/// The last of `entries` with `code`, as a later entry replaces an earlier
/// one with the same code.
pub open spec fn last_with_code(entries: Seq<CodedEntry>, code: Seq<char>) -> Option<int>
    decreases entries.len(),
{
    if entries.len() == 0 {
        None
    } else if entries.last().code@ == code {
        Some(entries.len() - 1)
    } else {
        last_with_code(entries.drop_last(), code)
    }
}

proof fn lemma_last_with_code_bound(entries: Seq<CodedEntry>, code: Seq<char>)
    ensures
        last_with_code(entries, code) matches Some(i) ==> 0 <= i < entries.len() && entries[i].code@ == code,
    decreases entries.len(),
{
    if entries.len() > 0 && entries.last().code@ != code {
        lemma_last_with_code_bound(entries.drop_last(), code);
    }
}

/// Finds the entry with `code`.
pub fn find_code(entries: &Vec<CodedEntry>, code: &str) -> (r: Option<usize>)
    ensures
        r matches Some(i) ==> last_with_code(entries@, code@) == Some(i as int),
        r is None ==> last_with_code(entries@, code@) is None,
        r matches Some(i) ==> i < entries@.len() && entries@[i as int].code@ == code@,
{
    let mut i = entries.len();
    assert(entries@.take(i as int) =~= entries@);
    while i > 0
        invariant
            i <= entries@.len(),
            last_with_code(entries@, code@) == last_with_code(entries@.take(i as int), code@),
        decreases i,
    {
        assert(entries@.take(i as int).drop_last() =~= entries@.take(i - 1));
        assert(entries@.take(i as int).last() == entries@[i - 1]);
        if str_eq(entries[i - 1].code.as_str(), code) {
            return Some(i - 1);
        }
        i = i - 1;
    }
    None
}

/// What to do with one row of a city import.
#[derive(Debug, Clone)]
pub enum CityRowStep {
    /// Skip the row for this reason.
    Skip(&'static str),
    /// Save the city; `is_update` when it already existed.
    Save { city: CityJson, is_update: bool },
}

/// Decides one row of a city import, against the provinces and the cities
/// known by code: a row whose province is unknown, or whose code or name
/// is blank, is skipped; otherwise the city is saved under the province,
/// trimmed, updating the one with the same code when there is one.
pub fn city_row_step(row: &CityCsv, provinces: &Vec<CodedEntry>, cities: &Vec<CodedEntry>) -> (r: CityRowStep)
    ensures
        last_with_code(provinces@, trim(row.province_ibge_code@)) is None ==> (r matches CityRowStep::Skip(m) && m@ == "province not found"@),
        last_with_code(provinces@, trim(row.province_ibge_code@)) is Some && (is_blank(row.ibge_code@) || is_blank(row.name@)) ==> (r matches CityRowStep::Skip(m) && m@ == "invalid required value"@),
        r matches CityRowStep::Save { city, is_update } ==> {
            let p = last_with_code(provinces@, trim(row.province_ibge_code@));
            let c = last_with_code(cities@, trim(row.ibge_code@));
            &&& p is Some && !is_blank(row.ibge_code@) && !is_blank(row.name@)
            &&& city.province_id == match provinces@[p->0].id {
                Some(id) => id,
                None => 0,
            }
            &&& city.name@ == trim(row.name@)
            &&& city.ibge_code matches Some(code) && code@ == trim(row.ibge_code@)
            &&& is_update == c is Some
            &&& c matches Some(i) ==> city.id == cities@[i].id && city.uuid == cities@[i].uuid
            &&& c is None ==> city.id is None && city.uuid is None
        },
        !(r is Skip) <==> (last_with_code(provinces@, trim(row.province_ibge_code@)) is Some && !is_blank(row.ibge_code@) && !is_blank(row.name@)),
{
    let province_code = trim_str(row.province_ibge_code.as_str());
    let p = match find_code(provinces, province_code.as_str()) {
        Some(p) => p,
        None => {
            return CityRowStep::Skip("province not found");
        },
    };
    let code = trim_str(row.ibge_code.as_str());
    let name = trim_str(row.name.as_str());
    if code.as_str().unicode_len() == 0 || name.as_str().unicode_len() == 0 {
        return CityRowStep::Skip("invalid required value");
    }
    let province_id = match provinces[p].id {
        Some(id) => id,
        None => 0,
    };
    match find_code(cities, code.as_str()) {
        Some(c) => CityRowStep::Save {
            city: CityJson {
                id: cities[c].id,
                uuid: clone_text(&cities[c].uuid),
                province_id,
                name,
                ibge_code: Some(code),
            },
            is_update: true,
        },
        None => CityRowStep::Save {
            city: CityJson { id: None, uuid: None, province_id, name, ibge_code: Some(code) },
            is_update: false,
        },
    }
}

/// The column cities are ordered by.
#[derive(Debug, Clone, Copy, PartialEq, Eq, Structural)]
pub enum CitySortColumn {
    ProvinceId,
    IbgeCode,
    Id,
    Name,
}

/// The column a sort key names, in any ASCII case; any other key sorts by
/// Name.
pub open spec fn city_sort_of(key: Seq<char>) -> CitySortColumn {
    let k = ascii_lower(key);
    if k == "provinceid"@ || k == "province_id"@ {
        CitySortColumn::ProvinceId
    } else if k == "ibgecode"@ || k == "ibge_code"@ {
        CitySortColumn::IbgeCode
    } else if k == "id"@ {
        CitySortColumn::Id
    } else {
        CitySortColumn::Name
    }
}

/// The column cities are sorted by for the normalised sort key.
pub fn city_sort_column(sort_by: &str) -> (r: CitySortColumn)
    ensures
        r == city_sort_of(sort_by@),
{
    let lowered = to_ascii_lowercase(sort_by);
    let k = lowered.as_str();
    if str_eq(k, "provinceid") || str_eq(k, "province_id") {
        CitySortColumn::ProvinceId
    } else if str_eq(k, "ibgecode") || str_eq(k, "ibge_code") {
        CitySortColumn::IbgeCode
    } else if str_eq(k, "id") {
        CitySortColumn::Id
    } else {
        CitySortColumn::Name
    }
}

} // verus!
