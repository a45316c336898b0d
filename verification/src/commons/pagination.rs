//! Page requests, their normalisation and paged responses.
use crate::text::{ascii_lower, eq_ignore_ascii_case, to_ascii_lowercase, str_eq, trim, trim_str};
use vstd::prelude::*;

verus! {

pub const DEFAULT_PAGE: u64 = 1;

pub const DEFAULT_PAGE_SIZE: u64 = 25;

pub const MIN_PAGE_SIZE: u64 = 1;

pub const MAX_PAGE_SIZE: u64 = 100;

/// A page request as the client sent it.
#[derive(Debug, Clone)]
pub struct PageQuery {
    pub page: Option<u64>,
    pub page_size: Option<u64>,
    pub q: Option<String>,
    pub sort_by: Option<String>,
    pub sort_dir: Option<String>,
}

/// The order in which a page is sorted.
#[derive(Debug, Clone, Copy, PartialEq, Eq, Structural)]
pub enum SortDirection {
    Asc,
    Desc,
}

pub open spec fn desc_word() -> Seq<char> {
    seq!['d', 'e', 's', 'c']
}

/// The direction a `sortDir` text asks for: descending when, trimmed and
/// lowercased, it reads `desc`; ascending otherwise and when it is missing.
pub open spec fn direction_for(s: Option<Seq<char>>) -> SortDirection {
    match s {
        Some(t) => if ascii_lower(trim(t)) == desc_word() {
            SortDirection::Desc
        } else {
            SortDirection::Asc
        },
        None => SortDirection::Asc,
    }
}

pub open spec fn opt_str_view(o: Option<&str>) -> Option<Seq<char>> {
    match o {
        Some(s) => Some(s@),
        None => None,
    }
}

pub open spec fn opt_string_view(o: Option<String>) -> Option<Seq<char>> {
    match o {
        Some(s) => Some(s@),
        None => None,
    }
}

impl SortDirection {
    /// Reads a `sortDir` text.
    pub fn from_optional_str(s: Option<&str>) -> (r: Self)
        ensures
            r == direction_for(opt_str_view(s)),
    {
        match s {
            None => SortDirection::Asc,
            Some(t) => {
                let trimmed = trim_str(t);
                let lower = to_ascii_lowercase(trimmed.as_str());
                let word = "desc";
                proof {
                    reveal_strlit("desc");
                    assert(word@ =~= desc_word());
                }
                if str_eq(lower.as_str(), word) {
                    SortDirection::Desc
                } else {
                    SortDirection::Asc
                }
            },
        }
    }

    pub fn is_descending(&self) -> (r: bool)
        ensures
            r == (*self == SortDirection::Desc),
    {
        match self {
            SortDirection::Desc => true,
            SortDirection::Asc => false,
        }
    }
}

/// A page request made safe to run: page and size in range, the offset of
/// the first row, the search text and a sort field the resource allows.
#[derive(Debug, Clone)]
pub struct NormalizedPagination {
    pub page: u64,
    pub page_size: u64,
    pub offset: u64,
    pub q: Option<String>,
    pub sort_by: String,
    pub sort_dir: SortDirection,
}

/// The page a request asks for: the first page when it names none or zero.
pub open spec fn page_of(page: Option<u64>) -> u64 {
    match page {
        Some(p) => if p >= 1 {
            p
        } else {
            1
        },
        None => DEFAULT_PAGE,
    }
}

/// The page size a request asks for, clamped to `1..=100`; 25 when it
/// names none.
pub open spec fn page_size_of(size: Option<u64>) -> u64 {
    let s = match size {
        Some(s) => s,
        None => DEFAULT_PAGE_SIZE,
    };
    if s < MIN_PAGE_SIZE {
        MIN_PAGE_SIZE
    } else if s > MAX_PAGE_SIZE {
        MAX_PAGE_SIZE
    } else {
        s
    }
}

/// The search text of a request: trimmed, and dropped when blank.
pub open spec fn search_text(q: Option<Seq<char>>) -> Option<Seq<char>> {
    match q {
        Some(t) => if trim(t).len() > 0 {
            Some(trim(t))
        } else {
            None
        },
        None => None,
    }
}

/// `a` and `b` are equal once ASCII letters are lowercased.
pub open spec fn same_ignoring_case(a: Seq<char>, b: Seq<char>) -> bool {
    ascii_lower(a) == ascii_lower(b)
}

/// `i` is the first allowed field that `c` names, ignoring ASCII case.
pub open spec fn is_first_match(allowed: Seq<Seq<char>>, c: Seq<char>, i: int) -> bool {
    &&& 0 <= i < allowed.len()
    &&& same_ignoring_case(allowed[i], c)
    &&& forall|j: int| 0 <= j < i ==> !same_ignoring_case(#[trigger] allowed[j], c)
}

/// The field a page is sorted by: the first allowed field that the trimmed
/// `sortBy` names, ignoring ASCII case; the default when it names none or is
/// blank or missing.
pub open spec fn sort_field(
    requested: Option<Seq<char>>,
    allowed: Seq<Seq<char>>,
    default: Seq<char>,
) -> Seq<char> {
    match requested {
        Some(t) => if trim(t).len() > 0 && exists|i: int| is_first_match(allowed, trim(t), i) {
            allowed[choose|i: int| is_first_match(allowed, trim(t), i)]
        } else {
            default
        },
        None => default,
    }
}

pub open spec fn views(allowed: Seq<&str>) -> Seq<Seq<char>> {
    allowed.map_values(|s: &str| s@)
}

proof fn lemma_first_match_unique(allowed: Seq<Seq<char>>, c: Seq<char>, i: int, k: int)
    requires
        is_first_match(allowed, c, i),
        is_first_match(allowed, c, k),
    ensures
        i == k,
{
    if i < k {
        assert(!same_ignoring_case(allowed[i], c));
    }
    if k < i {
        assert(!same_ignoring_case(allowed[k], c));
    }
}

/// A page is always sorted by an allowed field or by the default one, and a
/// normalised page request stays in range: a page of at least one, a size
/// between the minimum and the maximum.
pub proof fn normalized_requests_stay_in_range(
    page: Option<u64>,
    size: Option<u64>,
    requested: Option<Seq<char>>,
    allowed: Seq<Seq<char>>,
    default: Seq<char>,
)
    ensures
        page_of(page) >= 1,
        MIN_PAGE_SIZE <= page_size_of(size) <= MAX_PAGE_SIZE,
        sort_field(requested, allowed, default) == default || allowed.contains(
            sort_field(requested, allowed, default),
        ),
{
    if let Some(t) = requested {
        if trim(t).len() > 0 && exists|i: int| is_first_match(allowed, trim(t), i) {
            let i = choose|i: int| is_first_match(allowed, trim(t), i);
            assert(allowed[i] == sort_field(requested, allowed, default));
        }
    }
}

/// The allowed field that `candidate` names, if any.
fn find_sort_field(candidate: &str, allowed: &[&str]) -> (r: Option<usize>)
    ensures
        r matches Some(i) ==> is_first_match(views(allowed@), candidate@, i as int),
        r is None ==> !exists|i: int| is_first_match(views(allowed@), candidate@, i),
{
    let ghost vs = views(allowed@);
    let mut i: usize = 0;
    while i < allowed.len()
        invariant
            i <= allowed@.len(),
            vs == views(allowed@),
            vs.len() == allowed@.len(),
            forall|j: int| 0 <= j < i ==> !same_ignoring_case(#[trigger] vs[j], candidate@),
        decreases allowed@.len() - i,
    {
        let field: &str = allowed[i];
        assert(vs[i as int] == field@);
        if eq_ignore_ascii_case(field, candidate) {
            return Some(i);
        }
        i = i + 1;
    }
    None
}

/// Clones an optional text.
pub fn clone_text(o: &Option<String>) -> (r: Option<String>)
    ensures
        r == *o,
{
    match o {
        Some(s) => Some(s.clone()),
        None => None,
    }
}

impl NormalizedPagination {
    /// Normalises a page request against the sort fields the resource allows.
    /// The offset `(page - 1) * page_size` must fit in 64 bits.
    pub fn new(query: &PageQuery, allowed_sort_fields: &[&str], default_sort: &str) -> (r: Self)
        requires
            (page_of(query.page) - 1) * page_size_of(query.page_size) <= u64::MAX,
        ensures
            r.page == page_of(query.page),
            r.page_size == page_size_of(query.page_size),
            r.offset == (r.page - 1) * r.page_size,
            opt_string_view(r.q) == search_text(opt_string_view(query.q)),
            r.sort_by@ == sort_field(
                opt_string_view(query.sort_by),
                views(allowed_sort_fields@),
                default_sort@,
            ),
            r.sort_dir == direction_for(opt_string_view(query.sort_dir)),
    {
        Self::new_saturating(query, allowed_sort_fields, default_sort)
    }

    /// Normalises a page request as `new` does, with an offset that stops at
    /// `u64::MAX` where `(page - 1) * page_size` would not fit.
    pub(crate) fn new_saturating(query: &PageQuery, allowed_sort_fields: &[&str], default_sort: &str) -> (r: Self)
        ensures
            r.page == page_of(query.page),
            r.page_size == page_size_of(query.page_size),
            r.offset == if (r.page - 1) * r.page_size <= u64::MAX {
                (r.page - 1) * r.page_size
            } else {
                u64::MAX as int
            },
            opt_string_view(r.q) == search_text(opt_string_view(query.q)),
            r.sort_by@ == sort_field(
                opt_string_view(query.sort_by),
                views(allowed_sort_fields@),
                default_sort@,
            ),
            r.sort_dir == direction_for(opt_string_view(query.sort_dir)),
    {
        let page: u64 = match query.page {
            Some(p) => if p >= 1 {
                p
            } else {
                1
            },
            None => DEFAULT_PAGE,
        };
        let requested_size: u64 = match query.page_size {
            Some(s) => s,
            None => DEFAULT_PAGE_SIZE,
        };
        let page_size: u64 = if requested_size < MIN_PAGE_SIZE {
            MIN_PAGE_SIZE
        } else if requested_size > MAX_PAGE_SIZE {
            MAX_PAGE_SIZE
        } else {
            requested_size
        };
        let offset: u64 = match (page - 1).checked_mul(page_size) {
            Some(o) => o,
            None => u64::MAX,
        };
        let q: Option<String> = match &query.q {
            Some(t) => {
                let trimmed = trim_str(t.as_str());
                if trimmed.as_str().is_empty() {
                    None
                } else {
                    Some(trimmed)
                }
            },
            None => None,
        };
        let sort_dir = match &query.sort_dir {
            Some(d) => SortDirection::from_optional_str(Some(d.as_str())),
            None => SortDirection::from_optional_str(None),
        };
        let sort_by: String = match &query.sort_by {
            Some(t) => {
                let trimmed = trim_str(t.as_str());
                if trimmed.as_str().is_empty() {
                    default_sort.to_owned()
                } else {
                    match find_sort_field(trimmed.as_str(), allowed_sort_fields) {
                        Some(i) => {
                            let field: &str = allowed_sort_fields[i];
                            proof {
                                let vs = views(allowed_sort_fields@);
                                let c = trim(t@);
                                assert(is_first_match(vs, c, i as int));
                                let k = choose|k: int| is_first_match(vs, c, k);
                                lemma_first_match_unique(vs, c, i as int, k);
                                assert(vs[i as int] == field@);
                            }
                            field.to_owned()
                        },
                        None => default_sort.to_owned(),
                    }
                }
            },
            None => default_sort.to_owned(),
        };
        NormalizedPagination { page, page_size, offset, q, sort_by, sort_dir }
    }
}

/// One page of items: with the total and the page's number and size when
/// paged by number, with the next cursor when paged by cursor.
#[derive(Debug, Clone)]
pub struct PagedResponse<T> {
    pub items: Vec<T>,
    pub total: Option<u64>,
    pub page: Option<u64>,
    pub page_size: Option<u64>,
    pub next_cursor: Option<i64>,
}

impl<T> PagedResponse<T> {
    /// A numbered page of items out of `total`.
    pub fn new(items: Vec<T>, total: u64, page: u64, page_size: u64) -> (r: Self)
        ensures
            r.items == items,
            r.total == Some(total),
            r.page == Some(page),
            r.page_size == Some(page_size),
            r.next_cursor is None,
    {
        PagedResponse {
            items,
            total: Some(total),
            page: Some(page),
            page_size: Some(page_size),
            next_cursor: None,
        }
    }

    /// A numbered page with nothing on it, out of nothing.
    pub fn empty(page: u64, page_size: u64) -> (r: Self)
        ensures
            r.items@.len() == 0,
            r.total == Some(0u64),
            r.page == Some(page),
            r.page_size == Some(page_size),
            r.next_cursor is None,
    {
        PagedResponse {
            items: Vec::new(),
            total: Some(0),
            page: Some(page),
            page_size: Some(page_size),
            next_cursor: None,
        }
    }

    /// A page of items reached by cursor, with the cursor of the next page.
    pub fn page_by_cursor(items: Vec<T>, next_cursor: Option<i64>) -> (r: Self)
        ensures
            r.items == items,
            r.total is None,
            r.page is None,
            r.page_size is None,
            r.next_cursor == next_cursor,
    {
        PagedResponse { items, total: None, page: None, page_size: None, next_cursor }
    }
}

/// The `LIKE` pattern a search text is matched with: the text anywhere.
pub fn search_pattern(q: &Option<String>) -> (r: Option<String>)
    ensures
        match q {
            Some(t) => r matches Some(p) && p@ == "%"@ + t@ + "%"@,
            None => r is None,
        },
{
    match q {
        Some(t) => {
            let mut p = String::from_str("%");
            p.append(t.as_str());
            p.append("%");
            Some(p)
        },
        None => None,
    }
}

} // verus!
