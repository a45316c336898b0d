//! Character and string helpers shared by the rest of the library: Unicode
//! whitespace trimming, ASCII case mapping, decimal formatting and parsing.
use vstd::prelude::*;

verus! {

// ------------------------------------------------------------------
// Character classes
// ------------------------------------------------------------------

/// The Unicode `White_Space` property, the class that `char::is_whitespace`
/// and `str::trim` use.
pub open spec fn is_white_space(c: char) -> bool {
    ||| ('\u{9}' <= c && c <= '\u{d}')
    ||| c == ' '
    ||| c == '\u{85}'
    ||| c == '\u{a0}'
    ||| c == '\u{1680}'
    ||| ('\u{2000}' <= c && c <= '\u{200a}')
    ||| c == '\u{2028}'
    ||| c == '\u{2029}'
    ||| c == '\u{202f}'
    ||| c == '\u{205f}'
    ||| c == '\u{3000}'
}

pub open spec fn is_ascii_digit(c: char) -> bool {
    '0' <= c && c <= '9'
}

pub open spec fn is_ascii_lower(c: char) -> bool {
    'a' <= c && c <= 'z'
}

pub open spec fn is_ascii_upper(c: char) -> bool {
    'A' <= c && c <= 'Z'
}

pub open spec fn is_ascii_alpha(c: char) -> bool {
    is_ascii_lower(c) || is_ascii_upper(c)
}

pub open spec fn is_ascii_char(c: char) -> bool {
    (c as u32) < 128
}

/// Every character of `s` is ASCII.
pub open spec fn all_ascii(s: Seq<char>) -> bool {
    forall|i: int| 0 <= i < s.len() ==> is_ascii_char(#[trigger] s[i])
}

/// The numeric value of an ASCII digit.
pub open spec fn digit_value(c: char) -> int {
    (c as u32) - ('0' as u32)
}

pub open spec fn ascii_lower_char(c: char) -> char {
    if is_ascii_upper(c) {
        ((c as u32) + 32) as char
    } else {
        c
    }
}

pub open spec fn ascii_upper_char(c: char) -> char {
    if is_ascii_lower(c) {
        ((c as u32) - 32) as char
    } else {
        c
    }
}

pub open spec fn ascii_lower(s: Seq<char>) -> Seq<char> {
    s.map_values(|c: char| ascii_lower_char(c))
}

pub open spec fn ascii_upper(s: Seq<char>) -> Seq<char> {
    s.map_values(|c: char| ascii_upper_char(c))
}

/// `s` with its leading Unicode whitespace removed.
pub open spec fn trim_start(s: Seq<char>) -> Seq<char>
    decreases s.len(),
{
    if s.len() > 0 && is_white_space(s[0]) {
        trim_start(s.drop_first())
    } else {
        s
    }
}

/// `s` with its trailing Unicode whitespace removed.
pub open spec fn trim_end(s: Seq<char>) -> Seq<char>
    decreases s.len(),
{
    if s.len() > 0 && is_white_space(s.last()) {
        trim_end(s.drop_last())
    } else {
        s
    }
}

/// What `str::trim` gives back: leading and trailing whitespace removed.
pub open spec fn trim(s: Seq<char>) -> Seq<char> {
    trim_end(trim_start(s))
}

/// `s` is empty once trimmed.
pub open spec fn is_blank(s: Seq<char>) -> bool {
    trim(s).len() == 0
}

// ------------------------------------------------------------------
// Outside behaviour that only std can compute
// ------------------------------------------------------------------

/// The Unicode `Alphabetic` or `Numeric` property of a character.
pub uninterp spec fn unicode_alphanumeric(c: char) -> bool;

/// The Unicode lowercase mapping of a whole string.
pub uninterp spec fn unicode_lowercase(s: Seq<char>) -> Seq<char>;

/// The Unicode uppercase mapping of a whole string.
pub uninterp spec fn unicode_uppercase(s: Seq<char>) -> Seq<char>;

/// `String::push`: the string afterwards is the one before with `c` appended.
#[verifier::external_body]
pub(crate) fn push_char(s: &mut String, c: char)
    ensures
        final(s)@ == old(s)@.push(c),
{
    s.push(c);
}

/// `char::is_alphanumeric`: whether `c` is Unicode alphabetic or numeric.
/// For an ASCII character that is exactly an ASCII letter or digit; beyond
/// ASCII the Unicode tables are not stated, the result is named.
#[verifier::external_body]
pub(crate) fn char_is_alphanumeric(c: char) -> (r: bool)
    ensures
        r == unicode_alphanumeric(c),
        is_ascii_char(c) ==> (r <==> is_ascii_alpha(c) || is_ascii_digit(c)),
{
    c.is_alphanumeric()
}

/// `str::to_lowercase`: the Unicode lowercase mapping of `s`. On ASCII text
/// it maps `A`-`Z` to `a`-`z` and keeps every other character, as
/// `to_ascii_lowercase` does; beyond ASCII the mapping tables are not
/// stated, the result is named.
#[verifier::external_body]
pub(crate) fn str_to_lowercase(s: &str) -> (r: String)
    ensures
        r@ == unicode_lowercase(s@),
        all_ascii(s@) ==> r@ == ascii_lower(s@),
{
    s.to_lowercase()
}

/// `str::to_uppercase`: the Unicode uppercase mapping of `s`. On ASCII text
/// it maps `a`-`z` to `A`-`Z` and keeps every other character, as
/// `to_ascii_uppercase` does; beyond ASCII the mapping tables are not
/// stated, the result is named.
#[verifier::external_body]
pub(crate) fn str_to_uppercase(s: &str) -> (r: String)
    ensures
        r@ == unicode_uppercase(s@),
        all_ascii(s@) ==> r@ == ascii_upper(s@),
{
    s.to_uppercase()
}

// ------------------------------------------------------------------
// Verified helpers
// ------------------------------------------------------------------

/// `char::is_whitespace`.
pub fn is_whitespace(c: char) -> (r: bool)
    ensures
        r == is_white_space(c),
{
    ('\u{9}' <= c && c <= '\u{d}') || c == ' ' || c == '\u{85}' || c == '\u{a0}' || c
        == '\u{1680}' || ('\u{2000}' <= c && c <= '\u{200a}') || c == '\u{2028}' || c
        == '\u{2029}' || c == '\u{202f}' || c == '\u{205f}' || c == '\u{3000}'
}

/// The characters of `s`.
pub fn chars_of(s: &str) -> (r: Vec<char>)
    ensures
        r@ == s@,
{
    let mut out: Vec<char> = Vec::new();
    for c in it: s.chars()
        invariant
            it.seq() == s@,
            out@ == s@.take(it.index() as int),
    {
        out.push(c);
    }
    assert(out@ =~= s@);
    out
}

/// A string made of `v[lo..hi]`.
pub fn string_of(v: &Vec<char>, lo: usize, hi: usize) -> (r: String)
    requires
        lo <= hi <= v@.len(),
    ensures
        r@ == v@.subrange(lo as int, hi as int),
{
    let mut out = String::new();
    let mut i = lo;
    while i < hi
        invariant
            lo <= i <= hi <= v@.len(),
            out@ == v@.subrange(lo as int, i as int),
        decreases hi - i,
    {
        push_char(&mut out, v[i]);
        assert(v@.subrange(lo as int, i + 1) =~= v@.subrange(lo as int, i as int).push(v@[i as int]));
        i = i + 1;
    }
    out
}

/// A string with the same characters as `v`.
pub fn string_from(v: &Vec<char>) -> (r: String)
    ensures
        r@ == v@,
{
    let r = string_of(v, 0, v.len());
    assert(v@.subrange(0, v@.len() as int) =~= v@);
    r
}

/// Removing leading whitespace from a suffix that starts after whitespace only.
proof fn lemma_trim_start_skip(s: Seq<char>, k: int)
    requires
        0 <= k <= s.len(),
        forall|j: int| 0 <= j < k ==> is_white_space(#[trigger] s[j]),
    ensures
        trim_start(s) == trim_start(s.skip(k)),
    decreases k,
{
    if k > 0 {
        assert(is_white_space(s[0]));
        assert(s.drop_first().skip(k - 1) =~= s.skip(k));
        lemma_trim_start_skip(s.drop_first(), k - 1);
    } else {
        assert(s.skip(0) =~= s);
    }
}

proof fn lemma_trim_end_take(s: Seq<char>, k: int)
    requires
        0 <= k <= s.len(),
        forall|j: int| k <= j < s.len() ==> is_white_space(#[trigger] s[j]),
    ensures
        trim_end(s) == trim_end(s.take(k)),
    decreases s.len() - k,
{
    if k < s.len() {
        assert(is_white_space(s.last()));
        assert(s.drop_last().take(k) =~= s.take(k));
        lemma_trim_end_take(s.drop_last(), k);
    } else {
        assert(s.take(k) =~= s);
    }
}

proof fn lemma_trim_start_shape(s: Seq<char>)
    ensures
        trim_start(s).len() == 0 || !is_white_space(trim_start(s)[0]),
    decreases s.len(),
{
    if s.len() > 0 && is_white_space(s[0]) {
        lemma_trim_start_shape(s.drop_first());
    }
}

proof fn lemma_trim_end_shape(s: Seq<char>)
    ensures
        trim_end(s).len() <= s.len(),
        trim_end(s) == s.take(trim_end(s).len() as int),
        trim_end(s).len() == 0 || !is_white_space(trim_end(s).last()),
    decreases s.len(),
{
    if s.len() > 0 && is_white_space(s.last()) {
        lemma_trim_end_shape(s.drop_last());
        let t = trim_end(s.drop_last());
        assert(s.drop_last().take(t.len() as int) =~= s.take(t.len() as int));
    } else {
        assert(s.take(s.len() as int) =~= s);
    }
}

/// Trimming twice is trimming once.
pub proof fn lemma_trim_idempotent(s: Seq<char>)
    ensures
        trim(trim(s)) == trim(s),
{
    let u = trim_start(s);
    lemma_trim_start_shape(s);
    lemma_trim_end_shape(u);
    let t = trim_end(u);
    if t.len() > 0 {
        assert(t[0] == u[0]);
    }
    assert(trim_start(t) == t);
    assert(trim_end(t) == t);
}

/// `s` trimmed and then in Unicode upper case, as state codes and coupon
/// codes are stored.
pub fn trim_to_uppercase(s: &str) -> (r: String)
    ensures
        r@ == unicode_uppercase(trim(s@)),
        all_ascii(trim(s@)) ==> r@ == ascii_upper(trim(s@)),
{
    let t = trim_str(s);
    str_to_uppercase(t.as_str())
}

/// `str::trim`: `s` without its leading and trailing Unicode whitespace.
pub fn trim_str(s: &str) -> (r: String)
    ensures
        r@ == trim(s@),
{
    let v = chars_of(s);
    let n = v.len();
    let mut lo: usize = 0;
    while lo < n && is_whitespace(v[lo])
        invariant
            n == v@.len(),
            lo <= n,
            forall|j: int| 0 <= j < lo ==> is_white_space(#[trigger] v@[j]),
        decreases n - lo,
    {
        lo = lo + 1;
    }
    proof {
        lemma_trim_start_skip(v@, lo as int);
    }
    let ghost rest = v@.skip(lo as int);
    assert(trim_start(rest) == rest) by {
        if rest.len() > 0 {
            assert(rest[0] == v@[lo as int]);
        }
    }
    let mut hi: usize = n;
    while hi > lo && is_whitespace(v[hi - 1])
        invariant
            n == v@.len(),
            lo <= hi <= n,
            forall|j: int| hi <= j < n ==> is_white_space(#[trigger] v@[j]),
        decreases hi,
    {
        hi = hi - 1;
    }
    proof {
        let k = hi - lo;
        assert forall|j: int| k <= j < rest.len() implies is_white_space(#[trigger] rest[j]) by {
            assert(rest[j] == v@[lo + j]);
        }
        lemma_trim_end_take(rest, k);
        let t = rest.take(k);
        if t.len() > 0 {
            assert(t.last() == v@[hi - 1]);
        }
        assert(trim_end(t) == t);
        assert(t =~= v@.subrange(lo as int, hi as int));
    }
    string_of(&v, lo, hi)
}

/// `char::to_ascii_lowercase`.
pub fn ascii_lower_of(c: char) -> (r: char)
    ensures
        r == ascii_lower_char(c),
{
    if 'A' <= c && c <= 'Z' {
        let b: u8 = (c as u8) + 32;
        b as char
    } else {
        c
    }
}

/// `char::to_ascii_uppercase`.
pub fn ascii_upper_of(c: char) -> (r: char)
    ensures
        r == ascii_upper_char(c),
{
    if 'a' <= c && c <= 'z' {
        let b: u8 = (c as u8) - 32;
        b as char
    } else {
        c
    }
}

/// `str::to_ascii_lowercase`.
pub fn to_ascii_lowercase(s: &str) -> (r: String)
    ensures
        r@ == ascii_lower(s@),
{
    let v = chars_of(s);
    let mut out = String::new();
    let mut i: usize = 0;
    while i < v.len()
        invariant
            i <= v@.len(),
            v@ == s@,
            out@ == ascii_lower(v@.take(i as int)),
        decreases v@.len() - i,
    {
        let c = ascii_lower_of(v[i]);
        push_char(&mut out, c);
        assert(ascii_lower(v@.take(i + 1)) =~= ascii_lower(v@.take(i as int)).push(c));
        i = i + 1;
    }
    assert(v@.take(v@.len() as int) =~= v@);
    out
}

/// `str::to_ascii_uppercase`.
pub fn to_ascii_uppercase(s: &str) -> (r: String)
    ensures
        r@ == ascii_upper(s@),
{
    let v = chars_of(s);
    let mut out = String::new();
    let mut i: usize = 0;
    while i < v.len()
        invariant
            i <= v@.len(),
            v@ == s@,
            out@ == ascii_upper(v@.take(i as int)),
        decreases v@.len() - i,
    {
        let c = ascii_upper_of(v[i]);
        push_char(&mut out, c);
        assert(ascii_upper(v@.take(i + 1)) =~= ascii_upper(v@.take(i as int)).push(c));
        i = i + 1;
    }
    assert(v@.take(v@.len() as int) =~= v@);
    out
}

/// Equality of two strings, character by character.
pub fn str_eq(a: &str, b: &str) -> (r: bool)
    ensures
        r == (a@ == b@),
{
    let x = chars_of(a);
    let y = chars_of(b);
    if x.len() != y.len() {
        return false;
    }
    let mut i: usize = 0;
    while i < x.len()
        invariant
            x@ == a@,
            y@ == b@,
            x@.len() == y@.len(),
            i <= x@.len(),
            forall|j: int| 0 <= j < i ==> x@[j] == y@[j],
        decreases x@.len() - i,
    {
        if x[i] != y[i] {
            return false;
        }
        i = i + 1;
    }
    assert(x@ =~= y@);
    true
}

/// `str::eq_ignore_ascii_case`.
pub fn eq_ignore_ascii_case(a: &str, b: &str) -> (r: bool)
    ensures
        r == (ascii_lower(a@) == ascii_lower(b@)),
{
    let x = chars_of(a);
    let y = chars_of(b);
    if x.len() != y.len() {
        assert(ascii_lower(a@).len() != ascii_lower(b@).len());
        return false;
    }
    let mut i: usize = 0;
    while i < x.len()
        invariant
            x@ == a@,
            y@ == b@,
            x@.len() == y@.len(),
            i <= x@.len(),
            forall|j: int| 0 <= j < i ==> ascii_lower_char(x@[j]) == ascii_lower_char(y@[j]),
        decreases x@.len() - i,
    {
        if ascii_lower_of(x[i]) != ascii_lower_of(y[i]) {
            assert(ascii_lower(a@)[i as int] != ascii_lower(b@)[i as int]);
            return false;
        }
        i = i + 1;
    }
    assert(ascii_lower(a@) =~= ascii_lower(b@));
    true
}

/// Whether `s` begins with `prefix`.
pub fn starts_with(s: &str, prefix: &str) -> (r: bool)
    ensures
        r == prefix@.is_prefix_of(s@),
{
    let x = chars_of(s);
    let p = chars_of(prefix);
    if p.len() > x.len() {
        return false;
    }
    let mut i: usize = 0;
    while i < p.len()
        invariant
            x@ == s@,
            p@ == prefix@,
            p@.len() <= x@.len(),
            i <= p@.len(),
            forall|j: int| 0 <= j < i ==> p@[j] == x@[j],
        decreases p@.len() - i,
    {
        if p[i] != x[i] {
            return false;
        }
        i = i + 1;
    }
    true
}

// ------------------------------------------------------------------
// Decimal numbers
// ------------------------------------------------------------------

pub open spec fn digit_char(d: nat) -> char
    recommends
        d < 10,
{
    ((d + 48) as u32) as char
}

/// The decimal digits of `n`, most significant first, without leading zeros.
pub open spec fn decimal(n: nat) -> Seq<char>
    decreases n,
{
    if n < 10 {
        seq![digit_char(n)]
    } else {
        decimal(n / 10).push(digit_char(n % 10))
    }
}

/// The decimal text of an integer: a `-` sign before negative numbers.
pub open spec fn decimal_int(n: int) -> Seq<char> {
    if n < 0 {
        seq!['-'].add(decimal((-n) as nat))
    } else {
        decimal(n as nat)
    }
}

/// The value of a sequence of decimal digits.
pub open spec fn digits_value(s: Seq<char>) -> int
    decreases s.len(),
{
    if s.len() == 0 {
        0
    } else {
        digits_value(s.drop_last()) * 10 + digit_value(s.last())
    }
}

pub open spec fn all_digits(s: Seq<char>) -> bool {
    forall|i: int| 0 <= i < s.len() ==> is_ascii_digit(#[trigger] s[i])
}

/// What `str::parse` reads as an integer before any range check: an optional
/// `+` or `-` sign followed by at least one ASCII digit.
pub open spec fn integer_text(s: Seq<char>) -> Option<int> {
    if s.len() > 0 && (s[0] == '+' || s[0] == '-') {
        let d = s.drop_first();
        if d.len() > 0 && all_digits(d) {
            Some(
                if s[0] == '-' {
                    -digits_value(d)
                } else {
                    digits_value(d)
                },
            )
        } else {
            None
        }
    } else if s.len() > 0 && all_digits(s) {
        Some(digits_value(s))
    } else {
        None
    }
}

/// What `str::parse::<T>` gives for a signed integer type whose range is
/// `lo..=hi`.
pub open spec fn parse_in_range(s: Seq<char>, lo: int, hi: int) -> Option<int> {
    match integer_text(s) {
        Some(v) => if lo <= v <= hi {
            Some(v)
        } else {
            None
        },
        None => None,
    }
}

proof fn lemma_digits_value_nonneg(s: Seq<char>)
    requires
        all_digits(s),
    ensures
        digits_value(s) >= 0,
    decreases s.len(),
{
    if s.len() > 0 {
        assert(all_digits(s.drop_last())) by {
            assert forall|i: int| 0 <= i < s.drop_last().len() implies is_ascii_digit(
                #[trigger] s.drop_last()[i],
            ) by {
                assert(s.drop_last()[i] == s[i]);
            }
        }
        lemma_digits_value_nonneg(s.drop_last());
        assert(is_ascii_digit(s[s.len() - 1]));
    }
}

/// The value of the digits grows as digits are added: the value of a prefix
/// is at most the value of the whole.
proof fn lemma_digits_value_prefix(s: Seq<char>, k: int)
    requires
        all_digits(s),
        0 <= k <= s.len(),
    ensures
        digits_value(s.take(k)) <= digits_value(s),
    decreases s.len() - k,
{
    if k < s.len() {
        let t = s.drop_last();
        assert(all_digits(t)) by {
            assert forall|i: int| 0 <= i < t.len() implies is_ascii_digit(#[trigger] t[i]) by {
                assert(t[i] == s[i]);
            }
        }
        assert(t.take(k) =~= s.take(k));
        lemma_digits_value_prefix(t, k);
        lemma_digits_value_nonneg(t);
        assert(is_ascii_digit(s[s.len() - 1]));
    } else {
        assert(s.take(k) =~= s);
    }
}

/// Reads the digits `v[start..]`: their value, or `None` once it exceeds
/// `bound`.
fn read_digits(v: &Vec<char>, start: usize, bound: u64) -> (r: Option<u64>)
    requires
        start < v@.len(),
        all_digits(v@.skip(start as int)),
        9 <= bound <= 10_000_000_000_000_000_000u64,
    ensures
        r matches Some(x) ==> x == digits_value(v@.skip(start as int)) && x <= bound,
        r is None ==> digits_value(v@.skip(start as int)) > bound,
{
    let ghost d = v@.skip(start as int);
    let mut acc: u64 = 0;
    let mut i = start;
    while i < v.len()
        invariant
            start <= i <= v@.len(),
            d == v@.skip(start as int),
            all_digits(d),
            9 <= bound <= 10_000_000_000_000_000_000u64,
            acc == digits_value(d.take(i - start)),
            acc <= bound,
        decreases v@.len() - i,
    {
        let c = v[i];
        assert(c == d[i - start]);
        assert(is_ascii_digit(c));
        let dv: u64 = (c as u32 - '0' as u32) as u64;
        assert(d.take(i - start + 1).drop_last() =~= d.take(i - start));
        assert(d.take(i - start + 1).last() == c);
        if acc > (bound - dv) / 10 {
            proof {
                assert(acc * 10 + dv > bound) by (nonlinear_arith)
                    requires
                        acc > (bound - dv) / 10,
                        dv <= bound || dv <= 9,
                ;
                lemma_digits_value_prefix(d, i - start + 1);
            }
            return None;
        }
        assert(acc * 10 + dv <= bound) by (nonlinear_arith)
            requires
                acc <= (bound - dv) / 10,
                dv <= bound,
        ;
        acc = acc * 10 + dv;
        i = i + 1;
    }
    assert(d.take(i - start) =~= d);
    Some(acc)
}

/// `str::parse::<i64>`.
pub fn parse_i64(s: &str) -> (r: Option<i64>)
    ensures
        r matches Some(x) ==> parse_in_range(s@, i64::MIN as int, i64::MAX as int) == Some(
            x as int,
        ),
        r is None ==> parse_in_range(s@, i64::MIN as int, i64::MAX as int) is None,
{
    let v = chars_of(s);
    let n = v.len();
    if n == 0 {
        return None;
    }
    let first = v[0];
    let neg = first == '-';
    let start: usize = if first == '+' || first == '-' {
        1
    } else {
        0
    };
    if start >= n {
        return None;
    }
    let mut i = start;
    while i < n
        invariant
            n == v@.len(),
            v@ == s@,
            n > 0,
            start == 0 || start == 1,
            (start == 1) == (v@[0] == '+' || v@[0] == '-'),
            start <= i <= n,
            forall|j: int| start <= j < i ==> is_ascii_digit(#[trigger] v@[j]),
        decreases n - i,
    {
        if !('0' <= v[i] && v[i] <= '9') {
            proof {
                let d = v@.skip(start as int);
                assert(d[i - start] == v@[i as int]);
                assert(!all_digits(d));
                if start == 1 {
                    assert(d =~= v@.drop_first());
                } else {
                    assert(d =~= v@);
                }
            }
            return None;
        }
        i = i + 1;
    }
    let ghost d = v@.skip(start as int);
    assert(all_digits(d)) by {
        assert forall|j: int| 0 <= j < d.len() implies is_ascii_digit(#[trigger] d[j]) by {
            assert(d[j] == v@[start + j]);
        }
    }
    assert(start == 1 ==> d =~= v@.drop_first());
    assert(start == 0 ==> d =~= v@);
    let bound: u64 = if neg {
        9_223_372_036_854_775_808u64
    } else {
        9_223_372_036_854_775_807u64
    };
    match read_digits(&v, start, bound) {
        None => None,
        Some(x) => {
            if neg {
                if x == 9_223_372_036_854_775_808u64 {
                    Some(i64::MIN)
                } else {
                    let y: i64 = x as i64;
                    Some(-y)
                }
            } else {
                Some(x as i64)
            }
        },
    }
}

/// `str::parse::<i32>`.
pub fn parse_i32(s: &str) -> (r: Option<i32>)
    ensures
        r matches Some(x) ==> parse_in_range(s@, i32::MIN as int, i32::MAX as int) == Some(
            x as int,
        ),
        r is None ==> parse_in_range(s@, i32::MIN as int, i32::MAX as int) is None,
{
    match parse_i64(s) {
        Some(x) => if i32::MIN as i64 <= x && x <= i32::MAX as i64 {
            Some(x as i32)
        } else {
            None
        },
        None => {
            proof {
                if let Some(v) = integer_text(s@) {
                    assert(!(i64::MIN <= v <= i64::MAX));
                }
            }
            None
        },
    }
}

/// `str::parse::<i16>`.
pub fn parse_i16(s: &str) -> (r: Option<i16>)
    ensures
        r matches Some(x) ==> parse_in_range(s@, i16::MIN as int, i16::MAX as int) == Some(
            x as int,
        ),
        r is None ==> parse_in_range(s@, i16::MIN as int, i16::MAX as int) is None,
{
    match parse_i64(s) {
        Some(x) => if i16::MIN as i64 <= x && x <= i16::MAX as i64 {
            Some(x as i16)
        } else {
            None
        },
        None => {
            proof {
                if let Some(v) = integer_text(s@) {
                    assert(!(i64::MIN <= v <= i64::MAX));
                }
            }
            None
        },
    }
}


fn digit_of(d: u64) -> (c: char)
    requires
        d < 10,
    ensures
        c == digit_char(d as nat),
        is_ascii_digit(c),
        digit_value(c) == d,
{
    let b: u8 = (d as u8) + 48;
    b as char
}

/// The decimal text of an unsigned number (`u64::to_string`).
pub fn u64_to_decimal(n: u64) -> (r: String)
    ensures
        r@ == decimal(n as nat),
    decreases n,
{
    if n < 10 {
        let mut s = String::new();
        push_char(&mut s, digit_of(n));
        assert(s@ =~= seq![digit_char(n as nat)]);
        s
    } else {
        let mut s = u64_to_decimal(n / 10);
        push_char(&mut s, digit_of(n % 10));
        s
    }
}

/// The decimal text of a signed number (`i64::to_string`).
pub fn i64_to_decimal(n: i64) -> (r: String)
    ensures
        r@ == decimal_int(n as int),
{
    if n < 0 {
        let m: u64 = (0i128 - (n as i128)) as u64;
        let digits = u64_to_decimal(m);
        let mut s = String::new();
        push_char(&mut s, '-');
        let mut i: usize = 0;
        let v = chars_of(digits.as_str());
        while i < v.len()
            invariant
                i <= v@.len(),
                v@ == decimal(m as nat),
                s@ == seq!['-'].add(v@.take(i as int)),
            decreases v@.len() - i,
        {
            push_char(&mut s, v[i]);
            assert(v@.take(i + 1) =~= v@.take(i as int).push(v@[i as int]));
            assert(seq!['-'].add(v@.take(i + 1)) =~= seq!['-'].add(v@.take(i as int)).push(v@[i as int]));
            i = i + 1;
        }
        assert(v@.take(v@.len() as int) =~= v@);
        s
    } else {
        u64_to_decimal(n as u64)
    }
}

pub proof fn lemma_decimal_digits(n: nat)
    ensures
        all_digits(decimal(n)),
        decimal(n).len() > 0,
        digits_value(decimal(n)) == n,
    decreases n,
{
    if n < 10 {
        let s = decimal(n);
        assert(s.drop_last() =~= Seq::<char>::empty());
        assert(digit_value(digit_char(n)) == n);
        assert(digits_value(s) == digits_value(s.drop_last()) * 10 + digit_value(s.last()));
        assert(digits_value(Seq::<char>::empty()) == 0);
    } else {
        lemma_decimal_digits(n / 10);
        let s = decimal(n);
        assert(s.drop_last() =~= decimal(n / 10));
        assert(digit_value(digit_char(n % 10)) == n % 10);
        assert(s.last() == digit_char(n % 10));
        assert(digits_value(s) == digits_value(decimal(n / 10)) * 10 + digit_value(s.last()));
        assert((n / 10) * 10 + n % 10 == n);
        assert forall|i: int| 0 <= i < s.len() implies is_ascii_digit(#[trigger] s[i]) by {
            if i < s.len() - 1 {
                assert(s[i] == decimal(n / 10)[i]);
            }
        }
    }
}

/// Reading back the decimal text of a number gives the number.
pub proof fn decimal_text_reads_back(n: int)
    ensures
        integer_text(decimal_int(n)) == Some(n),
{
    if n < 0 {
        let m = (-n) as nat;
        lemma_decimal_digits(m);
        let s = decimal_int(n);
        assert(s.drop_first() =~= decimal(m));
    } else {
        lemma_decimal_digits(n as nat);
        let s = decimal(n as nat);
        assert(is_ascii_digit(s[0]));
    }
}

// ------------------------------------------------------------------
// Splitting
// ------------------------------------------------------------------

/// The characters of `s` before the first `c` (all of them when there is none).
pub open spec fn before_char(s: Seq<char>, c: char) -> Seq<char>
    decreases s.len(),
{
    if s.len() == 0 {
        s
    } else if s[0] == c {
        Seq::empty()
    } else {
        seq![s[0]].add(before_char(s.drop_first(), c))
    }
}

/// The characters of `s` after the first `c`.
pub open spec fn after_char(s: Seq<char>, c: char) -> Seq<char> {
    s.skip(before_char(s, c).len() as int + 1)
}

pub proof fn lemma_before_char(s: Seq<char>, c: char, i: int)
    requires
        0 <= i <= s.len(),
        forall|j: int| 0 <= j < i ==> s[j] != c,
        i == s.len() || s[i] == c,
    ensures
        before_char(s, c) == s.subrange(0, i),
    decreases s.len(),
{
    if s.len() == 0 {
        assert(s.subrange(0, 0) =~= s);
    } else if i == 0 {
        assert(s.subrange(0, 0) =~= Seq::<char>::empty());
    } else {
        let t = s.drop_first();
        assert forall|j: int| 0 <= j < i - 1 implies t[j] != c by {
            assert(t[j] == s[j + 1]);
        }
        lemma_before_char(t, c, i - 1);
        assert(seq![s[0]].add(t.subrange(0, i - 1)) =~= s.subrange(0, i));
    }
}

/// The position of the first `c` in `v` from `from` on (`v.len()` when there
/// is none).
pub fn find_char(v: &Vec<char>, from: usize, c: char) -> (r: usize)
    requires
        from <= v@.len(),
    ensures
        from <= r <= v@.len(),
        r < v@.len() ==> v@[r as int] == c,
        forall|j: int| from <= j < r ==> v@[j] != c,
        before_char(v@.skip(from as int), c) == v@.subrange(from as int, r as int),
        v@.skip(from as int).contains(c) <==> r < v@.len(),
        r < v@.len() ==> after_char(v@.skip(from as int), c) == v@.skip(r + 1),
{
    let mut i = from;
    while i < v.len() && v[i] != c
        invariant
            from <= i <= v@.len(),
            forall|j: int| from <= j < i ==> v@[j] != c,
        decreases v@.len() - i,
    {
        i = i + 1;
    }
    proof {
        let s = v@.skip(from as int);
        assert forall|j: int| 0 <= j < i - from implies s[j] != c by {
            assert(s[j] == v@[from + j]);
        }
        if i < v@.len() {
            assert(s[i - from] == v@[i as int]);
        }
        lemma_before_char(s, c, i - from);
        assert(s.subrange(0, i - from) =~= v@.subrange(from as int, i as int));
        if i < v@.len() {
            assert(s.contains(c));
            assert(s.skip(i - from + 1) =~= v@.skip(i + 1));
        } else {
            assert forall|j: int| 0 <= j < s.len() implies s[j] != c by {
                assert(s[j] == v@[from + j]);
            }
        }
    }
    i
}

/// `str::split_once`: the text before and after the first `c`, when `s`
/// holds one.
pub fn split_once_char(s: &str, c: char) -> (r: Option<(String, String)>)
    ensures
        r matches Some((a, b)) ==> s@.contains(c) && a@ == before_char(s@, c) && b@ == after_char(
            s@,
            c,
        ),
        r is None ==> !s@.contains(c),
{
    let v = chars_of(s);
    let i = find_char(&v, 0, c);
    proof {
        assert(v@.skip(0) =~= v@);
    }
    if i < v.len() {
        let a = string_of(&v, 0, i);
        let b = string_of(&v, i + 1, v.len());
        assert(v@.subrange(i + 1, v@.len() as int) =~= v@.skip(i + 1));
        Some((a, b))
    } else {
        None
    }
}

// ------------------------------------------------------------------
// UTF-8 length
// ------------------------------------------------------------------

/// The number of bytes UTF-8 takes for `c`.
pub open spec fn utf8_width(c: char) -> nat {
    if (c as u32) < 0x80 {
        1
    } else if (c as u32) < 0x800 {
        2
    } else if (c as u32) < 0x10000 {
        3
    } else {
        4
    }
}

/// The number of bytes of `s` in UTF-8, what `str::len` counts.
pub open spec fn utf8_len(s: Seq<char>) -> nat
    decreases s.len(),
{
    if s.len() == 0 {
        0
    } else {
        utf8_len(s.drop_last()) + utf8_width(s.last())
    }
}

proof fn lemma_utf8_len_grows(s: Seq<char>, i: int, j: int)
    requires
        0 <= i <= j <= s.len(),
    ensures
        utf8_len(s.take(i)) <= utf8_len(s.take(j)),
    decreases j - i,
{
    if i < j {
        lemma_utf8_len_grows(s, i, j - 1);
        assert(s.take(j).drop_last() =~= s.take(j - 1));
    }
}

fn utf8_width_of(c: char) -> (r: usize)
    ensures
        r == utf8_width(c),
{
    let n = c as u32;
    if n < 0x80 {
        1
    } else if n < 0x800 {
        2
    } else if n < 0x10000 {
        3
    } else {
        4
    }
}

/// Whether `s` takes more than `limit` bytes in UTF-8.
pub fn utf8_len_exceeds(s: &str, limit: usize) -> (r: bool)
    requires
        limit < usize::MAX - 4,
    ensures
        r == (utf8_len(s@) > limit),
{
    let v = chars_of(s);
    let mut total: usize = 0;
    let mut i: usize = 0;
    while i < v.len()
        invariant
            v@ == s@,
            i <= v@.len(),
            limit < usize::MAX - 4,
            total == utf8_len(v@.take(i as int)),
            total <= limit,
        decreases v@.len() - i,
    {
        assert(v@.take(i + 1).drop_last() =~= v@.take(i as int));
        total = total + utf8_width_of(v[i]);
        i = i + 1;
        if total > limit {
            proof {
                lemma_utf8_len_grows(v@, i as int, v@.len() as int);
                assert(v@.take(v@.len() as int) =~= v@);
            }
            return true;
        }
    }
    assert(v@.take(v@.len() as int) =~= v@);
    false
}

/// `str::split`: the pieces of `s` between occurrences of `c`, in order;
/// there is always at least one.
pub open spec fn split_on(s: Seq<char>, c: char) -> Seq<Seq<char>>
    decreases s.len(),
{
    if s.len() == 0 {
        seq![Seq::<char>::empty()]
    } else {
        let prev = split_on(s.drop_last(), c);
        if s.last() == c {
            prev.push(Seq::<char>::empty())
        } else {
            prev.update(prev.len() - 1, prev.last().push(s.last()))
        }
    }
}

pub proof fn lemma_split_on_len(s: Seq<char>, c: char)
    ensures
        split_on(s, c).len() >= 1,
    decreases s.len(),
{
    if s.len() > 0 {
        lemma_split_on_len(s.drop_last(), c);
    }
}

// ------------------------------------------------------------------
// Hexadecimal
// ------------------------------------------------------------------

/// The value of a hexadecimal digit, in either case.
pub open spec fn hex_value(c: char) -> Option<int> {
    if '0' <= c && c <= '9' {
        Some((c as u32) - ('0' as u32))
    } else if 'a' <= c && c <= 'f' {
        Some((c as u32) - ('a' as u32) + 10)
    } else if 'A' <= c && c <= 'F' {
        Some((c as u32) - ('A' as u32) + 10)
    } else {
        None
    }
}

/// What `u8::from_str_radix(_, 16)` reads from two characters: two
/// hexadecimal digits, or a `+` sign and one digit.
pub open spec fn hex_pair(a: char, b: char) -> Option<int> {
    if a == '+' {
        hex_value(b)
    } else {
        match (hex_value(a), hex_value(b)) {
            (Some(x), Some(y)) => Some(16 * x + y),
            _ => None,
        }
    }
}

/// The bytes a text of hexadecimal pairs stands for, read two characters at
/// a time; `None` when a pair does not read or a character is left over.
pub open spec fn hex_bytes(s: Seq<char>) -> Option<Seq<u8>>
    decreases s.len(),
{
    if s.len() == 0 {
        Some(Seq::empty())
    } else if s.len() == 1 {
        None
    } else {
        match (hex_pair(s[0], s[1]), hex_bytes(s.skip(2))) {
            (Some(b), Some(rest)) => Some(seq![b as u8] + rest),
            _ => None,
        }
    }
}

fn hex_value_of(c: char) -> (r: Option<u8>)
    ensures
        match hex_value(c) {
            Some(x) => r == Some(x as u8) && 0 <= x < 16,
            None => r is None,
        },
{
    if '0' <= c && c <= '9' {
        Some((c as u8) - 48)
    } else if 'a' <= c && c <= 'f' {
        Some((c as u8) - 87)
    } else if 'A' <= c && c <= 'F' {
        Some((c as u8) - 55)
    } else {
        None
    }
}

fn hex_pair_of(a: char, b: char) -> (r: Option<u8>)
    ensures
        match hex_pair(a, b) {
            Some(x) => r == Some(x as u8) && 0 <= x < 256,
            None => r is None,
        },
{
    if a == '+' {
        return hex_value_of(b);
    }
    match (hex_value_of(a), hex_value_of(b)) {
        (Some(x), Some(y)) => Some(16 * x + y),
        _ => None,
    }
}

/// Decodes a text of hexadecimal pairs into bytes.
pub fn decode_hex(s: &str) -> (r: Option<Vec<u8>>)
    ensures
        match hex_bytes(s@) {
            Some(b) => r matches Some(v) && v@ == b,
            None => r is None,
        },
{
    let v = chars_of(s);
    let mut out: Vec<u8> = Vec::new();
    let mut i: usize = 0;
    proof {
        assert(v@.skip(0) =~= v@);
        if let Some(rest) = hex_bytes(v@) {
            assert(out@ + rest =~= rest);
        }
    }
    while i < v.len()
        invariant
            v@ == s@,
            i <= v@.len(),
            hex_bytes(v@.skip(i as int)) matches Some(rest) ==> hex_bytes(v@) == Some(out@ + rest),
            hex_bytes(v@.skip(i as int)) is None ==> hex_bytes(v@) is None,
        decreases v@.len() - i,
    {
        let ghost t = v@.skip(i as int);
        if i + 1 >= v.len() {
            assert(t.len() == 1);
            return None;
        }
        assert(t[0] == v@[i as int] && t[1] == v@[i + 1]);
        assert(t.skip(2) =~= v@.skip(i + 2));
        match hex_pair_of(v[i], v[i + 1]) {
            Some(b) => {
                proof {
                    if let Some(rest) = hex_bytes(v@.skip(i + 2)) {
                        assert(out@.push(b) + rest =~= out@ + (seq![b] + rest));
                    }
                }
                out.push(b);
            },
            None => {
                return None;
            },
        }
        i = i + 2;
    }
    assert(v@.skip(i as int) =~= Seq::<char>::empty());
    assert(out@ + Seq::<u8>::empty() =~= out@);
    Some(out)
}

/// Whether `s` is empty once trimmed.
pub fn is_blank_str(s: &str) -> (r: bool)
    ensures
        r == is_blank(s@),
{
    let t = trim_str(s);
    t.as_str().unicode_len() == 0
}

/// `s` with every `from` replaced by `to`.
pub open spec fn replace_char(s: Seq<char>, from: char, to: char) -> Seq<char> {
    s.map_values(|c: char| if c == from { to } else { c })
}

/// `str::replace` of one character by another.
pub fn replace_char_str(s: &str, from: char, to: char) -> (r: String)
    ensures
        r@ == replace_char(s@, from, to),
{
    let v = chars_of(s);
    let mut out = String::new();
    let mut i: usize = 0;
    while i < v.len()
        invariant
            v@ == s@,
            i <= v@.len(),
            out@ == replace_char(v@.take(i as int), from, to),
        decreases v@.len() - i,
    {
        let c = if v[i] == from {
            to
        } else {
            v[i]
        };
        push_char(&mut out, c);
        assert(replace_char(v@.take(i + 1), from, to) =~= replace_char(v@.take(i as int), from, to).push(c));
        i = i + 1;
    }
    assert(v@.take(v@.len() as int) =~= v@);
    out
}

/// `needle` occurs in `hay` at position `i`.
pub open spec fn occurs_at(hay: Seq<char>, needle: Seq<char>, i: int) -> bool {
    0 <= i && i + needle.len() <= hay.len() && hay.subrange(i, i + needle.len()) == needle
}

/// `str::contains` of a text.
pub fn contains_str(hay: &str, needle: &str) -> (r: bool)
    ensures
        r == exists|i: int| occurs_at(hay@, needle@, i),
{
    let h = chars_of(hay);
    let n = chars_of(needle);
    if n.len() > h.len() {
        assert forall|i: int| !occurs_at(hay@, needle@, i) by {}
        return false;
    }
    let hl: usize = h.len();
    let limit: usize = hl - n.len();
    let mut i: usize = 0;
    while i <= limit
        invariant
            hl == h@.len(),
            h@ == hay@,
            n@ == needle@,
            limit == h@.len() - n@.len(),
            i <= limit + 1,
            forall|k: int| 0 <= k < i ==> !occurs_at(hay@, needle@, k),
        decreases limit + 1 - i,
    {
        let mut j: usize = 0;
        let mut same = true;
        while j < n.len() && same
            invariant
                hl == h@.len(),
                h@ == hay@,
                n@ == needle@,
                i <= limit,
                limit == h@.len() - n@.len(),
                j <= n@.len(),
                same ==> forall|k: int| 0 <= k < j ==> h@[i + k] == n@[k],
                !same ==> j > 0 && h@[i + j - 1] != n@[j - 1],
            decreases n@.len() - j,
        {
            assert(i + j < hl);
            let k: usize = i + j;
            if h[k] != n[j] {
                same = false;
            }
            j = j + 1;
        }
        if same {
            assert(h@.subrange(i as int, i + n@.len()) =~= n@);
            assert(occurs_at(hay@, needle@, i as int));
            return true;
        }
        assert(!occurs_at(hay@, needle@, i as int)) by {
            assert(h@.subrange(i as int, i + n@.len())[j - 1] == h@[i + j - 1]);
        }
        i = i + 1;
    }
    assert forall|k: int| !occurs_at(hay@, needle@, k) by {
        if 0 <= k && k + n@.len() <= h@.len() {
            assert(k < i);
        }
    }
    false
}

/// Text made only of whitespace is blank; so text that is not blank has a
/// character that is not whitespace.
pub proof fn lemma_white_space_is_blank(s: Seq<char>)
    ensures
        (forall|i: int| 0 <= i < s.len() ==> is_white_space(#[trigger] s[i])) ==> is_blank(s),
        !is_blank(s) ==> exists|i: int| 0 <= i < s.len() && !is_white_space(#[trigger] s[i]),
    decreases s.len(),
{
    if forall|i: int| 0 <= i < s.len() ==> is_white_space(#[trigger] s[i]) {
        lemma_all_white_space_trims_away(s);
    }
}

proof fn lemma_all_white_space_trims_away(s: Seq<char>)
    requires
        forall|i: int| 0 <= i < s.len() ==> is_white_space(#[trigger] s[i]),
    ensures
        trim_start(s).len() == 0,
        is_blank(s),
    decreases s.len(),
{
    if s.len() > 0 {
        let d = s.drop_first();
        assert forall|i: int| 0 <= i < d.len() implies is_white_space(#[trigger] d[i]) by {
            assert(d[i] == s[i + 1]);
        }
        assert(is_white_space(s[0]));
        lemma_all_white_space_trims_away(d);
    }
    assert(trim_start(s).len() == 0);
    assert(trim_end(trim_start(s)).len() == 0);
}

} // verus!
