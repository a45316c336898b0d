//! Locales and the error keys whose localized messages responses carry.
use crate::text::{ascii_lower, ascii_lower_char, chars_of, is_ascii_upper, starts_with, string_of, to_ascii_lowercase, trim, trim_str};
use vstd::prelude::*;

verus! {

/// `s` in kebab case: each capital letter after the first character gets a
/// `-` before it, and every letter is in lower case.
pub open spec fn kebab_case(s: Seq<char>) -> Seq<char>
    decreases s.len(),
{
    if s.len() == 0 {
        Seq::empty()
    } else {
        let c = s.last();
        let front = kebab_case(s.drop_last());
        if is_ascii_upper(c) && s.len() > 1 {
            front.push('-').push(ascii_lower_char(c))
        } else {
            front.push(ascii_lower_char(c))
        }
    }
}

/// The language a response is written in.
#[derive(Debug, Clone, Copy, PartialEq, Eq, Structural)]
pub enum Locale {
    En,
    PtBr,
}

/// The characters of `s` before its first comma (all of them when there is
/// none): the first entry of an `Accept-Language` list.
pub open spec fn before_comma(s: Seq<char>) -> Seq<char>
    decreases s.len(),
{
    if s.len() == 0 {
        s
    } else if s[0] == ',' {
        Seq::empty()
    } else {
        seq![s[0]].add(before_comma(s.drop_first()))
    }
}

pub open spec fn pt_br_prefix() -> Seq<char> {
    seq!['p', 't', '-', 'b', 'r']
}

/// The locale an `Accept-Language` header asks for: Brazilian Portuguese when
/// its first entry, trimmed and lowercased, starts with `pt-br`; English
/// otherwise, and when there is no header.
pub open spec fn locale_for_header(header: Option<Seq<char>>) -> Locale {
    match header {
        Some(h) => if pt_br_prefix().is_prefix_of(ascii_lower(trim(before_comma(h)))) {
            Locale::PtBr
        } else {
            Locale::En
        },
        None => Locale::En,
    }
}

pub open spec fn opt_view(o: Option<&str>) -> Option<Seq<char>> {
    match o {
        Some(s) => Some(s@),
        None => None,
    }
}

/// The first comma-separated entry of `s`.
fn first_entry(s: &str) -> (r: String)
    ensures
        r@ == before_comma(s@),
{
    let v = chars_of(s);
    let mut i: usize = 0;
    while i < v.len() && v[i] != ','
        invariant
            i <= v@.len(),
            v@ == s@,
            forall|j: int| 0 <= j < i ==> v@[j] != ',',
        decreases v@.len() - i,
    {
        i = i + 1;
    }
    proof {
        lemma_before_comma(v@, i as int);
    }
    string_of(&v, 0, i)
}

proof fn lemma_before_comma(s: Seq<char>, i: int)
    requires
        0 <= i <= s.len(),
        forall|j: int| 0 <= j < i ==> s[j] != ',',
        i == s.len() || s[i] == ',',
    ensures
        before_comma(s) == s.subrange(0, i),
    decreases s.len(),
{
    if s.len() == 0 {
        assert(s.subrange(0, 0) =~= s);
    } else if i == 0 {
        assert(s.subrange(0, 0) =~= Seq::<char>::empty());
    } else {
        let t = s.drop_first();
        assert forall|j: int| 0 <= j < i - 1 implies t[j] != ',' by {
            assert(t[j] == s[j + 1]);
        }
        lemma_before_comma(t, i - 1);
        assert(seq![s[0]].add(t.subrange(0, i - 1)) =~= s.subrange(0, i));
    }
}

impl Locale {
    /// The locale of a request, read from its `Accept-Language` header.
    pub fn from_accept_language(header: Option<&str>) -> (r: Self)
        ensures
            r == locale_for_header(opt_view(header)),
    {
        match header {
            None => Locale::En,
            Some(h) => {
                let first = first_entry(h);
                let trimmed = trim_str(first.as_str());
                let lang = to_ascii_lowercase(trimmed.as_str());
                let prefix = "pt-br";
                proof {
                    reveal_strlit("pt-br");
                    assert(prefix@ =~= pt_br_prefix());
                }
                if starts_with(lang.as_str(), prefix) {
                    Locale::PtBr
                } else {
                    Locale::En
                }
            },
        }
    }

    /// The language tag the locale's messages are stored under.
    pub fn language_id(self) -> (r: &'static str)
        ensures
            r@ == match self {
                Locale::En => "en"@,
                Locale::PtBr => "pt-BR"@,
            },
    {
        match self {
            Locale::En => "en",
            Locale::PtBr => "pt-BR",
        }
    }
}

/// The reasons a request can be refused with, each with a stable code and a
/// localized message.
#[derive(Debug, Clone, Copy, PartialEq, Eq, Structural)]
pub enum ErrorKey {
    AuthHeaderMissing,
    BadCredentials,
    InvalidCurrentPassword,
    RequiredParameterMissing,
    InvalidParameterValue,
    RequiredHeaderValueMissing,
    InvalidJwtToken,
    TenantCreatedFailed,
    TenantNotFound,
    TenantUpdateFailed,
    PurchaseInvalid,
    PurchaseNotFound,
    PurchaseForbidden,
    PurchaseConflict,
    PurchaseUnavailable,
}

impl ErrorKey {
    /// The code of the key, as clients see it.
    pub open spec fn code(self) -> Seq<char> {
        match self {
            ErrorKey::AuthHeaderMissing => "AuthHeaderMissing"@,
            ErrorKey::BadCredentials => "BadCredentials"@,
            ErrorKey::InvalidCurrentPassword => "InvalidCurrentPassword"@,
            ErrorKey::RequiredParameterMissing => "RequiredParameterMissing"@,
            ErrorKey::InvalidParameterValue => "InvalidParameterValue"@,
            ErrorKey::RequiredHeaderValueMissing => "RequiredHeaderValueMissing"@,
            ErrorKey::InvalidJwtToken => "InvalidJwtToken"@,
            ErrorKey::TenantCreatedFailed => "TenantCreatedFailed"@,
            ErrorKey::TenantNotFound => "TenantNotFound"@,
            ErrorKey::TenantUpdateFailed => "TenantUpdateFailed"@,
            ErrorKey::PurchaseInvalid => "PurchaseInvalid"@,
            ErrorKey::PurchaseNotFound => "PurchaseNotFound"@,
            ErrorKey::PurchaseForbidden => "PurchaseForbidden"@,
            ErrorKey::PurchaseConflict => "PurchaseConflict"@,
            ErrorKey::PurchaseUnavailable => "PurchaseUnavailable"@,
        }
    }

    /// The identifier of the key's message in the message catalogue.
    pub open spec fn message(self) -> Seq<char> {
        match self {
            ErrorKey::AuthHeaderMissing => "auth-header-missing"@,
            ErrorKey::BadCredentials => "bad-credentials"@,
            ErrorKey::InvalidCurrentPassword => "invalid-current-password"@,
            ErrorKey::RequiredParameterMissing => "required-parameter-missing"@,
            ErrorKey::InvalidParameterValue => "invalid-parameter-value"@,
            ErrorKey::RequiredHeaderValueMissing => "required-header-value-missing"@,
            ErrorKey::InvalidJwtToken => "invalid-jwt-token"@,
            ErrorKey::TenantCreatedFailed => "tenant-created-failed"@,
            ErrorKey::TenantNotFound => "tenant-not-found"@,
            ErrorKey::TenantUpdateFailed => "tenant-update-failed"@,
            ErrorKey::PurchaseInvalid => "purchase-invalid"@,
            ErrorKey::PurchaseNotFound => "purchase-not-found"@,
            ErrorKey::PurchaseForbidden => "purchase-forbidden"@,
            ErrorKey::PurchaseConflict => "purchase-conflict"@,
            ErrorKey::PurchaseUnavailable => "purchase-unavailable"@,
        }
    }

    /// The code of the key.
    pub fn as_str(self) -> (r: &'static str)
        ensures
            r@ == self.code(),
    {
        match self {
            ErrorKey::AuthHeaderMissing => "AuthHeaderMissing",
            ErrorKey::BadCredentials => "BadCredentials",
            ErrorKey::InvalidCurrentPassword => "InvalidCurrentPassword",
            ErrorKey::RequiredParameterMissing => "RequiredParameterMissing",
            ErrorKey::InvalidParameterValue => "InvalidParameterValue",
            ErrorKey::RequiredHeaderValueMissing => "RequiredHeaderValueMissing",
            ErrorKey::InvalidJwtToken => "InvalidJwtToken",
            ErrorKey::TenantCreatedFailed => "TenantCreatedFailed",
            ErrorKey::TenantNotFound => "TenantNotFound",
            ErrorKey::TenantUpdateFailed => "TenantUpdateFailed",
            ErrorKey::PurchaseInvalid => "PurchaseInvalid",
            ErrorKey::PurchaseNotFound => "PurchaseNotFound",
            ErrorKey::PurchaseForbidden => "PurchaseForbidden",
            ErrorKey::PurchaseConflict => "PurchaseConflict",
            ErrorKey::PurchaseUnavailable => "PurchaseUnavailable",
        }
    }

    /// The identifier of the key's message.
    pub fn message_id(self) -> (r: &'static str)
        ensures
            r@ == self.message(),
    {
        match self {
            ErrorKey::AuthHeaderMissing => "auth-header-missing",
            ErrorKey::BadCredentials => "bad-credentials",
            ErrorKey::InvalidCurrentPassword => "invalid-current-password",
            ErrorKey::RequiredParameterMissing => "required-parameter-missing",
            ErrorKey::InvalidParameterValue => "invalid-parameter-value",
            ErrorKey::RequiredHeaderValueMissing => "required-header-value-missing",
            ErrorKey::InvalidJwtToken => "invalid-jwt-token",
            ErrorKey::TenantCreatedFailed => "tenant-created-failed",
            ErrorKey::TenantNotFound => "tenant-not-found",
            ErrorKey::TenantUpdateFailed => "tenant-update-failed",
            ErrorKey::PurchaseInvalid => "purchase-invalid",
            ErrorKey::PurchaseNotFound => "purchase-not-found",
            ErrorKey::PurchaseForbidden => "purchase-forbidden",
            ErrorKey::PurchaseConflict => "purchase-conflict",
            ErrorKey::PurchaseUnavailable => "purchase-unavailable",
        }
    }
}

/// The message id of a key is its code in kebab case: `InvalidJwtToken`
/// has the message `invalid-jwt-token`.
#[verifier::rlimit(100)]
#[verifier::spinoff_prover]
pub proof fn message_ids_are_kebab_codes(k: ErrorKey)
    ensures
        k.message() == kebab_case(k.code()),
{
    match k {
        ErrorKey::AuthHeaderMissing => {
            reveal_strlit("AuthHeaderMissing");
            reveal_strlit("auth-header-missing");
            assert("AuthHeaderMissing"@ =~= seq!['A', 'u', 't', 'h', 'H', 'e', 'a', 'd', 'e', 'r', 'M', 'i', 's', 's', 'i', 'n', 'g']);
            assert(kebab_case(seq!['A', 'u', 't', 'h', 'H', 'e', 'a', 'd', 'e', 'r', 'M', 'i', 's', 's', 'i', 'n', 'g']) =~= seq!['a', 'u', 't', 'h', '-', 'h', 'e', 'a', 'd', 'e', 'r', '-', 'm', 'i', 's', 's', 'i', 'n', 'g']) by {
                reveal_with_fuel(kebab_case, 18);
            }
            assert("auth-header-missing"@ =~= seq!['a', 'u', 't', 'h', '-', 'h', 'e', 'a', 'd', 'e', 'r', '-', 'm', 'i', 's', 's', 'i', 'n', 'g']);
        },
        ErrorKey::BadCredentials => {
            reveal_strlit("BadCredentials");
            reveal_strlit("bad-credentials");
            assert("BadCredentials"@ =~= seq!['B', 'a', 'd', 'C', 'r', 'e', 'd', 'e', 'n', 't', 'i', 'a', 'l', 's']);
            assert(kebab_case(seq!['B', 'a', 'd', 'C', 'r', 'e', 'd', 'e', 'n', 't', 'i', 'a', 'l', 's']) =~= seq!['b', 'a', 'd', '-', 'c', 'r', 'e', 'd', 'e', 'n', 't', 'i', 'a', 'l', 's']) by {
                reveal_with_fuel(kebab_case, 15);
            }
            assert("bad-credentials"@ =~= seq!['b', 'a', 'd', '-', 'c', 'r', 'e', 'd', 'e', 'n', 't', 'i', 'a', 'l', 's']);
        },
        ErrorKey::InvalidCurrentPassword => {
            reveal_strlit("InvalidCurrentPassword");
            reveal_strlit("invalid-current-password");
            assert("InvalidCurrentPassword"@ =~= seq!['I', 'n', 'v', 'a', 'l', 'i', 'd', 'C', 'u', 'r', 'r', 'e', 'n', 't', 'P', 'a', 's', 's', 'w', 'o', 'r', 'd']);
            assert(kebab_case(seq!['I', 'n', 'v', 'a', 'l', 'i', 'd', 'C', 'u', 'r', 'r', 'e', 'n', 't', 'P', 'a', 's', 's', 'w', 'o', 'r', 'd']) =~= seq!['i', 'n', 'v', 'a', 'l', 'i', 'd', '-', 'c', 'u', 'r', 'r', 'e', 'n', 't', '-', 'p', 'a', 's', 's', 'w', 'o', 'r', 'd']) by {
                reveal_with_fuel(kebab_case, 23);
            }
            assert("invalid-current-password"@ =~= seq!['i', 'n', 'v', 'a', 'l', 'i', 'd', '-', 'c', 'u', 'r', 'r', 'e', 'n', 't', '-', 'p', 'a', 's', 's', 'w', 'o', 'r', 'd']);
        },
        ErrorKey::RequiredParameterMissing => {
            reveal_strlit("RequiredParameterMissing");
            reveal_strlit("required-parameter-missing");
            assert("RequiredParameterMissing"@ =~= seq!['R', 'e', 'q', 'u', 'i', 'r', 'e', 'd', 'P', 'a', 'r', 'a', 'm', 'e', 't', 'e', 'r', 'M', 'i', 's', 's', 'i', 'n', 'g']);
            assert(kebab_case(seq!['R', 'e', 'q', 'u', 'i', 'r', 'e', 'd', 'P', 'a', 'r', 'a', 'm', 'e', 't', 'e', 'r', 'M', 'i', 's', 's', 'i', 'n', 'g']) =~= seq!['r', 'e', 'q', 'u', 'i', 'r', 'e', 'd', '-', 'p', 'a', 'r', 'a', 'm', 'e', 't', 'e', 'r', '-', 'm', 'i', 's', 's', 'i', 'n', 'g']) by {
                reveal_with_fuel(kebab_case, 25);
            }
            assert("required-parameter-missing"@ =~= seq!['r', 'e', 'q', 'u', 'i', 'r', 'e', 'd', '-', 'p', 'a', 'r', 'a', 'm', 'e', 't', 'e', 'r', '-', 'm', 'i', 's', 's', 'i', 'n', 'g']);
        },
        ErrorKey::InvalidParameterValue => {
            reveal_strlit("InvalidParameterValue");
            reveal_strlit("invalid-parameter-value");
            assert("InvalidParameterValue"@ =~= seq!['I', 'n', 'v', 'a', 'l', 'i', 'd', 'P', 'a', 'r', 'a', 'm', 'e', 't', 'e', 'r', 'V', 'a', 'l', 'u', 'e']);
            assert(kebab_case(seq!['I', 'n', 'v', 'a', 'l', 'i', 'd', 'P', 'a', 'r', 'a', 'm', 'e', 't', 'e', 'r', 'V', 'a', 'l', 'u', 'e']) =~= seq!['i', 'n', 'v', 'a', 'l', 'i', 'd', '-', 'p', 'a', 'r', 'a', 'm', 'e', 't', 'e', 'r', '-', 'v', 'a', 'l', 'u', 'e']) by {
                reveal_with_fuel(kebab_case, 22);
            }
            assert("invalid-parameter-value"@ =~= seq!['i', 'n', 'v', 'a', 'l', 'i', 'd', '-', 'p', 'a', 'r', 'a', 'm', 'e', 't', 'e', 'r', '-', 'v', 'a', 'l', 'u', 'e']);
        },
        ErrorKey::RequiredHeaderValueMissing => {
            reveal_strlit("RequiredHeaderValueMissing");
            reveal_strlit("required-header-value-missing");
            assert("RequiredHeaderValueMissing"@ =~= seq!['R', 'e', 'q', 'u', 'i', 'r', 'e', 'd', 'H', 'e', 'a', 'd', 'e', 'r', 'V', 'a', 'l', 'u', 'e', 'M', 'i', 's', 's', 'i', 'n', 'g']);
            assert(kebab_case(seq!['R', 'e', 'q', 'u', 'i', 'r', 'e', 'd', 'H', 'e', 'a', 'd', 'e', 'r', 'V', 'a', 'l', 'u', 'e', 'M', 'i', 's', 's', 'i', 'n', 'g']) =~= seq!['r', 'e', 'q', 'u', 'i', 'r', 'e', 'd', '-', 'h', 'e', 'a', 'd', 'e', 'r', '-', 'v', 'a', 'l', 'u', 'e', '-', 'm', 'i', 's', 's', 'i', 'n', 'g']) by {
                reveal_with_fuel(kebab_case, 27);
            }
            assert("required-header-value-missing"@ =~= seq!['r', 'e', 'q', 'u', 'i', 'r', 'e', 'd', '-', 'h', 'e', 'a', 'd', 'e', 'r', '-', 'v', 'a', 'l', 'u', 'e', '-', 'm', 'i', 's', 's', 'i', 'n', 'g']);
        },
        ErrorKey::InvalidJwtToken => {
            reveal_strlit("InvalidJwtToken");
            reveal_strlit("invalid-jwt-token");
            assert("InvalidJwtToken"@ =~= seq!['I', 'n', 'v', 'a', 'l', 'i', 'd', 'J', 'w', 't', 'T', 'o', 'k', 'e', 'n']);
            assert(kebab_case(seq!['I', 'n', 'v', 'a', 'l', 'i', 'd', 'J', 'w', 't', 'T', 'o', 'k', 'e', 'n']) =~= seq!['i', 'n', 'v', 'a', 'l', 'i', 'd', '-', 'j', 'w', 't', '-', 't', 'o', 'k', 'e', 'n']) by {
                reveal_with_fuel(kebab_case, 16);
            }
            assert("invalid-jwt-token"@ =~= seq!['i', 'n', 'v', 'a', 'l', 'i', 'd', '-', 'j', 'w', 't', '-', 't', 'o', 'k', 'e', 'n']);
        },
        ErrorKey::TenantCreatedFailed => {
            reveal_strlit("TenantCreatedFailed");
            reveal_strlit("tenant-created-failed");
            assert("TenantCreatedFailed"@ =~= seq!['T', 'e', 'n', 'a', 'n', 't', 'C', 'r', 'e', 'a', 't', 'e', 'd', 'F', 'a', 'i', 'l', 'e', 'd']);
            assert(kebab_case(seq!['T', 'e', 'n', 'a', 'n', 't', 'C', 'r', 'e', 'a', 't', 'e', 'd', 'F', 'a', 'i', 'l', 'e', 'd']) =~= seq!['t', 'e', 'n', 'a', 'n', 't', '-', 'c', 'r', 'e', 'a', 't', 'e', 'd', '-', 'f', 'a', 'i', 'l', 'e', 'd']) by {
                reveal_with_fuel(kebab_case, 20);
            }
            assert("tenant-created-failed"@ =~= seq!['t', 'e', 'n', 'a', 'n', 't', '-', 'c', 'r', 'e', 'a', 't', 'e', 'd', '-', 'f', 'a', 'i', 'l', 'e', 'd']);
        },
        ErrorKey::TenantNotFound => {
            reveal_strlit("TenantNotFound");
            reveal_strlit("tenant-not-found");
            assert("TenantNotFound"@ =~= seq!['T', 'e', 'n', 'a', 'n', 't', 'N', 'o', 't', 'F', 'o', 'u', 'n', 'd']);
            assert(kebab_case(seq!['T', 'e', 'n', 'a', 'n', 't', 'N', 'o', 't', 'F', 'o', 'u', 'n', 'd']) =~= seq!['t', 'e', 'n', 'a', 'n', 't', '-', 'n', 'o', 't', '-', 'f', 'o', 'u', 'n', 'd']) by {
                reveal_with_fuel(kebab_case, 15);
            }
            assert("tenant-not-found"@ =~= seq!['t', 'e', 'n', 'a', 'n', 't', '-', 'n', 'o', 't', '-', 'f', 'o', 'u', 'n', 'd']);
        },
        ErrorKey::TenantUpdateFailed => {
            reveal_strlit("TenantUpdateFailed");
            reveal_strlit("tenant-update-failed");
            assert("TenantUpdateFailed"@ =~= seq!['T', 'e', 'n', 'a', 'n', 't', 'U', 'p', 'd', 'a', 't', 'e', 'F', 'a', 'i', 'l', 'e', 'd']);
            assert(kebab_case(seq!['T', 'e', 'n', 'a', 'n', 't', 'U', 'p', 'd', 'a', 't', 'e', 'F', 'a', 'i', 'l', 'e', 'd']) =~= seq!['t', 'e', 'n', 'a', 'n', 't', '-', 'u', 'p', 'd', 'a', 't', 'e', '-', 'f', 'a', 'i', 'l', 'e', 'd']) by {
                reveal_with_fuel(kebab_case, 19);
            }
            assert("tenant-update-failed"@ =~= seq!['t', 'e', 'n', 'a', 'n', 't', '-', 'u', 'p', 'd', 'a', 't', 'e', '-', 'f', 'a', 'i', 'l', 'e', 'd']);
        },
        ErrorKey::PurchaseInvalid => {
            reveal_strlit("PurchaseInvalid");
            reveal_strlit("purchase-invalid");
            assert("PurchaseInvalid"@ =~= seq!['P', 'u', 'r', 'c', 'h', 'a', 's', 'e', 'I', 'n', 'v', 'a', 'l', 'i', 'd']);
            assert(kebab_case(seq!['P', 'u', 'r', 'c', 'h', 'a', 's', 'e', 'I', 'n', 'v', 'a', 'l', 'i', 'd']) =~= seq!['p', 'u', 'r', 'c', 'h', 'a', 's', 'e', '-', 'i', 'n', 'v', 'a', 'l', 'i', 'd']) by {
                reveal_with_fuel(kebab_case, 16);
            }
            assert("purchase-invalid"@ =~= seq!['p', 'u', 'r', 'c', 'h', 'a', 's', 'e', '-', 'i', 'n', 'v', 'a', 'l', 'i', 'd']);
        },
        ErrorKey::PurchaseNotFound => {
            reveal_strlit("PurchaseNotFound");
            reveal_strlit("purchase-not-found");
            assert("PurchaseNotFound"@ =~= seq!['P', 'u', 'r', 'c', 'h', 'a', 's', 'e', 'N', 'o', 't', 'F', 'o', 'u', 'n', 'd']);
            assert(kebab_case(seq!['P', 'u', 'r', 'c', 'h', 'a', 's', 'e', 'N', 'o', 't', 'F', 'o', 'u', 'n', 'd']) =~= seq!['p', 'u', 'r', 'c', 'h', 'a', 's', 'e', '-', 'n', 'o', 't', '-', 'f', 'o', 'u', 'n', 'd']) by {
                reveal_with_fuel(kebab_case, 17);
            }
            assert("purchase-not-found"@ =~= seq!['p', 'u', 'r', 'c', 'h', 'a', 's', 'e', '-', 'n', 'o', 't', '-', 'f', 'o', 'u', 'n', 'd']);
        },
        ErrorKey::PurchaseForbidden => {
            reveal_strlit("PurchaseForbidden");
            reveal_strlit("purchase-forbidden");
            assert("PurchaseForbidden"@ =~= seq!['P', 'u', 'r', 'c', 'h', 'a', 's', 'e', 'F', 'o', 'r', 'b', 'i', 'd', 'd', 'e', 'n']);
            assert(kebab_case(seq!['P', 'u', 'r', 'c', 'h', 'a', 's', 'e', 'F', 'o', 'r', 'b', 'i', 'd', 'd', 'e', 'n']) =~= seq!['p', 'u', 'r', 'c', 'h', 'a', 's', 'e', '-', 'f', 'o', 'r', 'b', 'i', 'd', 'd', 'e', 'n']) by {
                reveal_with_fuel(kebab_case, 18);
            }
            assert("purchase-forbidden"@ =~= seq!['p', 'u', 'r', 'c', 'h', 'a', 's', 'e', '-', 'f', 'o', 'r', 'b', 'i', 'd', 'd', 'e', 'n']);
        },
        ErrorKey::PurchaseConflict => {
            reveal_strlit("PurchaseConflict");
            reveal_strlit("purchase-conflict");
            assert("PurchaseConflict"@ =~= seq!['P', 'u', 'r', 'c', 'h', 'a', 's', 'e', 'C', 'o', 'n', 'f', 'l', 'i', 'c', 't']);
            assert(kebab_case(seq!['P', 'u', 'r', 'c', 'h', 'a', 's', 'e', 'C', 'o', 'n', 'f', 'l', 'i', 'c', 't']) =~= seq!['p', 'u', 'r', 'c', 'h', 'a', 's', 'e', '-', 'c', 'o', 'n', 'f', 'l', 'i', 'c', 't']) by {
                reveal_with_fuel(kebab_case, 17);
            }
            assert("purchase-conflict"@ =~= seq!['p', 'u', 'r', 'c', 'h', 'a', 's', 'e', '-', 'c', 'o', 'n', 'f', 'l', 'i', 'c', 't']);
        },
        ErrorKey::PurchaseUnavailable => {
            reveal_strlit("PurchaseUnavailable");
            reveal_strlit("purchase-unavailable");
            assert("PurchaseUnavailable"@ =~= seq!['P', 'u', 'r', 'c', 'h', 'a', 's', 'e', 'U', 'n', 'a', 'v', 'a', 'i', 'l', 'a', 'b', 'l', 'e']);
            assert(kebab_case(seq!['P', 'u', 'r', 'c', 'h', 'a', 's', 'e', 'U', 'n', 'a', 'v', 'a', 'i', 'l', 'a', 'b', 'l', 'e']) =~= seq!['p', 'u', 'r', 'c', 'h', 'a', 's', 'e', '-', 'u', 'n', 'a', 'v', 'a', 'i', 'l', 'a', 'b', 'l', 'e']) by {
                reveal_with_fuel(kebab_case, 20);
            }
            assert("purchase-unavailable"@ =~= seq!['p', 'u', 'r', 'c', 'h', 'a', 's', 'e', '-', 'u', 'n', 'a', 'v', 'a', 'i', 'l', 'a', 'b', 'l', 'e']);
        },
    }
}

/// Distinct keys have distinct message ids.
#[verifier::rlimit(100)]
#[verifier::spinoff_prover]
pub proof fn message_ids_are_distinct(a: ErrorKey, b: ErrorKey)
    requires
        a.message() == b.message(),
    ensures
        a == b,
{
    reveal_strlit("auth-header-missing");
    reveal_strlit("bad-credentials");
    reveal_strlit("invalid-current-password");
    reveal_strlit("required-parameter-missing");
    reveal_strlit("invalid-parameter-value");
    reveal_strlit("required-header-value-missing");
    reveal_strlit("invalid-jwt-token");
    reveal_strlit("tenant-created-failed");
    reveal_strlit("tenant-not-found");
    reveal_strlit("tenant-update-failed");
    reveal_strlit("purchase-invalid");
    reveal_strlit("purchase-not-found");
    reveal_strlit("purchase-forbidden");
    reveal_strlit("purchase-conflict");
    reveal_strlit("purchase-unavailable");
    assert("auth-header-missing"@ =~= seq!['a', 'u', 't', 'h', '-', 'h', 'e', 'a', 'd', 'e', 'r', '-', 'm', 'i', 's', 's', 'i', 'n', 'g']);
    assert("bad-credentials"@ =~= seq!['b', 'a', 'd', '-', 'c', 'r', 'e', 'd', 'e', 'n', 't', 'i', 'a', 'l', 's']);
    assert("invalid-current-password"@ =~= seq!['i', 'n', 'v', 'a', 'l', 'i', 'd', '-', 'c', 'u', 'r', 'r', 'e', 'n', 't', '-', 'p', 'a', 's', 's', 'w', 'o', 'r', 'd']);
    assert("required-parameter-missing"@ =~= seq!['r', 'e', 'q', 'u', 'i', 'r', 'e', 'd', '-', 'p', 'a', 'r', 'a', 'm', 'e', 't', 'e', 'r', '-', 'm', 'i', 's', 's', 'i', 'n', 'g']);
    assert("invalid-parameter-value"@ =~= seq!['i', 'n', 'v', 'a', 'l', 'i', 'd', '-', 'p', 'a', 'r', 'a', 'm', 'e', 't', 'e', 'r', '-', 'v', 'a', 'l', 'u', 'e']);
    assert("required-header-value-missing"@ =~= seq!['r', 'e', 'q', 'u', 'i', 'r', 'e', 'd', '-', 'h', 'e', 'a', 'd', 'e', 'r', '-', 'v', 'a', 'l', 'u', 'e', '-', 'm', 'i', 's', 's', 'i', 'n', 'g']);
    assert("invalid-jwt-token"@ =~= seq!['i', 'n', 'v', 'a', 'l', 'i', 'd', '-', 'j', 'w', 't', '-', 't', 'o', 'k', 'e', 'n']);
    assert("tenant-created-failed"@ =~= seq!['t', 'e', 'n', 'a', 'n', 't', '-', 'c', 'r', 'e', 'a', 't', 'e', 'd', '-', 'f', 'a', 'i', 'l', 'e', 'd']);
    assert("tenant-not-found"@ =~= seq!['t', 'e', 'n', 'a', 'n', 't', '-', 'n', 'o', 't', '-', 'f', 'o', 'u', 'n', 'd']);
    assert("tenant-update-failed"@ =~= seq!['t', 'e', 'n', 'a', 'n', 't', '-', 'u', 'p', 'd', 'a', 't', 'e', '-', 'f', 'a', 'i', 'l', 'e', 'd']);
    assert("purchase-invalid"@ =~= seq!['p', 'u', 'r', 'c', 'h', 'a', 's', 'e', '-', 'i', 'n', 'v', 'a', 'l', 'i', 'd']);
    assert("purchase-not-found"@ =~= seq!['p', 'u', 'r', 'c', 'h', 'a', 's', 'e', '-', 'n', 'o', 't', '-', 'f', 'o', 'u', 'n', 'd']);
    assert("purchase-forbidden"@ =~= seq!['p', 'u', 'r', 'c', 'h', 'a', 's', 'e', '-', 'f', 'o', 'r', 'b', 'i', 'd', 'd', 'e', 'n']);
    assert("purchase-conflict"@ =~= seq!['p', 'u', 'r', 'c', 'h', 'a', 's', 'e', '-', 'c', 'o', 'n', 'f', 'l', 'i', 'c', 't']);
    assert("purchase-unavailable"@ =~= seq!['p', 'u', 'r', 'c', 'h', 'a', 's', 'e', '-', 'u', 'n', 'a', 'v', 'a', 'i', 'l', 'a', 'b', 'l', 'e']);
}

pub open spec fn fallback_message() -> Seq<char> {
    "An unexpected error occurred"@
}

/// The text of an error message: the catalogue's entry for the locale and key
/// when the lookup found one, a fixed fallback otherwise.
pub fn translate(looked_up: Option<String>) -> (r: String)
    ensures
        r@ == match looked_up {
            Some(m) => m@,
            None => fallback_message(),
        },
{
    match looked_up {
        Some(message) => message,
        None => "An unexpected error occurred".to_owned(),
    }
}

} // verus!
