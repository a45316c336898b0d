//! Profile and avatar rules of the resource endpoints.
use crate::commons::exception_response::ExceptionResponse;
use crate::commons::i18n::{ErrorKey, Locale};
use crate::endpoints::json::person_json::{AvatarPresignRequest, PersonInputJson};
use crate::infrastructure::identifiers::new_uuid_text;
use crate::infrastructure::mapper::{cleaned_text, optional_text, text_view};
use crate::text::{
    before_char, char_is_alphanumeric, chars_of, decimal_int, find_char, i64_to_decimal, is_blank,
    is_ascii_char, is_blank_str, is_white_space, push_char, str_to_lowercase, string_of, trim, trim_str, unicode_alphanumeric,
    unicode_lowercase,
};
use vstd::prelude::*;

verus! {

/// What a file-name character becomes in a storage key: kept when it is
/// alphanumeric or one of `.`, `-`, `_`, else `_`.
pub open spec fn filename_char(c: char) -> char {
    if unicode_alphanumeric(c) || c == '.' || c == '-' || c == '_' {
        c
    } else {
        '_'
    }
}

/// A file name with every character that is not safe in a key replaced.
pub open spec fn sanitized_filename(name: Seq<char>) -> Seq<char> {
    name.map_values(|c: char| filename_char(c))
}

/// A character that may not stand in a storage key: a path separator or
/// ASCII whitespace.
pub open spec fn unsafe_in_key(c: char) -> bool {
    c == '/' || c == '\\' || (is_ascii_char(c) && is_white_space(c))
}

/// Replaces each character of `name` that is not alphanumeric, `.`, `-` or
/// `_` by `_`; so the result has the name's length and holds no path
/// separator and no ASCII whitespace.
pub fn sanitize_filename(name: &str) -> (r: String)
    ensures
        r@ == sanitized_filename(name@),
        r@.len() == name@.len(),
        forall|i: int| 0 <= i < r@.len() ==> !unsafe_in_key(#[trigger] r@[i]),
{
    let v = chars_of(name);
    let mut out = String::new();
    let mut i: usize = 0;
    while i < v.len()
        invariant
            v@ == name@,
            i <= v@.len(),
            out@ == sanitized_filename(v@.take(i as int)),
            forall|j: int| 0 <= j < out@.len() ==> !unsafe_in_key(#[trigger] out@[j]),
        decreases v@.len() - i,
    {
        let c = v[i];
        let kept = if char_is_alphanumeric(c) || c == '.' || c == '-' || c == '_' {
            c
        } else {
            '_'
        };
        push_char(&mut out, kept);
        assert(sanitized_filename(v@.take(i + 1)) =~= sanitized_filename(v@.take(i as int)).push(
            kept,
        ));
        i = i + 1;
    }
    assert(v@.take(v@.len() as int) =~= v@);
    out
}

/// Sanitising a file name keeps its length, and a sanitised name is its own
/// sanitised form.
pub proof fn sanitizing_is_idempotent(name: Seq<char>)
    ensures
        sanitized_filename(name).len() == name.len(),
        sanitized_filename(sanitized_filename(name)) == sanitized_filename(name),
{
    let s = sanitized_filename(name);
    assert forall|i: int| 0 <= i < s.len() implies #[trigger] filename_char(s[i]) == s[i] by {
        let c = name[i];
        if unicode_alphanumeric(c) || c == '.' || c == '-' || c == '_' {
        } else {
            assert(s[i] == '_');
        }
    }
    assert(sanitized_filename(s) =~= s);
}

/// The storage key of an uploaded avatar:
/// `tenants/{tenant}/avatars/{user}-{unique}-{sanitised name}`.
pub open spec fn avatar_key(tenant_id: int, user_id: int, unique_id: Seq<char>, filename: Seq<char>) -> Seq<char> {
    "tenants/"@ + decimal_int(tenant_id) + "/avatars/"@ + decimal_int(user_id) + "-"@ + unique_id + "-"@
        + sanitized_filename(filename)
}

/// Builds the storage key of an avatar upload; a user without a tenant
/// stores under tenant 0.
pub fn avatar_object_key(tenant_id: Option<i64>, user_id: i64, unique_id: &str, filename: &str) -> (r: String)
    ensures
        r@ == avatar_key(
            match tenant_id {
                Some(t) => t as int,
                None => 0,
            },
            user_id as int,
            unique_id@,
            filename@,
        ),
{
    let tenant: i64 = match tenant_id {
        Some(t) => t,
        None => 0,
    };
    let mut key = String::from_str("tenants/");
    key.append(i64_to_decimal(tenant).as_str());
    key.append("/avatars/");
    key.append(i64_to_decimal(user_id).as_str());
    key.append("-");
    key.append(unique_id);
    key.append("-");
    key.append(sanitize_filename(filename).as_str());
    key
}

/// The storage key of a new avatar upload, under a fresh UUID.
pub fn avatar_upload_key(tenant_id: Option<i64>, user_id: i64, filename: &str) -> (r: String)
    ensures
        exists|u: Seq<char>|
            u.len() == 36 && r@ == avatar_key(
                match tenant_id {
                    Some(t) => t as int,
                    None => 0,
                },
                user_id as int,
                u,
                filename@,
            ),
{
    let unique = new_uuid_text();
    let key = avatar_object_key(tenant_id, user_id, unique.as_str(), filename);
    assert(unique@.len() == 36);
    key
}

// ------------------------------------------------------------------
// Profile
// ------------------------------------------------------------------

/// The signed-in user's id; a token without one is refused as bad
/// credentials.
pub fn require_user_id(id: Option<i64>, locale: Locale) -> (r: Result<i64, ExceptionResponse>)
    ensures
        match id {
            Some(x) => r == Ok::<i64, ExceptionResponse>(x),
            None => r == Err::<i64, ExceptionResponse>(ExceptionResponse::Unauthorized(locale, ErrorKey::BadCredentials)),
        },
{
    match id {
        Some(x) => Ok(x),
        None => Err(ExceptionResponse::Unauthorized(locale, ErrorKey::BadCredentials)),
    }
}

/// The first name a new profile gets when the user has no person yet: the
/// user's name, else the part of the e-mail before its first `@`.
pub fn fallback_first_name(name: &Option<String>, email: &str) -> (r: String)
    ensures
        r@ == match name {
            Some(n) => n@,
            None => before_char(email@, '@'),
        },
{
    match name {
        Some(n) => n.clone(),
        None => {
            let v = chars_of(email);
            let i = find_char(&v, 0, '@');
            proof {
                assert(v@.skip(0) =~= v@);
            }
            string_of(&v, 0, i)
        },
    }
}

/// The person fields a profile update writes.
#[derive(Debug, Clone)]
pub struct ProfileFields {
    pub first_name: String,
    pub surname: Option<String>,
    pub date_of_birth: Option<chrono::NaiveDate>,
    pub gender: Option<String>,
    pub avatar: Option<String>,
    pub phone: Option<String>,
    pub email: Option<String>,
}

/// An e-mail as stored: trimmed and in Unicode lower case.
pub open spec fn stored_email(e: Seq<char>) -> Seq<char> {
    unicode_lowercase(trim(e))
}

fn stored_email_of(e: &str) -> (r: String)
    ensures
        r@ == stored_email(e@),
{
    let t = trim_str(e);
    str_to_lowercase(t.as_str())
}

/// What a profile update writes. The first name must have text and is
/// trimmed; surname and gender are trimmed and dropped when blank; the date
/// of birth is taken as given. On an existing person, avatar, phone and
/// e-mail change only when given; a new person takes them as given. An
/// e-mail is stored trimmed and in lower case.
pub fn profile_update(input: PersonInputJson, existing: Option<ProfileFields>, locale: Locale) -> (r: Result<ProfileFields, ExceptionResponse>)
    ensures
        is_blank(input.first_name@) ==> r == Err::<ProfileFields, ExceptionResponse>(ExceptionResponse::BadRequest(locale, ErrorKey::InvalidParameterValue)),
        !is_blank(input.first_name@) ==> (r matches Ok(p) && {
            &&& p.first_name@ == trim(input.first_name@)
            &&& text_view(p.surname) == cleaned_text(text_view(input.surname))
            &&& p.date_of_birth == input.date_of_birth
            &&& text_view(p.gender) == cleaned_text(text_view(input.gender))
            &&& text_view(p.email) == match input.email {
                Some(e) => Some(stored_email(e@)),
                None => match existing {
                    Some(x) => text_view(x.email),
                    None => None,
                },
            }
            &&& p.avatar == match input.avatar {
                Some(a) => Some(a),
                None => match existing {
                    Some(x) => x.avatar,
                    None => None,
                },
            }
            &&& p.phone == match input.phone {
                Some(a) => Some(a),
                None => match existing {
                    Some(x) => x.phone,
                    None => None,
                },
            }
        }),
{
    if is_blank_str(input.first_name.as_str()) {
        return Err(ExceptionResponse::BadRequest(locale, ErrorKey::InvalidParameterValue));
    }
    let first_name = trim_str(input.first_name.as_str());
    let surname = optional_text(input.surname);
    let gender = optional_text(input.gender);
    let (old_avatar, old_phone, old_email) = match existing {
        Some(x) => (x.avatar, x.phone, x.email),
        None => (None, None, None),
    };
    let avatar = match input.avatar {
        Some(a) => Some(a),
        None => old_avatar,
    };
    let phone = match input.phone {
        Some(a) => Some(a),
        None => old_phone,
    };
    let email = match input.email {
        Some(e) => Some(stored_email_of(e.as_str())),
        None => old_email,
    };
    Ok(ProfileFields { first_name, surname, date_of_birth: input.date_of_birth, gender, avatar, phone, email })
}

/// An avatar upload needs a file name and a MIME type with text.
pub fn check_avatar_request(request: &AvatarPresignRequest, locale: Locale) -> (r: Result<(), ExceptionResponse>)
    ensures
        r is Ok <==> !is_blank(request.original_filename@) && !is_blank(request.mime_type@),
        r matches Err(e) ==> e == ExceptionResponse::BadRequest(locale, ErrorKey::InvalidParameterValue),
{
    if is_blank_str(request.original_filename.as_str()) || is_blank_str(request.mime_type.as_str()) {
        return Err(ExceptionResponse::BadRequest(locale, ErrorKey::InvalidParameterValue));
    }
    Ok(())
}

} // verus!
