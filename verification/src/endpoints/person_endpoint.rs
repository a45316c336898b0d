use crate::commons::exception_response::ExceptionResponse;
use crate::commons::i18n::{ErrorKey, Locale};
use crate::endpoints::json::person_json::PersonInputJson;
use crate::endpoints::resource_endpoint::{profile_update, stored_email, ProfileFields};
use crate::infrastructure::mapper::{cleaned_text, text_view};
use crate::text::{ascii_lower, is_blank, str_eq, to_ascii_lowercase, trim};
use vstd::prelude::*;

verus! {

/// The column persons are ordered by.
#[derive(Debug, Clone, Copy, PartialEq, Eq, Structural)]
pub enum PersonSortColumn {
    FirstName,
    Email,
    Gender,
    CreatedAt,
    Id,
    Surname,
}

/// The column a sort key names, in any ASCII case; any other key sorts by
/// Surname.
pub open spec fn person_sort_of(key: Seq<char>) -> PersonSortColumn {
    let k = ascii_lower(key);
    if k == "first_name"@ || k == "firstname"@ {
        PersonSortColumn::FirstName
    } else if k == "email"@ {
        PersonSortColumn::Email
    } else if k == "gender"@ {
        PersonSortColumn::Gender
    } else if k == "createdat"@ || k == "created_at"@ {
        PersonSortColumn::CreatedAt
    } else if k == "id"@ {
        PersonSortColumn::Id
    } else {
        PersonSortColumn::Surname
    }
}

/// The column persons are sorted by for the normalised sort key.
pub fn person_sort_column(sort_by: &str) -> (r: PersonSortColumn)
    ensures
        r == person_sort_of(sort_by@),
{
    let lowered = to_ascii_lowercase(sort_by);
    let k = lowered.as_str();
    if str_eq(k, "first_name") || str_eq(k, "firstname") {
        PersonSortColumn::FirstName
    } else if str_eq(k, "email") {
        PersonSortColumn::Email
    } else if str_eq(k, "gender") {
        PersonSortColumn::Gender
    } else if str_eq(k, "createdat") || str_eq(k, "created_at") {
        PersonSortColumn::CreatedAt
    } else if str_eq(k, "id") {
        PersonSortColumn::Id
    } else {
        PersonSortColumn::Surname
    }
}

/// The e-mail a new person is saved with: trimmed and in lower case, and
/// absent when nothing is left.
pub open spec fn new_person_email(email: Option<String>) -> Option<Seq<char>> {
    match email {
        Some(e) => if stored_email(e@).len() > 0 {
            Some(stored_email(e@))
        } else {
            None
        },
        None => None,
    }
}

/// The fields a new person is saved with. The first name must have text and
/// is trimmed; surname and gender are trimmed and dropped when blank; date of
/// birth, avatar and phone are taken as given; the e-mail is stored trimmed
/// and in lower case, and dropped when nothing is left.
pub fn person_to_create(input: PersonInputJson, locale: Locale) -> (r: Result<ProfileFields, ExceptionResponse>)
    ensures
        is_blank(input.first_name@) ==> r == Err::<ProfileFields, ExceptionResponse>(ExceptionResponse::BadRequest(locale, ErrorKey::InvalidParameterValue)),
        !is_blank(input.first_name@) ==> (r matches Ok(p) && {
            &&& p.first_name@ == trim(input.first_name@)
            &&& text_view(p.surname) == cleaned_text(text_view(input.surname))
            &&& p.date_of_birth == input.date_of_birth
            &&& text_view(p.gender) == cleaned_text(text_view(input.gender))
            &&& p.avatar == input.avatar
            &&& p.phone == input.phone
            &&& text_view(p.email) == new_person_email(input.email)
        }),
{
    match profile_update(input, None, locale) {
        Err(e) => Err(e),
        Ok(p) => {
            let email = match p.email {
                Some(e) => if e.as_str().is_empty() {
                    None
                } else {
                    Some(e)
                },
                None => None,
            };
            Ok(ProfileFields {
                first_name: p.first_name,
                surname: p.surname,
                date_of_birth: p.date_of_birth,
                gender: p.gender,
                avatar: p.avatar,
                phone: p.phone,
                email,
            })
        },
    }
}

} // verus!
