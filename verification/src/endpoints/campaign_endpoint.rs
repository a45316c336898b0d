use crate::commons::exception_response::ExceptionResponse;
use crate::commons::i18n::{ErrorKey, Locale};
use crate::domain::commerce::Campaign;
use crate::endpoints::json::campaign_json::CampaignInputJson;
use crate::text::{ascii_lower, is_blank, is_blank_str, str_eq, to_ascii_lowercase, trim, trim_str};
use vstd::prelude::*;

verus! {

/// The column campaigns are ordered by.
#[derive(Debug, Clone, Copy, PartialEq, Eq, Structural)]
pub enum CampaignSortColumn {
    CampaignType,
    StartsAt,
    EndsAt,
    Active,
    CreatedAt,
    Name,
}

/// The column a sort key names, in any ASCII case; any other key sorts by
/// Name.
pub open spec fn campaign_sort_of(key: Seq<char>) -> CampaignSortColumn {
    let k = ascii_lower(key);
    if k == "campaigntype"@ || k == "campaign_type"@ {
        CampaignSortColumn::CampaignType
    } else if k == "startsat"@ || k == "starts_at"@ {
        CampaignSortColumn::StartsAt
    } else if k == "endsat"@ || k == "ends_at"@ {
        CampaignSortColumn::EndsAt
    } else if k == "active"@ {
        CampaignSortColumn::Active
    } else if k == "createdat"@ || k == "created_at"@ {
        CampaignSortColumn::CreatedAt
    } else {
        CampaignSortColumn::Name
    }
}

/// The column campaigns are sorted by for the normalised sort key.
pub fn campaign_sort_column(sort_by: &str) -> (r: CampaignSortColumn)
    ensures
        r == campaign_sort_of(sort_by@),
{
    let lowered = to_ascii_lowercase(sort_by);
    let k = lowered.as_str();
    if str_eq(k, "campaigntype") || str_eq(k, "campaign_type") {
        CampaignSortColumn::CampaignType
    } else if str_eq(k, "startsat") || str_eq(k, "starts_at") {
        CampaignSortColumn::StartsAt
    } else if str_eq(k, "endsat") || str_eq(k, "ends_at") {
        CampaignSortColumn::EndsAt
    } else if str_eq(k, "active") {
        CampaignSortColumn::Active
    } else if str_eq(k, "createdat") || str_eq(k, "created_at") {
        CampaignSortColumn::CreatedAt
    } else {
        CampaignSortColumn::Name
    }
}

/// A campaign needs a name and a campaign type with text.
pub fn validate_campaign(input: &CampaignInputJson, locale: Locale) -> (r: Result<(), ExceptionResponse>)
    ensures
        r is Ok <==> !is_blank(input.name@) && !is_blank(input.campaign_type@),
        r matches Err(e) ==> e == ExceptionResponse::BadRequest(locale, ErrorKey::InvalidParameterValue),
{
    if is_blank_str(input.name.as_str()) || is_blank_str(input.campaign_type.as_str()) {
        return Err(ExceptionResponse::BadRequest(locale, ErrorKey::InvalidParameterValue));
    }
    Ok(())
}

/// A new campaign of tenant `tenant_id`: name, type and scope trimmed, value
/// and dates as given, active unless the request says otherwise; it has no
/// id, uuid or audit fields yet.
pub fn new_campaign(input: CampaignInputJson, tenant_id: i64) -> (r: Campaign)
    ensures
        r.id is None && r.uuid is None,
        r.tenant_id == Some(tenant_id),
        r.name@ == trim(input.name@),
        r.campaign_type@ == trim(input.campaign_type@),
        r.value == input.value,
        r.scope@ == trim(input.scope@),
        r.starts_at == input.starts_at && r.ends_at == input.ends_at,
        r.active == match input.active {
            Some(a) => a,
            None => true,
        },
        r.created_at is None && r.created_by is None,
        r.updated_at is None && r.updated_by is None,
{
    Campaign {
        id: None,
        uuid: None,
        tenant_id: Some(tenant_id),
        name: trim_str(input.name.as_str()),
        campaign_type: trim_str(input.campaign_type.as_str()),
        value: input.value,
        scope: trim_str(input.scope.as_str()),
        starts_at: input.starts_at,
        ends_at: input.ends_at,
        active: match input.active {
            Some(a) => a,
            None => true,
        },
        created_at: None,
        updated_at: None,
        created_by: None,
        updated_by: None,
    }
}

/// A campaign changed by a request: name, type and scope trimmed, value and
/// dates as given, `active` only when the request gives it; identity,
/// tenant and audit fields are kept.
pub fn updated_campaign(existing: Campaign, input: CampaignInputJson) -> (r: Campaign)
    ensures
        r.id == existing.id && r.uuid == existing.uuid && r.tenant_id == existing.tenant_id,
        r.name@ == trim(input.name@),
        r.campaign_type@ == trim(input.campaign_type@),
        r.value == input.value,
        r.scope@ == trim(input.scope@),
        r.starts_at == input.starts_at && r.ends_at == input.ends_at,
        r.active == match input.active {
            Some(a) => a,
            None => existing.active,
        },
        r.created_at == existing.created_at && r.created_by == existing.created_by,
        r.updated_at == existing.updated_at && r.updated_by == existing.updated_by,
{
    Campaign {
        id: existing.id,
        uuid: existing.uuid,
        tenant_id: existing.tenant_id,
        name: trim_str(input.name.as_str()),
        campaign_type: trim_str(input.campaign_type.as_str()),
        value: input.value,
        scope: trim_str(input.scope.as_str()),
        starts_at: input.starts_at,
        ends_at: input.ends_at,
        active: match input.active {
            Some(a) => a,
            None => existing.active,
        },
        created_at: existing.created_at,
        updated_at: existing.updated_at,
        created_by: existing.created_by,
        updated_by: existing.updated_by,
    }
}

} // verus!
