use crate::domain::commerce::CampaignTarget;
use crate::endpoints::json::campaign_json::CampaignTargetInputJson;
use crate::text::{ascii_lower, str_eq, to_ascii_lowercase, trim, trim_str};
use vstd::prelude::*;

verus! {

/// The column campaign targets are ordered by.
#[derive(Debug, Clone, Copy, PartialEq, Eq, Structural)]
pub enum CampaignTargetSortColumn {
    CampaignId,
    TargetType,
    TargetId,
    CreatedAt,
    Id,
}

/// The column a sort key names, in any ASCII case; any other key sorts by
/// Id.
pub open spec fn campaign_target_sort_of(key: Seq<char>) -> CampaignTargetSortColumn {
    let k = ascii_lower(key);
    if k == "campaignid"@ || k == "campaign_id"@ {
        CampaignTargetSortColumn::CampaignId
    } else if k == "targettype"@ || k == "target_type"@ {
        CampaignTargetSortColumn::TargetType
    } else if k == "targetid"@ || k == "target_id"@ {
        CampaignTargetSortColumn::TargetId
    } else if k == "createdat"@ || k == "created_at"@ {
        CampaignTargetSortColumn::CreatedAt
    } else {
        CampaignTargetSortColumn::Id
    }
}

/// The column campaign targets are sorted by for the normalised sort key.
pub fn campaign_target_sort_column(sort_by: &str) -> (r: CampaignTargetSortColumn)
    ensures
        r == campaign_target_sort_of(sort_by@),
{
    let lowered = to_ascii_lowercase(sort_by);
    let k = lowered.as_str();
    if str_eq(k, "campaignid") || str_eq(k, "campaign_id") {
        CampaignTargetSortColumn::CampaignId
    } else if str_eq(k, "targettype") || str_eq(k, "target_type") {
        CampaignTargetSortColumn::TargetType
    } else if str_eq(k, "targetid") || str_eq(k, "target_id") {
        CampaignTargetSortColumn::TargetId
    } else if str_eq(k, "createdat") || str_eq(k, "created_at") {
        CampaignTargetSortColumn::CreatedAt
    } else {
        CampaignTargetSortColumn::Id
    }
}


/// A new campaign target of tenant `tenant_id`, its type trimmed; it has no
/// id, uuid or audit fields yet.
pub fn new_campaign_target(input: CampaignTargetInputJson, tenant_id: i64) -> (r: CampaignTarget)
    ensures
        r.id is None && r.uuid is None,
        r.tenant_id == Some(tenant_id),
        r.campaign_id == input.campaign_id,
        r.target_type@ == trim(input.target_type@),
        r.target_id == input.target_id,
        r.created_at is None && r.created_by is None,
{
    CampaignTarget {
        id: None,
        uuid: None,
        tenant_id: Some(tenant_id),
        campaign_id: input.campaign_id,
        target_type: trim_str(input.target_type.as_str()),
        target_id: input.target_id,
        created_at: None,
        created_by: None,
    }
}

/// A campaign target changed by a request, its type trimmed; the rest kept.
pub fn updated_campaign_target(existing: CampaignTarget, input: CampaignTargetInputJson) -> (r: CampaignTarget)
    ensures
        r.id == existing.id && r.uuid == existing.uuid && r.tenant_id == existing.tenant_id,
        r.campaign_id == input.campaign_id,
        r.target_type@ == trim(input.target_type@),
        r.target_id == input.target_id,
        r.created_at == existing.created_at && r.created_by == existing.created_by,
{
    CampaignTarget {
        campaign_id: input.campaign_id,
        target_type: trim_str(input.target_type.as_str()),
        target_id: input.target_id,
        ..existing
    }
}

} // verus!
