use crate::domain::commerce::TaxRule;
use crate::endpoints::json::tax_rule_json::TaxRuleInputJson;
use crate::text::{ascii_lower, str_eq, to_ascii_lowercase, trim, trim_to_uppercase, unicode_uppercase};
use vstd::prelude::*;

verus! {

/// The column tax rules are ordered by.
#[derive(Debug, Clone, Copy, PartialEq, Eq, Structural)]
pub enum TaxRuleSortColumn {
    UfOrigem,
    UfDestino,
    Cfop,
    Active,
    CreatedAt,
    Id,
}

/// The column a sort key names, in any ASCII case; any other key sorts by
/// Id.
pub open spec fn tax_rule_sort_of(key: Seq<char>) -> TaxRuleSortColumn {
    let k = ascii_lower(key);
    if k == "uforigem"@ || k == "uf_origem"@ {
        TaxRuleSortColumn::UfOrigem
    } else if k == "ufdestino"@ || k == "uf_destino"@ {
        TaxRuleSortColumn::UfDestino
    } else if k == "cfop"@ {
        TaxRuleSortColumn::Cfop
    } else if k == "active"@ {
        TaxRuleSortColumn::Active
    } else if k == "createdat"@ || k == "created_at"@ {
        TaxRuleSortColumn::CreatedAt
    } else {
        TaxRuleSortColumn::Id
    }
}

/// The column tax rules are sorted by for the normalised sort key.
pub fn tax_rule_sort_column(sort_by: &str) -> (r: TaxRuleSortColumn)
    ensures
        r == tax_rule_sort_of(sort_by@),
{
    let lowered = to_ascii_lowercase(sort_by);
    let k = lowered.as_str();
    if str_eq(k, "uforigem") || str_eq(k, "uf_origem") {
        TaxRuleSortColumn::UfOrigem
    } else if str_eq(k, "ufdestino") || str_eq(k, "uf_destino") {
        TaxRuleSortColumn::UfDestino
    } else if str_eq(k, "cfop") {
        TaxRuleSortColumn::Cfop
    } else if str_eq(k, "active") {
        TaxRuleSortColumn::Active
    } else if str_eq(k, "createdat") || str_eq(k, "created_at") {
        TaxRuleSortColumn::CreatedAt
    } else {
        TaxRuleSortColumn::Id
    }
}


/// The tax rule fields a request sets: both state codes trimmed and in
/// upper case, the rest as given.
pub open spec fn sets_tax_rule_fields(r: TaxRule, input: TaxRuleInputJson) -> bool {
    &&& r.uf_origem@ == unicode_uppercase(trim(input.uf_origem@))
    &&& r.uf_destino@ == unicode_uppercase(trim(input.uf_destino@))
    &&& r.ncm_prefix == input.ncm_prefix
    &&& r.regime == input.regime
    &&& r.csosn == input.csosn
    &&& r.cfop == input.cfop
    &&& r.icms_rate_bp == input.icms_rate_bp
}

/// A new tax rule of tenant `tenant_id`, active unless the request says
/// otherwise; it has no id, uuid or audit fields yet.
pub fn new_tax_rule(input: TaxRuleInputJson, tenant_id: i64) -> (r: TaxRule)
    ensures
        r.id is None && r.uuid is None,
        r.tenant_id == Some(tenant_id),
        sets_tax_rule_fields(r, input),
        r.active == match input.active {
            Some(a) => a,
            None => true,
        },
        r.created_at is None && r.created_by is None,
        r.updated_at is None && r.updated_by is None,
{
    TaxRule {
        id: None,
        uuid: None,
        tenant_id: Some(tenant_id),
        uf_origem: trim_to_uppercase(input.uf_origem.as_str()),
        uf_destino: trim_to_uppercase(input.uf_destino.as_str()),
        ncm_prefix: input.ncm_prefix,
        regime: input.regime,
        csosn: input.csosn,
        cfop: input.cfop,
        icms_rate_bp: input.icms_rate_bp,
        active: match input.active {
            Some(a) => a,
            None => true,
        },
        created_at: None,
        updated_at: None,
        created_by: None,
        updated_by: None,
    }
}

/// A tax rule changed by a request; `active` changes only when the request
/// gives it, and identity, tenant and audit fields are kept.
pub fn updated_tax_rule(existing: TaxRule, input: TaxRuleInputJson) -> (r: TaxRule)
    ensures
        r.id == existing.id && r.uuid == existing.uuid && r.tenant_id == existing.tenant_id,
        sets_tax_rule_fields(r, input),
        r.active == match input.active {
            Some(a) => a,
            None => existing.active,
        },
        r.created_at == existing.created_at && r.created_by == existing.created_by,
        r.updated_at == existing.updated_at && r.updated_by == existing.updated_by,
{
    TaxRule {
        id: existing.id,
        uuid: existing.uuid,
        tenant_id: existing.tenant_id,
        uf_origem: trim_to_uppercase(input.uf_origem.as_str()),
        uf_destino: trim_to_uppercase(input.uf_destino.as_str()),
        ncm_prefix: input.ncm_prefix,
        regime: input.regime,
        csosn: input.csosn,
        cfop: input.cfop,
        icms_rate_bp: input.icms_rate_bp,
        active: match input.active {
            Some(a) => a,
            None => existing.active,
        },
        created_at: existing.created_at,
        updated_at: existing.updated_at,
        created_by: existing.created_by,
        updated_by: existing.updated_by,
    }
}

} // verus!
