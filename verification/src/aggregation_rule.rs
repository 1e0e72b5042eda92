//! Virtual meter rules: how a virtual MaLo's time series is derived from the
//! series of other MaLos and MeLos.
//!
//! | Rule | German term | Result per interval |
//! |---|---|---|
//! | `Sum` | Summenmessung | `Σ sources` |
//! | `Residual` | Residuallast | `total − Σ subtracted` |
//! | `PvSelfConsumption` | PV-Eigenverbrauch | the net grid connection point |
//! | `GgvConstantAllocation` | GGV Nutzungsplan (konstant) | `max(0, consumption − fraction × generation)` |
//! | `GgvProportionalAllocation` | GGV Nutzungsplan (variabel) | `max(0, consumption − ratio × generation)` |
//!
//! A rule is persisted configuration; this module defines it and lists the
//! series it needs.

use vstd::prelude::*;

use crate::decimal::Dec;

verus! {

/// An aggregation rule defining how a virtual MaLo's time series is computed.
#[derive(Debug, Clone, PartialEq, Eq)]
pub enum AggregationRule {
    /// Sum of several MaLo series (Summenmessung, portfolio totals).
    Sum {
        /// MaLo IDs whose interval values are summed.
        source_malo_ids: Vec<String>,
    },
    /// Total minus one or more subtracted sources (§ 42a EEG residual load).
    Residual {
        /// MaLo whose value is the minuend.
        total_malo_id: String,
        /// MaLo IDs whose values are subtracted.
        subtract_malo_ids: Vec<String>,
    },
    /// PV self-consumption at a prosumer's grid connection point.
    PvSelfConsumption {
        /// MaLo for the building load at the grid measurement point.
        grid_malo_id: String,
        /// MaLo for the PV generation.
        generation_malo_id: String,
    },
    /// § 42b EnWG GGV, constant fraction of the plant's generation (UTILTS
    /// `CCI+ZG6`).
    GgvConstantAllocation {
        /// MeLo of the shared PV plant's generation.
        plant_melo_id: String,
        /// MeLo of this tenant's consumption.
        tenant_melo_id: String,
        /// This tenant's fraction of the generation, `0 < fraction ≤ 1`.
        fraction: Dec,
    },
    /// § 42b EnWG GGV, consumption-proportional allocation (UTILTS `Z74`).
    GgvProportionalAllocation {
        /// MeLo of the shared PV plant's generation.
        plant_melo_id: String,
        /// MeLo of this tenant's consumption.
        tenant_melo_id: String,
        /// MeLos of every participating tenant, this one included: the
        /// denominator of the ratio.
        all_tenant_melo_ids: Vec<String>,
    },
}

/// The texts of a list of ids.
pub open spec fn id_texts(ids: Seq<String>) -> Seq<Seq<char>> {
    ids.map_values(|s: String| s@)
}

impl AggregationRule {
    /// The ids the rule reads, in the order it names them: the sources of a
    /// sum; the total, then the subtracted series; grid then generation; the
    /// plant then the tenant; the plant then every tenant.
    pub open spec fn spec_source_ids(&self) -> Seq<Seq<char>> {
        match self {
            AggregationRule::Sum { source_malo_ids } => id_texts(source_malo_ids@),
            AggregationRule::Residual { total_malo_id, subtract_malo_ids } => seq![total_malo_id@]
                + id_texts(subtract_malo_ids@),
            AggregationRule::PvSelfConsumption { grid_malo_id, generation_malo_id } => seq![
                grid_malo_id@,
                generation_malo_id@,
            ],
            AggregationRule::GgvConstantAllocation { plant_melo_id, tenant_melo_id, .. } => seq![
                plant_melo_id@,
                tenant_melo_id@,
            ],
            AggregationRule::GgvProportionalAllocation { plant_melo_id, all_tenant_melo_ids, .. } =>
                seq![plant_melo_id@] + id_texts(all_tenant_melo_ids@),
        }
    }

    pub open spec fn spec_rule_type(&self) -> Seq<char> {
        match self {
            AggregationRule::Sum { .. } => "Sum"@,
            AggregationRule::Residual { .. } => "Residual"@,
            AggregationRule::PvSelfConsumption { .. } => "PvSelfConsumption"@,
            AggregationRule::GgvConstantAllocation { .. } => "GgvConstantAllocation"@,
            AggregationRule::GgvProportionalAllocation { .. } => "GgvProportionalAllocation"@,
        }
    }

    /// All source MaLo / MeLo IDs referenced by this rule: the series that
    /// must be fetched before the virtual value can be computed.
    pub fn source_malo_ids(&self) -> (r: Vec<&str>)
        ensures
            r@.map_values(|s: &str| s@) == self.spec_source_ids(),
    {
        match self {
            AggregationRule::Sum { source_malo_ids } => {
                let mut ids: Vec<&str> = Vec::new();
                push_all(&mut ids, source_malo_ids);
                proof {
                    assert(ids@.map_values(|s: &str| s@) =~= Seq::<Seq<char>>::empty() + id_texts(
                        source_malo_ids@,
                    ));
                }
                ids
            },
            AggregationRule::Residual { total_malo_id, subtract_malo_ids } => {
                let mut ids: Vec<&str> = Vec::new();
                ids.push(total_malo_id.as_str());
                push_all(&mut ids, subtract_malo_ids);
                ids
            },
            AggregationRule::PvSelfConsumption { grid_malo_id, generation_malo_id } => {
                let mut ids: Vec<&str> = Vec::new();
                ids.push(grid_malo_id.as_str());
                ids.push(generation_malo_id.as_str());
                proof {
                    assert(ids@.map_values(|s: &str| s@) =~= self.spec_source_ids());
                }
                ids
            },
            AggregationRule::GgvConstantAllocation { plant_melo_id, tenant_melo_id, .. } => {
                let mut ids: Vec<&str> = Vec::new();
                ids.push(plant_melo_id.as_str());
                ids.push(tenant_melo_id.as_str());
                proof {
                    assert(ids@.map_values(|s: &str| s@) =~= self.spec_source_ids());
                }
                ids
            },
            AggregationRule::GgvProportionalAllocation { plant_melo_id, all_tenant_melo_ids, .. } => {
                let mut ids: Vec<&str> = Vec::new();
                ids.push(plant_melo_id.as_str());
                push_all(&mut ids, all_tenant_melo_ids);
                ids
            },
        }
    }

    /// Human-readable rule type name: the variant's name.
    pub fn rule_type(&self) -> (r: &'static str)
        ensures
            r@ == self.spec_rule_type(),
    {
        match self {
            AggregationRule::Sum { .. } => "Sum",
            AggregationRule::Residual { .. } => "Residual",
            AggregationRule::PvSelfConsumption { .. } => "PvSelfConsumption",
            AggregationRule::GgvConstantAllocation { .. } => "GgvConstantAllocation",
            AggregationRule::GgvProportionalAllocation { .. } => "GgvProportionalAllocation",
        }
    }
}

/// Append the texts of `src` to `dst`, in order.
fn push_all<'a>(dst: &mut Vec<&'a str>, src: &'a Vec<String>)
    ensures
        final(dst)@.map_values(|s: &str| s@) == old(dst)@.map_values(|s: &str| s@) + id_texts(src@),
{
    let ghost start = dst@.map_values(|s: &str| s@);
    let mut i: usize = 0;
    while i < src.len()
        invariant
            0 <= i <= src.len(),
            dst@.map_values(|s: &str| s@) =~= start + id_texts(src@.take(i as int)),
        decreases src.len() - i,
    {
        let ghost before = dst@;
        let s = src[i].as_str();
        dst.push(s);
        proof {
            assert(dst@ == before.push(s));
            assert(dst@.map_values(|s: &str| s@) =~= before.map_values(|s: &str| s@).push(s@));
            assert(id_texts(src@.take(i + 1)) =~= id_texts(src@.take(i as int)).push(src@[i as int]@));
        }
        i = i + 1;
    }
    proof {
        assert(src@.take(src.len() as int) =~= src@);
    }
}

} // verus!
