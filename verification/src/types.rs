//! Region-level definition tables: parameters, risk-coordinate definitions
//! and lifecycle scenarios. All numeric fields are scaled values.

use vstd::prelude::*;

verus! {

/// A monitored physical parameter, defined once per deployment region.
#[derive(Clone, Debug)]
pub struct Parameter {
    pub name: String,
    pub unit: String,
    pub domain_min: i64,
    pub domain_max: i64,
    pub legal_limit: Option<i64>,
    pub gold_limit: Option<i64>,
    /// `true` when higher readings are worse, `false` when lower readings are worse.
    pub direction_max: bool,
}

/// How one parameter is normalized into a risk coordinate.
#[derive(Clone, Debug)]
pub struct RiskCoordinateDef {
    pub id: u32,
    pub param_name: String,
    /// The raw reading mapped to 0.
    pub r_min: i64,
    /// The raw reading mapped to 1.
    pub r_max: i64,
    pub weight_w: i64,
    pub channel: u32,
}

impl RiskCoordinateDef {
    /// The definition can be used for normalization: its bounds are ordered
    /// and its weight is non-negative and within the representable range.
    pub open spec fn wf(&self) -> bool {
        &&& self.r_min < self.r_max
        &&& 0 <= self.weight_w <= crate::fixed::MAX_WEIGHT
    }

    /// Decides `wf`.
    pub fn is_valid(&self) -> (b: bool)
        ensures
            b == self.wf(),
    {
        self.r_min < self.r_max && 0 <= self.weight_w && self.weight_w <= crate::fixed::MAX_WEIGHT
    }
}

/// One side of a lifecycle comparison.
#[derive(Clone, Debug)]
pub struct LcaScenario {
    pub scenario_id: String,
    pub region_id: String,
    /// "MSW_TON", "ENERGY_MWH" or "RESOURCE_KG".
    pub functional_unit: String,
    /// "STATUS_QUO" for the baseline, "CYBOCINDER" for the candidate system.
    pub mode: String,
    pub gwp_kg_co2eq: i64,
    pub grid_gco2_per_kwh: i64,
    pub landfill_ref_gwp_kgco2_per_ton: i64,
    pub avoided_virgin_metal_kgco2eq_per_kg: i64,
    pub energy_recovery_efficiency: i64,
    pub recycling_rate: i64,
}

} // verus!
