//! The tray-line kernel: biodegradation time and toxicity of a material
//! mix, the eco-score of a candidate recipe, canal hydropower, and the
//! shard rows that report them.

use vstd::prelude::*;
use vstd::string::StringExecFns;
use crate::fixed::{
    checked_product5, clip01, clip01_spec, div_floor, in_unit_interval,
    lemma_quotient_representable, representable, SCALE,
};
use crate::region::{
    phoenix_profile, EnvFeed, EnvReadings, PhoenixAzConfig, RegionConfig, RegionProfile,
    StaticConfigFeed,
};
use crate::text::{fixed_text, render_fixed, replace_double_quotes, single_quoted};

verus! {

/// A tray material recipe. Fractions are scaled values in `[0, 1]`.
#[derive(Clone, Debug)]
pub struct TrayMaterialMix {
    pub id: String,
    pub description: String,
    pub fiber_frac: i64,
    pub starch_frac: i64,
    pub protein_frac: i64,
    pub mineral_frac: i64,
}

/// The mathematical value of a `TrayMaterialMix`.
pub struct MixModel {
    pub id: Seq<char>,
    pub description: Seq<char>,
    pub fiber_frac: int,
    pub starch_frac: int,
    pub protein_frac: int,
    pub mineral_frac: int,
}

impl View for TrayMaterialMix {
    type V = MixModel;

    open spec fn view(&self) -> MixModel {
        MixModel {
            id: self.id@,
            description: self.description@,
            fiber_frac: self.fiber_frac as int,
            starch_frac: self.starch_frac as int,
            protein_frac: self.protein_frac as int,
            mineral_frac: self.mineral_frac as int,
        }
    }
}

impl TrayMaterialMix {
    /// A copy of the recipe.
    pub fn duplicate(&self) -> (m: TrayMaterialMix)
        ensures
            m@ == self@,
    {
        TrayMaterialMix {
            id: self.id.clone(),
            description: self.description.clone(),
            fiber_frac: self.fiber_frac,
            starch_frac: self.starch_frac,
            protein_frac: self.protein_frac,
            mineral_frac: self.mineral_frac,
        }
    }
}

/// Result of a biodegradation and toxicity simulation for one recipe.
#[derive(Clone, Debug)]
pub struct TraySimResult {
    pub material_id: String,
    pub region_code: String,
    /// Time to 90 % mass loss.
    pub modeled_t90_days: i128,
    /// Relative toxicity within the corridor, in `[0, 1]`.
    pub r_tox: i64,
    pub knowledge_factor: i64,
    pub ecoimpact_score: i64,
    pub risk_of_harm: i64,
    pub waste_reduced_kg_per_cycle: i64,
    pub energy_kwh_per_cycle: i64,
}

/// The mathematical value of a `TraySimResult`.
pub struct SimModel {
    pub material_id: Seq<char>,
    pub region_code: Seq<char>,
    pub modeled_t90_days: int,
    pub r_tox: int,
    pub knowledge_factor: int,
    pub ecoimpact_score: int,
    pub risk_of_harm: int,
    pub waste_reduced_kg_per_cycle: int,
    pub energy_kwh_per_cycle: int,
}

impl View for TraySimResult {
    type V = SimModel;

    open spec fn view(&self) -> SimModel {
        SimModel {
            material_id: self.material_id@,
            region_code: self.region_code@,
            modeled_t90_days: self.modeled_t90_days as int,
            r_tox: self.r_tox as int,
            knowledge_factor: self.knowledge_factor as int,
            ecoimpact_score: self.ecoimpact_score as int,
            risk_of_harm: self.risk_of_harm as int,
            waste_reduced_kg_per_cycle: self.waste_reduced_kg_per_cycle as int,
            energy_kwh_per_cycle: self.energy_kwh_per_cycle as int,
        }
    }
}

/// Time to 90 % mass loss: the kinetic time of the compost, stretched by
/// half the mineral fraction, rounded down.
pub open spec fn t90_days_spec(kinetic_t90_days: int, mineral_frac: int) -> int {
    (kinetic_t90_days * (2 * SCALE as int + mineral_frac)) / (2 * SCALE as int)
}

/// Time to 90 % mass loss of a mix. `kinetic_t90_days` is the first-order
/// decay time at the compost temperature, before the mineral penalty.
pub fn estimate_t90_days_from_mix(mix: &TrayMaterialMix, kinetic_t90_days: i64) -> (t: i128)
    ensures
        t as int == t90_days_spec(kinetic_t90_days as int, mix.mineral_frac as int),
{
    let stretch: i128 = 2 * (SCALE as i128) + (mix.mineral_frac as i128);
    proof {
        assert(-0x7fff_ffff_ffff_ffff_ffff_ffff_ffff_ffff <= kinetic_t90_days as int * stretch as int
            <= 0x7fff_ffff_ffff_ffff_ffff_ffff_ffff_ffff) by (nonlinear_arith)
            requires
                -0x8000_0000_0000_0000 <= kinetic_t90_days as int <= 0x8000_0000_0000_0000,
                -0x8000_0000_0000_0000 <= stretch as int <= 0x8000_0000_0020_0000,
        ;
    }
    let p: i128 = (kinetic_t90_days as i128) * stretch;
    div_floor(p, 2 * (SCALE as i128))
}

/// The toxicity proxy of a mix before the corridor: 0.02, plus 0.05 per
/// unit of mineral fraction, plus 0.01 per unit of protein fraction where
/// that is positive; rounded down.
pub open spec fn rtox_base(mineral_frac: int, protein_frac: int) -> int {
    let protein = if protein_frac > 0 {
        protein_frac
    } else {
        0
    };
    (20_000 * SCALE as int + 50_000 * mineral_frac + 10_000 * protein) / (SCALE as int)
}

/// Relative toxicity in the corridor between `safe` and `hard`: 0 up to
/// `safe`, 1 from `hard` on, linear in between.
pub open spec fn rtox_spec(mineral_frac: int, protein_frac: int, safe: int, hard: int) -> int {
    let base = rtox_base(mineral_frac, protein_frac);
    if base <= safe {
        0
    } else if base >= hard {
        SCALE as int
    } else {
        ((base - safe) * SCALE as int) / (hard - safe)
    }
}

/// For `0 <= num < den`, the scaled quotient lies in `[0, SCALE)`.
proof fn lemma_scaled_fraction(num: int, den: int)
    requires
        0 <= num < den,
    ensures
        0 <= (num * SCALE as int) / den < SCALE as int,
{
    let s = SCALE as int;
    vstd::arithmetic::div_mod::lemma_fundamental_div_mod(num * s, den);
    let q = (num * s) / den;
    let r = (num * s) % den;
    assert(0 <= q < s) by (nonlinear_arith)
        requires
            num * s == den * q + r,
            0 <= r < den,
            0 <= num < den,
            s > 0,
    ;
}

/// Relative toxicity of a mix within the toxicity corridor of a region.
pub fn estimate_rtox_from_mix<R: RegionConfig>(mix: &TrayMaterialMix, region: &R) -> (r: i64)
    ensures
        r as int == rtox_spec(
            mix.mineral_frac as int,
            mix.protein_frac as int,
            region.profile().rtox_safe,
            region.profile().rtox_hard,
        ),
        in_unit_interval(r as int),
{
    let protein: i128 = if mix.protein_frac > 0 {
        mix.protein_frac as i128
    } else {
        0
    };
    let raw: i128 = 20_000 * (SCALE as i128) + 50_000 * (mix.mineral_frac as i128) + 10_000
        * protein;
    proof {
        lemma_quotient_representable(raw as int, SCALE as int);
    }
    let base: i128 = div_floor(raw, SCALE as i128);
    let safe: i128 = region.rtox_safe() as i128;
    let hard: i128 = region.rtox_hard() as i128;
    if base <= safe {
        0
    } else if base >= hard {
        SCALE
    } else {
        proof {
            lemma_scaled_fraction(base as int - safe as int, hard as int - safe as int);
        }
        let scaled: i128 = (base - safe) * (SCALE as i128);
        (scaled / (hard - safe)) as i64
    }
}

/// Risk of harm: 1 where the decay time exceeds the hard limit or the
/// toxicity exceeds the gold band, else 0.
pub open spec fn risk_of_harm_spec(t90: int, t90_hard_limit: int, r_tox: int, rtox_gold: int) -> int {
    if t90 > t90_hard_limit || r_tox > rtox_gold {
        SCALE as int
    } else {
        0
    }
}

/// Eco-impact: waste avoided per cycle against 300 kg, clamped to
/// `[0, 1]`; it collapses to 0 where the risk of harm is 1.
pub open spec fn ecoimpact_spec(waste_reduced_kg_per_cycle: int, risk_of_harm: int) -> int {
    if risk_of_harm >= SCALE as int {
        0
    } else {
        clip01_spec(waste_reduced_kg_per_cycle / 300)
    }
}

/// The simulation result of a recipe in a region.
pub open spec fn score_spec(
    mix: MixModel,
    waste_reduced_kg_per_cycle: int,
    energy_kwh_per_cycle: int,
    knowledge_factor: int,
    profile: RegionProfile,
    kinetic_t90_days: int,
) -> SimModel {
    let t90 = t90_days_spec(kinetic_t90_days, mix.mineral_frac);
    let r_tox = rtox_spec(mix.mineral_frac, mix.protein_frac, profile.rtox_safe, profile.rtox_hard);
    let risk = risk_of_harm_spec(t90, profile.t90_hard_limit_days, r_tox, profile.rtox_gold);
    SimModel {
        material_id: mix.id,
        region_code: profile.region_code,
        modeled_t90_days: t90,
        r_tox,
        knowledge_factor,
        ecoimpact_score: ecoimpact_spec(waste_reduced_kg_per_cycle, risk),
        risk_of_harm: risk,
        waste_reduced_kg_per_cycle,
        energy_kwh_per_cycle,
    }
}

/// Anything that can be evaluated into eco-impact scores.
pub trait EcoScorable {
    /// What the scores of this item are, in a region with the given
    /// profile and kinetic decay time.
    spec fn scores(&self, profile: RegionProfile, kinetic_t90_days: int) -> SimModel;

    fn score<R: RegionConfig>(&self, region: &R, kinetic_t90_days: i64) -> (sim: TraySimResult)
        ensures
            sim@ == self.scores(region.profile(), kinetic_t90_days as int),
    ;
}

/// A candidate tray recipe with its operating figures.
#[derive(Clone, Debug)]
pub struct PhoenixTrayCandidate<E: EnvFeed> {
    pub mix: TrayMaterialMix,
    pub env: E,
    pub waste_reduced_kg_per_cycle: i64,
    pub energy_kwh_per_cycle: i64,
    pub knowledge_factor: i64,
}

impl<E: EnvFeed> EcoScorable for PhoenixTrayCandidate<E> {
    open spec fn scores(&self, profile: RegionProfile, kinetic_t90_days: int) -> SimModel {
        score_spec(
            self.mix@,
            self.waste_reduced_kg_per_cycle as int,
            self.energy_kwh_per_cycle as int,
            self.knowledge_factor as int,
            profile,
            kinetic_t90_days,
        )
    }

    fn score<R: RegionConfig>(&self, region: &R, kinetic_t90_days: i64) -> (sim: TraySimResult) {
        let modeled_t90: i128 = estimate_t90_days_from_mix(&self.mix, kinetic_t90_days);
        let r_tox: i64 = estimate_rtox_from_mix(&self.mix, region);
        let mut risk_of_harm: i64 = 0;
        if modeled_t90 > region.t90_hard_limit_days() as i128 {
            risk_of_harm = SCALE;
        }
        if r_tox > region.rtox_gold() {
            risk_of_harm = SCALE;
        }
        let e_raw: i128 = div_floor(self.waste_reduced_kg_per_cycle as i128, 300);
        let ecoimpact_score: i64 = clip01(e_raw);
        let ecoimpact_final: i64 = if risk_of_harm >= SCALE {
            0
        } else {
            ecoimpact_score
        };
        TraySimResult {
            material_id: self.mix.id.clone(),
            region_code: String::from_str(region.region_code()),
            modeled_t90_days: modeled_t90,
            r_tox,
            knowledge_factor: self.knowledge_factor,
            ecoimpact_score: ecoimpact_final,
            risk_of_harm,
            waste_reduced_kg_per_cycle: self.waste_reduced_kg_per_cycle,
            energy_kwh_per_cycle: self.energy_kwh_per_cycle,
        }
    }
}

/// Why the kernel has no value.
#[derive(Clone, Copy, Debug, PartialEq, Eq)]
pub enum KernelError {
    /// A reading that the value depends on is not wired yet.
    NotWired,
    /// The value lies outside the range the kernel computes in.
    OutOfRange,
}

/// Hydropower in kW: half of density x area x velocity cubed x
/// efficiency, in watts, over 1000. The flux density x area x velocity^3
/// is rounded down to a scaled value first; `None` where it is not
/// representable.
pub open spec fn hydro_power_kw_spec(density: int, area: int, velocity: int, cp: int) -> Option<
    i128,
> {
    let p = density * area * velocity * velocity * velocity;
    let s = SCALE as int;
    if representable(p) {
        Some((((p / (s * s * s * s)) * cp) / (2000 * s)) as i128)
    } else {
        None
    }
}

/// The hydropower that a feed's canal can deliver, in kW.
pub open spec fn canal_hydro_power_spec(profile: RegionProfile, readings: Option<EnvReadings>) -> Result<
    i128,
    KernelError,
> {
    match readings {
        None => Err(KernelError::NotWired),
        Some(m) => match hydro_power_kw_spec(
            profile.hydro_water_density_kg_m3,
            m.canal_area_m2,
            m.canal_velocity_m_s,
            profile.hydro_cp_efficiency,
        ) {
            Some(p) => Ok(p),
            None => Err(KernelError::OutOfRange),
        },
    }
}

/// Hydropower of the canal segment behind a feed, in kW.
pub fn canal_hydro_power_kw<E: EnvFeed>(env: &E) -> (r: Result<i128, KernelError>)
    ensures
        r == canal_hydro_power_spec(env.region_profile(), env.readings()),
{
    let region = env.region();
    let rho: i64 = region.hydro_water_density_kg_m3();
    let a: i64 = match env.canal_area_m2() {
        Ok(a) => a,
        Err(_) => {
            return Err(KernelError::NotWired);
        },
    };
    let v: i64 = match env.canal_velocity_m_s() {
        Ok(v) => v,
        Err(_) => {
            return Err(KernelError::NotWired);
        },
    };
    let cp: i64 = region.hydro_cp_efficiency();
    match checked_product5(rho as i128, a as i128, v as i128, v as i128, v as i128) {
        None => Err(KernelError::OutOfRange),
        Some(p) => {
            let s4: i128 = 1_000_000_000_000_000_000_000_000;
            proof {
                let s = SCALE as int;
                assert(s * s * s * s == s4 as int) by (nonlinear_arith)
                    requires
                        s == 1_000_000,
                        s4 as int == 1_000_000_000_000_000_000_000_000,
                ;
                lemma_quotient_representable(p as int, s4 as int);
                vstd::arithmetic::div_mod::lemma_div_is_ordered(
                    p as int,
                    i128::MAX as int,
                    s4 as int,
                );
                vstd::arithmetic::div_mod::lemma_div_is_ordered(
                    -(i128::MAX as int),
                    p as int,
                    s4 as int,
                );
            }
            let flux: i128 = div_floor(p, s4);
            proof {
                assert(-0x7fff_ffff_ffff_ffff_ffff_ffff_ffff_ffff <= flux as int * cp as int
                    <= 0x7fff_ffff_ffff_ffff_ffff_ffff_ffff_ffff) by (nonlinear_arith)
                    requires
                        -170_141_183_460_470 <= flux as int <= 170_141_183_460_470,
                        -0x8000_0000_0000_0000 <= cp as int <= 0x8000_0000_0000_0000,
                ;
            }
            let watts_twice: i128 = flux * (cp as i128);
            Ok(div_floor(watts_twice, 2000 * (SCALE as i128)))
        },
    }
}

/// One row of a tray shard.
#[derive(Clone, Debug)]
pub struct QpuTrayShardRow {
    pub machine_id: String,
    pub facility: String,
    pub region: String,
    pub lat: i64,
    pub lon: i64,
    pub materialmix: String,
    pub target_t90_days: i64,
    pub modeled_t90_days: i128,
    pub iso14851_class: String,
    pub ecoimpact_score: i64,
    pub waste_reduced_kg_per_cycle: i64,
    pub tox_risk_corridor: i64,
    pub energy_kwh_per_cycle: i64,
}

/// The mathematical value of a `QpuTrayShardRow`.
pub struct RowModel {
    pub machine_id: Seq<char>,
    pub facility: Seq<char>,
    pub region: Seq<char>,
    pub lat: int,
    pub lon: int,
    pub materialmix: Seq<char>,
    pub target_t90_days: int,
    pub modeled_t90_days: int,
    pub iso14851_class: Seq<char>,
    pub ecoimpact_score: int,
    pub waste_reduced_kg_per_cycle: int,
    pub tox_risk_corridor: int,
    pub energy_kwh_per_cycle: int,
}

impl View for QpuTrayShardRow {
    type V = RowModel;

    open spec fn view(&self) -> RowModel {
        RowModel {
            machine_id: self.machine_id@,
            facility: self.facility@,
            region: self.region@,
            lat: self.lat as int,
            lon: self.lon as int,
            materialmix: self.materialmix@,
            target_t90_days: self.target_t90_days as int,
            modeled_t90_days: self.modeled_t90_days as int,
            iso14851_class: self.iso14851_class@,
            ecoimpact_score: self.ecoimpact_score as int,
            waste_reduced_kg_per_cycle: self.waste_reduced_kg_per_cycle as int,
            tox_risk_corridor: self.tox_risk_corridor as int,
            energy_kwh_per_cycle: self.energy_kwh_per_cycle as int,
        }
    }
}

/// The biodegradation class of a decay time: a strong pass up to the
/// target, a pass up to the hard limit, a fail beyond.
pub open spec fn iso_class_spec(t90: int, target: int, hard_limit: int) -> Seq<char> {
    if t90 <= target {
        "Phoenix-ISO14851-StrongPass"@
    } else if t90 <= hard_limit {
        "Phoenix-ISO14851-Pass"@
    } else {
        "Phoenix-ISO14851-Fail"@
    }
}

/// The shard row that reports a simulation result.
pub open spec fn shard_row_spec(
    machine_id: Seq<char>,
    facility: Seq<char>,
    lat: int,
    lon: int,
    mix: MixModel,
    profile: RegionProfile,
    sim: SimModel,
) -> RowModel {
    RowModel {
        machine_id,
        facility,
        region: profile.region_code,
        lat,
        lon,
        materialmix: mix.description,
        target_t90_days: profile.t90_target_days,
        modeled_t90_days: sim.modeled_t90_days,
        iso14851_class: iso_class_spec(
            sim.modeled_t90_days,
            profile.t90_target_days,
            profile.t90_hard_limit_days,
        ),
        ecoimpact_score: sim.ecoimpact_score,
        waste_reduced_kg_per_cycle: sim.waste_reduced_kg_per_cycle,
        tox_risk_corridor: sim.r_tox,
        energy_kwh_per_cycle: sim.energy_kwh_per_cycle,
    }
}

/// Maps a simulation result into a shard row.
pub fn to_qpu_tray_shard_row<R: RegionConfig>(
    machine_id: &str,
    facility: &str,
    lat: i64,
    lon: i64,
    mix: &TrayMaterialMix,
    region: &R,
    sim: &TraySimResult,
) -> (row: QpuTrayShardRow)
    ensures
        row@ == shard_row_spec(machine_id@, facility@, lat as int, lon as int, mix@, region.profile(), sim@),
{
    let target: i64 = region.t90_target_days();
    let iso_class: String = if sim.modeled_t90_days <= target as i128 {
        String::from_str("Phoenix-ISO14851-StrongPass")
    } else if sim.modeled_t90_days <= region.t90_hard_limit_days() as i128 {
        String::from_str("Phoenix-ISO14851-Pass")
    } else {
        String::from_str("Phoenix-ISO14851-Fail")
    };
    QpuTrayShardRow {
        machine_id: String::from_str(machine_id),
        facility: String::from_str(facility),
        region: String::from_str(region.region_code()),
        lat,
        lon,
        materialmix: mix.description.clone(),
        target_t90_days: target,
        modeled_t90_days: sim.modeled_t90_days,
        iso14851_class: iso_class,
        ecoimpact_score: sim.ecoimpact_score,
        waste_reduced_kg_per_cycle: sim.waste_reduced_kg_per_cycle,
        tox_risk_corridor: sim.r_tox,
        energy_kwh_per_cycle: sim.energy_kwh_per_cycle,
    }
}

/// The row of one recipe in a static Phoenix run.
pub open spec fn phoenix_row_spec(
    recipe: (TrayMaterialMix, String, i64, i64),
    waste_reduced_kg_per_cycle: int,
    energy_kwh_per_cycle: int,
    knowledge_factor: int,
    kinetic_t90_days: int,
) -> RowModel {
    shard_row_spec(
        recipe.0@.id,
        recipe.1@,
        recipe.2 as int,
        recipe.3 as int,
        recipe.0@,
        phoenix_profile(),
        score_spec(
            recipe.0@,
            waste_reduced_kg_per_cycle,
            energy_kwh_per_cycle,
            knowledge_factor,
            phoenix_profile(),
            kinetic_t90_days,
        ),
    )
}

/// Scores a batch of recipes `(mix, facility, lat, lon)` against the static
/// Phoenix profile, one shard row per recipe, in order.
pub fn simulate_tray_recipes_phoenix(
    recipes: Vec<(TrayMaterialMix, String, i64, i64)>,
    waste_reduced_kg_per_cycle: i64,
    energy_kwh_per_cycle: i64,
    knowledge_factor: i64,
    kinetic_t90_days: i64,
) -> (rows: Vec<QpuTrayShardRow>)
    ensures
        rows@.len() == recipes@.len(),
        forall|i: int|
            0 <= i < recipes@.len() ==> (#[trigger] rows@[i])@ == phoenix_row_spec(
                recipes@[i],
                waste_reduced_kg_per_cycle as int,
                energy_kwh_per_cycle as int,
                knowledge_factor as int,
                kinetic_t90_days as int,
            ),
{
    let mut rows: Vec<QpuTrayShardRow> = Vec::new();
    let mut i: usize = 0;
    while i < recipes.len()
        invariant
            0 <= i <= recipes@.len(),
            rows@.len() == i,
            forall|k: int|
                0 <= k < i ==> (#[trigger] rows@[k])@ == phoenix_row_spec(
                    recipes@[k],
                    waste_reduced_kg_per_cycle as int,
                    energy_kwh_per_cycle as int,
                    knowledge_factor as int,
                    kinetic_t90_days as int,
                ),
        decreases recipes@.len() - i,
    {
        let env = StaticConfigFeed { region_cfg: PhoenixAzConfig };
        let candidate = PhoenixTrayCandidate {
            mix: recipes[i].0.duplicate(),
            env,
            waste_reduced_kg_per_cycle,
            energy_kwh_per_cycle,
            knowledge_factor,
        };
        let region = candidate.env.region();
        let sim: TraySimResult = candidate.score(region, kinetic_t90_days);
        let row: QpuTrayShardRow = to_qpu_tray_shard_row(
            recipes[i].0.id.as_str(),
            recipes[i].1.as_str(),
            recipes[i].2,
            recipes[i].3,
            &recipes[i].0,
            region,
            &sim,
        );
        rows.push(row);
        i += 1;
    }
    rows
}

/// The header line of a tray shard.
pub open spec fn shard_header() -> Seq<char> {
    "machineid,facility,region,lat,lon,materialmix,target_t90_days,modeled_t90_days,iso14851_class,ecoimpact_score,waste_reduced_kg_per_cycle,tox_risk_corridor,energy_kwh_per_cycle\n"@
}

/// One row of a tray shard as a line: the columns in header order,
/// separated by commas, the material mix in double quotes with its own
/// double quotes turned into single ones, coordinates with four decimals,
/// days and kilograms with one, scores with three and energy with two.
pub open spec fn shard_line(row: RowModel) -> Seq<char> {
    row.machine_id + seq![','] + row.facility + seq![','] + row.region + seq![','] + fixed_text(
        row.lat,
        4,
    ) + seq![','] + fixed_text(row.lon, 4) + seq![',', '"'] + single_quoted(row.materialmix)
        + seq!['"', ','] + fixed_text(row.target_t90_days, 1) + seq![','] + fixed_text(
        row.modeled_t90_days,
        1,
    ) + seq![','] + row.iso14851_class + seq![','] + fixed_text(row.ecoimpact_score, 3) + seq![
        ',',
    ] + fixed_text(row.waste_reduced_kg_per_cycle, 1) + seq![','] + fixed_text(
        row.tox_risk_corridor,
        3,
    ) + seq![','] + fixed_text(row.energy_kwh_per_cycle, 2) + seq!['\n']
}

/// The header followed by the lines of the first `n` rows.
pub open spec fn shard_csv_spec(rows: Seq<QpuTrayShardRow>, n: int) -> Seq<char>
    decreases n,
{
    if n <= 0 {
        shard_header()
    } else {
        shard_csv_spec(rows, n - 1) + shard_line(rows[n - 1]@)
    }
}

/// Appends a comma and a scaled value with `places` decimals.
fn push_number(out: &mut String, x: i128, places: usize)
    requires
        places <= 6,
    ensures
        final(out)@ == old(out)@ + seq![','] + fixed_text(x as int, places as nat),
{
    out.push(',');
    out.append(render_fixed(x, places).as_str());
    assert(old(out)@.push(',') =~= old(out)@ + seq![',']);
}

/// Appends a comma and a text.
fn push_text(out: &mut String, text: &str)
    ensures
        final(out)@ == old(out)@ + seq![','] + text@,
{
    out.push(',');
    out.append(text);
    assert(old(out)@.push(',') =~= old(out)@ + seq![',']);
}

/// Appends the line of one row.
fn push_shard_line(out: &mut String, r: &QpuTrayShardRow)
    ensures
        final(out)@ == old(out)@ + shard_line(r@),
{
    let ghost start = out@;
    let mut line: String = r.machine_id.clone();
    push_text(&mut line, r.facility.as_str());
    push_text(&mut line, r.region.as_str());
    push_number(&mut line, r.lat as i128, 4);
    push_number(&mut line, r.lon as i128, 4);
    let ghost before_mix = line@;
    line.push(',');
    line.push('"');
    line.append(replace_double_quotes(r.materialmix.as_str()).as_str());
    line.push('"');
    assert(line@ =~= before_mix + seq![',', '"'] + single_quoted(r.materialmix@) + seq!['"']);
    let ghost after_mix = line@;
    push_number(&mut line, r.target_t90_days as i128, 1);
    assert(line@ =~= before_mix + seq![',', '"'] + single_quoted(r.materialmix@) + seq!['"', ',']
        + fixed_text(r.target_t90_days as int, 1));
    push_number(&mut line, r.modeled_t90_days, 1);
    push_text(&mut line, r.iso14851_class.as_str());
    push_number(&mut line, r.ecoimpact_score as i128, 3);
    push_number(&mut line, r.waste_reduced_kg_per_cycle as i128, 1);
    push_number(&mut line, r.tox_risk_corridor as i128, 3);
    push_number(&mut line, r.energy_kwh_per_cycle as i128, 2);
    let ghost before_end = line@;
    line.push('\n');
    assert(line@ =~= before_end + seq!['\n']);
    assert(line@ == shard_line(r@));
    out.append(line.as_str());
}

/// Renders shard rows as text: the header line, then one line per row.
pub fn qpu_tray_shard_to_csv(rows: &[QpuTrayShardRow]) -> (out: String)
    ensures
        out@ == shard_csv_spec(rows@, rows@.len() as int),
{
    let mut out: String = String::from_str(
        "machineid,facility,region,lat,lon,materialmix,target_t90_days,modeled_t90_days,iso14851_class,ecoimpact_score,waste_reduced_kg_per_cycle,tox_risk_corridor,energy_kwh_per_cycle\n",
    );
    let mut i: usize = 0;
    while i < rows.len()
        invariant
            0 <= i <= rows@.len(),
            out@ == shard_csv_spec(rows@, i as int),
        decreases rows@.len() - i,
    {
        push_shard_line(&mut out, &rows[i]);
        i += 1;
    }
    out
}

} // verus!
