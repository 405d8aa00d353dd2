//! Region profiles and environmental feeds.
//!
//! A region profile is a table of constants; a feed supplies the readings
//! of one tick, either derived from the profile or from telemetry.

use vstd::prelude::*;
use crate::fixed::div_floor;

verus! {

/// The constants of a region, as mathematical values. Pairs are `(low, high)`.
pub struct RegionProfile {
    pub region_code: Seq<char>,
    pub compost_temp_range_c: (int, int),
    pub compost_moisture_frac: (int, int),
    pub compost_oxygen_min_percent: int,
    pub canal_ph_range: (int, int),
    pub canal_tds_mg_l: (int, int),
    pub cref_tray_residual_mg_l: int,
    pub hydro_water_density_kg_m3: int,
    pub hydro_cp_efficiency: int,
    pub hydro_default_area_m2: int,
    pub hydro_default_velocity_m_s: int,
    pub t90_target_days: int,
    pub t90_hard_limit_days: int,
    pub rtox_safe: int,
    pub rtox_gold: int,
    pub rtox_hard: int,
    pub karma_per_kg_tray_residual_avoided: int,
}

/// The region-specific parameters of a deployment. Every accessor
/// returns the matching entry of the region's profile.
pub trait RegionConfig {
    /// The table of constants that the accessors read.
    spec fn profile(&self) -> RegionProfile;

    fn region_code(&self) -> (r: &str)
        ensures
            r@ == self.profile().region_code,
    ;

    fn compost_temp_range_c(&self) -> (r: (i64, i64))
        ensures
            r.0 as int == self.profile().compost_temp_range_c.0,
            r.1 as int == self.profile().compost_temp_range_c.1,
    ;

    fn compost_moisture_frac(&self) -> (r: (i64, i64))
        ensures
            r.0 as int == self.profile().compost_moisture_frac.0,
            r.1 as int == self.profile().compost_moisture_frac.1,
    ;

    fn compost_oxygen_min_percent(&self) -> (r: i64)
        ensures
            r as int == self.profile().compost_oxygen_min_percent,
    ;

    fn canal_ph_range(&self) -> (r: (i64, i64))
        ensures
            r.0 as int == self.profile().canal_ph_range.0,
            r.1 as int == self.profile().canal_ph_range.1,
    ;

    fn canal_tds_mg_l(&self) -> (r: (i64, i64))
        ensures
            r.0 as int == self.profile().canal_tds_mg_l.0,
            r.1 as int == self.profile().canal_tds_mg_l.1,
    ;

    fn cref_tray_residual_mg_l(&self) -> (r: i64)
        ensures
            r as int == self.profile().cref_tray_residual_mg_l,
    ;

    fn hydro_water_density_kg_m3(&self) -> (r: i64)
        ensures
            r as int == self.profile().hydro_water_density_kg_m3,
    ;

    fn hydro_cp_efficiency(&self) -> (r: i64)
        ensures
            r as int == self.profile().hydro_cp_efficiency,
    ;

    fn hydro_default_area_m2(&self) -> (r: i64)
        ensures
            r as int == self.profile().hydro_default_area_m2,
    ;

    fn hydro_default_velocity_m_s(&self) -> (r: i64)
        ensures
            r as int == self.profile().hydro_default_velocity_m_s,
    ;

    fn t90_target_days(&self) -> (r: i64)
        ensures
            r as int == self.profile().t90_target_days,
    ;

    fn t90_hard_limit_days(&self) -> (r: i64)
        ensures
            r as int == self.profile().t90_hard_limit_days,
    ;

    fn rtox_safe(&self) -> (r: i64)
        ensures
            r as int == self.profile().rtox_safe,
    ;

    fn rtox_gold(&self) -> (r: i64)
        ensures
            r as int == self.profile().rtox_gold,
    ;

    fn rtox_hard(&self) -> (r: i64)
        ensures
            r as int == self.profile().rtox_hard,
    ;

    fn karma_per_kg_tray_residual_avoided(&self) -> (r: i64)
        ensures
            r as int == self.profile().karma_per_kg_tray_residual_avoided,
    ;
}

/// The Phoenix, Arizona profile.
#[derive(Clone, Copy, Debug)]
pub struct PhoenixAzConfig;

/// The constants of the Phoenix profile, as scaled values.
pub open spec fn phoenix_profile() -> RegionProfile {
    RegionProfile {
        region_code: "Phoenix-AZ-US"@,
        compost_temp_range_c: (45_000_000, 60_000_000),
        compost_moisture_frac: (450_000, 650_000),
        compost_oxygen_min_percent: 10_000_000,
        canal_ph_range: (7_200_000, 8_300_000),
        canal_tds_mg_l: (500_000_000, 900_000_000),
        cref_tray_residual_mg_l: 50_000_000,
        hydro_water_density_kg_m3: 1_000_000_000,
        hydro_cp_efficiency: 400_000,
        hydro_default_area_m2: 2_000_000,
        hydro_default_velocity_m_s: 2_000_000,
        t90_target_days: 90_000_000,
        t90_hard_limit_days: 180_000_000,
        rtox_safe: 50_000,
        rtox_gold: 100_000,
        rtox_hard: 200_000,
        karma_per_kg_tray_residual_avoided: 670_000_000_000,
    }
}

impl RegionConfig for PhoenixAzConfig {
    open spec fn profile(&self) -> RegionProfile {
        phoenix_profile()
    }

    fn region_code(&self) -> (r: &str) {
        "Phoenix-AZ-US"
    }

    fn compost_temp_range_c(&self) -> (r: (i64, i64)) {
        (45_000_000, 60_000_000)
    }

    fn compost_moisture_frac(&self) -> (r: (i64, i64)) {
        (450_000, 650_000)
    }

    fn compost_oxygen_min_percent(&self) -> (r: i64) {
        10_000_000
    }

    fn canal_ph_range(&self) -> (r: (i64, i64)) {
        (7_200_000, 8_300_000)
    }

    fn canal_tds_mg_l(&self) -> (r: (i64, i64)) {
        (500_000_000, 900_000_000)
    }

    fn cref_tray_residual_mg_l(&self) -> (r: i64) {
        50_000_000
    }

    fn hydro_water_density_kg_m3(&self) -> (r: i64) {
        1_000_000_000
    }

    fn hydro_cp_efficiency(&self) -> (r: i64) {
        400_000
    }

    fn hydro_default_area_m2(&self) -> (r: i64) {
        2_000_000
    }

    fn hydro_default_velocity_m_s(&self) -> (r: i64) {
        2_000_000
    }

    fn t90_target_days(&self) -> (r: i64) {
        90_000_000
    }

    fn t90_hard_limit_days(&self) -> (r: i64) {
        180_000_000
    }

    fn rtox_safe(&self) -> (r: i64) {
        50_000
    }

    fn rtox_gold(&self) -> (r: i64) {
        100_000
    }

    fn rtox_hard(&self) -> (r: i64) {
        200_000
    }

    fn karma_per_kg_tray_residual_avoided(&self) -> (r: i64) {
        670_000_000_000
    }
}

/// A region given by an explicit table of constants, for deployments
/// that have no profile of their own in this library.
#[derive(Clone, Debug)]
pub struct RegionTable {
    pub region_code: String,
    pub compost_temp_range_c_low: i64,
    pub compost_temp_range_c_high: i64,
    pub compost_moisture_frac_low: i64,
    pub compost_moisture_frac_high: i64,
    pub compost_oxygen_min_percent: i64,
    pub canal_ph_range_low: i64,
    pub canal_ph_range_high: i64,
    pub canal_tds_mg_l_low: i64,
    pub canal_tds_mg_l_high: i64,
    pub cref_tray_residual_mg_l: i64,
    pub hydro_water_density_kg_m3: i64,
    pub hydro_cp_efficiency: i64,
    pub hydro_default_area_m2: i64,
    pub hydro_default_velocity_m_s: i64,
    pub t90_target_days: i64,
    pub t90_hard_limit_days: i64,
    pub rtox_safe: i64,
    pub rtox_gold: i64,
    pub rtox_hard: i64,
    pub karma_per_kg_tray_residual_avoided: i64,
}

impl RegionConfig for RegionTable {
    open spec fn profile(&self) -> RegionProfile {
        RegionProfile {
            region_code: self.region_code@,
            compost_temp_range_c: (
                self.compost_temp_range_c_low as int,
                self.compost_temp_range_c_high as int,
            ),
            compost_moisture_frac: (
                self.compost_moisture_frac_low as int,
                self.compost_moisture_frac_high as int,
            ),
            compost_oxygen_min_percent: self.compost_oxygen_min_percent as int,
            canal_ph_range: (self.canal_ph_range_low as int, self.canal_ph_range_high as int),
            canal_tds_mg_l: (self.canal_tds_mg_l_low as int, self.canal_tds_mg_l_high as int),
            cref_tray_residual_mg_l: self.cref_tray_residual_mg_l as int,
            hydro_water_density_kg_m3: self.hydro_water_density_kg_m3 as int,
            hydro_cp_efficiency: self.hydro_cp_efficiency as int,
            hydro_default_area_m2: self.hydro_default_area_m2 as int,
            hydro_default_velocity_m_s: self.hydro_default_velocity_m_s as int,
            t90_target_days: self.t90_target_days as int,
            t90_hard_limit_days: self.t90_hard_limit_days as int,
            rtox_safe: self.rtox_safe as int,
            rtox_gold: self.rtox_gold as int,
            rtox_hard: self.rtox_hard as int,
            karma_per_kg_tray_residual_avoided: self.karma_per_kg_tray_residual_avoided as int,
        }
    }

    fn region_code(&self) -> (r: &str) {
        self.region_code.as_str()
    }

    fn compost_temp_range_c(&self) -> (r: (i64, i64)) {
        (self.compost_temp_range_c_low, self.compost_temp_range_c_high)
    }

    fn compost_moisture_frac(&self) -> (r: (i64, i64)) {
        (self.compost_moisture_frac_low, self.compost_moisture_frac_high)
    }

    fn compost_oxygen_min_percent(&self) -> (r: i64) {
        self.compost_oxygen_min_percent
    }

    fn canal_ph_range(&self) -> (r: (i64, i64)) {
        (self.canal_ph_range_low, self.canal_ph_range_high)
    }

    fn canal_tds_mg_l(&self) -> (r: (i64, i64)) {
        (self.canal_tds_mg_l_low, self.canal_tds_mg_l_high)
    }

    fn cref_tray_residual_mg_l(&self) -> (r: i64) {
        self.cref_tray_residual_mg_l
    }

    fn hydro_water_density_kg_m3(&self) -> (r: i64) {
        self.hydro_water_density_kg_m3
    }

    fn hydro_cp_efficiency(&self) -> (r: i64) {
        self.hydro_cp_efficiency
    }

    fn hydro_default_area_m2(&self) -> (r: i64) {
        self.hydro_default_area_m2
    }

    fn hydro_default_velocity_m_s(&self) -> (r: i64) {
        self.hydro_default_velocity_m_s
    }

    fn t90_target_days(&self) -> (r: i64) {
        self.t90_target_days
    }

    fn t90_hard_limit_days(&self) -> (r: i64) {
        self.t90_hard_limit_days
    }

    fn rtox_safe(&self) -> (r: i64) {
        self.rtox_safe
    }

    fn rtox_gold(&self) -> (r: i64) {
        self.rtox_gold
    }

    fn rtox_hard(&self) -> (r: i64) {
        self.rtox_hard
    }

    fn karma_per_kg_tray_residual_avoided(&self) -> (r: i64) {
        self.karma_per_kg_tray_residual_avoided
    }
}

/// Why a feed has no reading.
#[derive(Clone, Copy, Debug, PartialEq, Eq)]
pub enum FeedError {
    /// The sensor channel behind the reading is not wired yet.
    NotWired,
}

/// The readings of one tick, as mathematical values.
pub struct EnvReadings {
    pub compost_temp_c: int,
    pub compost_moisture_frac: int,
    pub compost_oxygen_percent: int,
    pub canal_velocity_m_s: int,
    pub canal_area_m2: int,
    pub canal_ph: int,
    pub canal_tds_mg_l: int,
}

/// Whether a reading matches the entry `expected` picks from the feed's
/// readings: the value where the feed has readings, `NotWired` where it has none.
pub open spec fn reading_matches(
    r: Result<i64, FeedError>,
    readings: Option<EnvReadings>,
    expected: spec_fn(EnvReadings) -> int,
) -> bool {
    match readings {
        Some(m) => r is Ok && r->Ok_0 as int == expected(m),
        None => r == Err::<i64, FeedError>(FeedError::NotWired),
    }
}

/// A provider of environmental data for one region.
pub trait EnvFeed {
    type Region: RegionConfig;

    /// The readings of the feed, or `None` where its channels are not wired.
    spec fn readings(&self) -> Option<EnvReadings>;

    /// The region as a mathematical value.
    spec fn region_profile(&self) -> RegionProfile;

    fn region(&self) -> (r: &Self::Region)
        ensures
            r.profile() == self.region_profile(),
    ;

    fn compost_temp_c(&self) -> (r: Result<i64, FeedError>)
        ensures
            reading_matches(r, self.readings(), |m: EnvReadings| m.compost_temp_c),
    ;

    fn compost_moisture_frac(&self) -> (r: Result<i64, FeedError>)
        ensures
            reading_matches(r, self.readings(), |m: EnvReadings| m.compost_moisture_frac),
    ;

    fn compost_oxygen_percent(&self) -> (r: Result<i64, FeedError>)
        ensures
            reading_matches(r, self.readings(), |m: EnvReadings| m.compost_oxygen_percent),
    ;

    fn canal_velocity_m_s(&self) -> (r: Result<i64, FeedError>)
        ensures
            reading_matches(r, self.readings(), |m: EnvReadings| m.canal_velocity_m_s),
    ;

    fn canal_area_m2(&self) -> (r: Result<i64, FeedError>)
        ensures
            reading_matches(r, self.readings(), |m: EnvReadings| m.canal_area_m2),
    ;

    fn canal_ph(&self) -> (r: Result<i64, FeedError>)
        ensures
            reading_matches(r, self.readings(), |m: EnvReadings| m.canal_ph),
    ;

    fn canal_tds_mg_l(&self) -> (r: Result<i64, FeedError>)
        ensures
            reading_matches(r, self.readings(), |m: EnvReadings| m.canal_tds_mg_l),
    ;
}

/// The midpoint of a range, rounded down.
pub open spec fn midpoint(range: (int, int)) -> int {
    (range.0 + range.1) / 2
}

/// Computes the midpoint of a range.
pub fn range_midpoint(range: (i64, i64)) -> (m: i64)
    ensures
        m as int == midpoint((range.0 as int, range.1 as int)),
{
    let sum: i128 = range.0 as i128 + range.1 as i128;
    div_floor(sum, 2) as i64
}

/// A feed without live telemetry: every reading is derived from the
/// region profile.
#[derive(Clone, Debug)]
pub struct StaticConfigFeed<R: RegionConfig + Clone> {
    pub region_cfg: R,
}

/// The readings that a profile stands for: midpoints of its ranges, its
/// oxygen minimum and its default canal geometry.
pub open spec fn static_readings(p: RegionProfile) -> EnvReadings {
    EnvReadings {
        compost_temp_c: midpoint(p.compost_temp_range_c),
        compost_moisture_frac: midpoint(p.compost_moisture_frac),
        compost_oxygen_percent: p.compost_oxygen_min_percent,
        canal_velocity_m_s: p.hydro_default_velocity_m_s,
        canal_area_m2: p.hydro_default_area_m2,
        canal_ph: midpoint(p.canal_ph_range),
        canal_tds_mg_l: midpoint(p.canal_tds_mg_l),
    }
}

impl<R: RegionConfig + Clone> EnvFeed for StaticConfigFeed<R> {
    type Region = R;

    open spec fn readings(&self) -> Option<EnvReadings> {
        Some(static_readings(self.region_cfg.profile()))
    }

    open spec fn region_profile(&self) -> RegionProfile {
        self.region_cfg.profile()
    }

    fn region(&self) -> (r: &R) {
        &self.region_cfg
    }

    fn compost_temp_c(&self) -> (r: Result<i64, FeedError>) {
        Ok(range_midpoint(self.region_cfg.compost_temp_range_c()))
    }

    fn compost_moisture_frac(&self) -> (r: Result<i64, FeedError>) {
        Ok(range_midpoint(self.region_cfg.compost_moisture_frac()))
    }

    fn compost_oxygen_percent(&self) -> (r: Result<i64, FeedError>) {
        Ok(self.region_cfg.compost_oxygen_min_percent())
    }

    fn canal_velocity_m_s(&self) -> (r: Result<i64, FeedError>) {
        Ok(self.region_cfg.hydro_default_velocity_m_s())
    }

    fn canal_area_m2(&self) -> (r: Result<i64, FeedError>) {
        Ok(self.region_cfg.hydro_default_area_m2())
    }

    fn canal_ph(&self) -> (r: Result<i64, FeedError>) {
        Ok(range_midpoint(self.region_cfg.canal_ph_range()))
    }

    fn canal_tds_mg_l(&self) -> (r: Result<i64, FeedError>) {
        Ok(range_midpoint(self.region_cfg.canal_tds_mg_l()))
    }
}

/// A feed for live telemetry. Its channels are not wired yet: every
/// reading reports `NotWired`.
pub struct TelemetryFeed<R: RegionConfig + Clone> {
    pub region_cfg: R,
}

impl<R: RegionConfig + Clone> EnvFeed for TelemetryFeed<R> {
    type Region = R;

    open spec fn readings(&self) -> Option<EnvReadings> {
        None
    }

    open spec fn region_profile(&self) -> RegionProfile {
        self.region_cfg.profile()
    }

    fn region(&self) -> (r: &R) {
        &self.region_cfg
    }

    fn compost_temp_c(&self) -> (r: Result<i64, FeedError>) {
        Err(FeedError::NotWired)
    }

    fn compost_moisture_frac(&self) -> (r: Result<i64, FeedError>) {
        Err(FeedError::NotWired)
    }

    fn compost_oxygen_percent(&self) -> (r: Result<i64, FeedError>) {
        Err(FeedError::NotWired)
    }

    fn canal_velocity_m_s(&self) -> (r: Result<i64, FeedError>) {
        Err(FeedError::NotWired)
    }

    fn canal_area_m2(&self) -> (r: Result<i64, FeedError>) {
        Err(FeedError::NotWired)
    }

    fn canal_ph(&self) -> (r: Result<i64, FeedError>) {
        Err(FeedError::NotWired)
    }

    fn canal_tds_mg_l(&self) -> (r: Result<i64, FeedError>) {
        Err(FeedError::NotWired)
    }
}

} // verus!
