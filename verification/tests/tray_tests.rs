use econet_corridor::fixed::SCALE;
use econet_corridor::region::{
    range_midpoint, EnvFeed, FeedError, PhoenixAzConfig, RegionConfig, RegionTable,
    StaticConfigFeed, TelemetryFeed,
};
use econet_corridor::tray_kernel::{
    canal_hydro_power_kw, estimate_rtox_from_mix, estimate_t90_days_from_mix,
    qpu_tray_shard_to_csv, simulate_tray_recipes_phoenix, to_qpu_tray_shard_row, EcoScorable, KernelError,
    PhoenixTrayCandidate, TrayMaterialMix,
};

fn mix(mineral_frac: i64, protein_frac: i64) -> TrayMaterialMix {
    TrayMaterialMix {
        id: "AR-PHX-LAB-01".to_string(),
        description: "70% bagasse 25% starch 5% clay".to_string(),
        fiber_frac: 700_000,
        starch_frac: 250_000,
        protein_frac,
        mineral_frac,
    }
}

/// A region whose canal figures are chosen by the test.
fn canal(density: i64, area: i64, velocity: i64, cp: i64) -> RegionTable {
    RegionTable {
        region_code: "Test-Canal".to_string(),
        compost_temp_range_c_low: i64::MAX - 1,
        compost_temp_range_c_high: i64::MAX,
        compost_moisture_frac_low: i64::MIN,
        compost_moisture_frac_high: i64::MIN + 1,
        compost_oxygen_min_percent: 1,
        canal_ph_range_low: -3,
        canal_ph_range_high: 0,
        canal_tds_mg_l_low: i64::MIN,
        canal_tds_mg_l_high: i64::MAX,
        cref_tray_residual_mg_l: 1,
        hydro_water_density_kg_m3: density,
        hydro_cp_efficiency: cp,
        hydro_default_area_m2: area,
        hydro_default_velocity_m_s: velocity,
        t90_target_days: 10 * SCALE,
        t90_hard_limit_days: 20 * SCALE,
        rtox_safe: 300_000,
        rtox_gold: 300_000,
        rtox_hard: 300_000,
        karma_per_kg_tray_residual_avoided: 1,
    }
}

#[test]
fn phoenix_profile_constants() {
    let p = PhoenixAzConfig;
    assert_eq!(p.region_code(), "Phoenix-AZ-US");
    assert_eq!(p.compost_temp_range_c(), (45 * SCALE, 60 * SCALE));
    assert_eq!(p.compost_moisture_frac(), (450_000, 650_000));
    assert_eq!(p.compost_oxygen_min_percent(), 10 * SCALE);
    assert_eq!(p.canal_ph_range(), (7_200_000, 8_300_000));
    assert_eq!(p.canal_tds_mg_l(), (500 * SCALE, 900 * SCALE));
    assert_eq!(p.cref_tray_residual_mg_l(), 50 * SCALE);
    assert_eq!(p.hydro_water_density_kg_m3(), 1000 * SCALE);
    assert_eq!(p.hydro_cp_efficiency(), 400_000);
    assert_eq!(p.hydro_default_area_m2(), 2 * SCALE);
    assert_eq!(p.hydro_default_velocity_m_s(), 2 * SCALE);
    assert_eq!(p.t90_target_days(), 90 * SCALE);
    assert_eq!(p.t90_hard_limit_days(), 180 * SCALE);
    assert_eq!(p.rtox_safe(), 50_000);
    assert_eq!(p.rtox_gold(), 100_000);
    assert_eq!(p.rtox_hard(), 200_000);
    assert_eq!(p.karma_per_kg_tray_residual_avoided(), 670_000 * SCALE);
}

#[test]
fn static_feed_reads_the_profile() {
    let feed = StaticConfigFeed { region_cfg: PhoenixAzConfig };
    assert_eq!(feed.region().region_code(), "Phoenix-AZ-US");
    assert_eq!(feed.compost_temp_c(), Ok(52_500_000));
    assert_eq!(feed.compost_moisture_frac(), Ok(550_000));
    assert_eq!(feed.compost_oxygen_percent(), Ok(10 * SCALE));
    assert_eq!(feed.canal_velocity_m_s(), Ok(2 * SCALE));
    assert_eq!(feed.canal_area_m2(), Ok(2 * SCALE));
    assert_eq!(feed.canal_ph(), Ok(7_750_000));
    assert_eq!(feed.canal_tds_mg_l(), Ok(700 * SCALE));
}

#[test]
fn static_feed_midpoints_at_the_edges() {
    let feed = StaticConfigFeed { region_cfg: canal(1, 1, 1, 1) };
    assert_eq!(feed.compost_temp_c(), Ok(i64::MAX - 1));
    assert_eq!(feed.compost_moisture_frac(), Ok(i64::MIN));
    assert_eq!(feed.canal_ph(), Ok(-2));
    assert_eq!(feed.canal_tds_mg_l(), Ok(-1));
    assert_eq!(range_midpoint((1, 2)), 1);
    assert_eq!(range_midpoint((-2, -1)), -2);
    assert_eq!(range_midpoint((i64::MAX, i64::MAX)), i64::MAX);
    assert_eq!(feed.region().region_code(), "Test-Canal");
    assert_eq!(feed.region().t90_hard_limit_days(), 20 * SCALE);
    assert_eq!(feed.compost_oxygen_percent(), Ok(1));
}

#[test]
fn telemetry_feed_is_not_wired() {
    let feed = TelemetryFeed { region_cfg: PhoenixAzConfig };
    assert_eq!(feed.region().region_code(), "Phoenix-AZ-US");
    assert_eq!(feed.compost_temp_c(), Err(FeedError::NotWired));
    assert_eq!(feed.compost_moisture_frac(), Err(FeedError::NotWired));
    assert_eq!(feed.compost_oxygen_percent(), Err(FeedError::NotWired));
    assert_eq!(feed.canal_velocity_m_s(), Err(FeedError::NotWired));
    assert_eq!(feed.canal_area_m2(), Err(FeedError::NotWired));
    assert_eq!(feed.canal_ph(), Err(FeedError::NotWired));
    assert_eq!(feed.canal_tds_mg_l(), Err(FeedError::NotWired));
    assert_eq!(canal_hydro_power_kw(&feed), Err(KernelError::NotWired));
}

#[test]
fn t90_with_mineral_penalty() {
    assert_eq!(estimate_t90_days_from_mix(&mix(50_000, 0), 6_845_000), 7_016_125);
    assert_eq!(estimate_t90_days_from_mix(&mix(0, 0), 6_845_000), 6_845_000);
    assert_eq!(estimate_t90_days_from_mix(&mix(SCALE, 0), 10 * SCALE), 15 * SCALE as i128);
    assert_eq!(estimate_t90_days_from_mix(&mix(1, 0), 1), 1);
    assert_eq!(estimate_t90_days_from_mix(&mix(1, 0), -1), -2);
    assert_eq!(
        estimate_t90_days_from_mix(&mix(i64::MAX, 0), i64::MAX),
        42_535_295_865_126_531_295_735_308_667_923
    );
}

#[test]
fn rtox_corridor() {
    let p = PhoenixAzConfig;
    // base = 0.02 + 0.05 * 0.05 + 0.01 * 0.1 = 0.0235, inside the safe band
    assert_eq!(estimate_rtox_from_mix(&mix(50_000, 100_000), &p), 0);
    // base = 0.05 exactly: still safe
    assert_eq!(estimate_rtox_from_mix(&mix(600_000, 0), &p), 0);
    // base = 0.07: (0.07 - 0.05) / (0.20 - 0.05)
    assert_eq!(estimate_rtox_from_mix(&mix(SCALE, 0), &p), 133_333);
    // base = 0.1999...: just below the hard limit
    assert_eq!(estimate_rtox_from_mix(&mix(3_599_980, 0), &p), 999_993);
    // base = 0.20 and beyond: at the hard limit
    assert_eq!(estimate_rtox_from_mix(&mix(3_600_000, 0), &p), SCALE);
    assert_eq!(estimate_rtox_from_mix(&mix(i64::MAX, i64::MAX), &p), SCALE);
    // a negative protein fraction counts as none
    assert_eq!(estimate_rtox_from_mix(&mix(SCALE, -5 * SCALE), &p), 133_333);
    assert_eq!(estimate_rtox_from_mix(&mix(SCALE, 3 * SCALE), &p), 333_333);
    assert_eq!(estimate_rtox_from_mix(&mix(i64::MIN, 0), &p), 0);
}

#[test]
fn rtox_with_an_empty_corridor() {
    let c = canal(1, 1, 1, 1);
    // safe == hard == 0.3: 0 up to it, 1 beyond
    assert_eq!(estimate_rtox_from_mix(&mix(5_600_000, 0), &c), 0);
    assert_eq!(estimate_rtox_from_mix(&mix(5_600_020, 0), &c), SCALE);
}

fn candidate(m: TrayMaterialMix, waste: i64) -> PhoenixTrayCandidate<StaticConfigFeed<PhoenixAzConfig>> {
    PhoenixTrayCandidate {
        mix: m,
        env: StaticConfigFeed { region_cfg: PhoenixAzConfig },
        waste_reduced_kg_per_cycle: waste,
        energy_kwh_per_cycle: 12_500_000,
        knowledge_factor: 800_000,
    }
}

#[test]
fn score_of_a_safe_recipe() {
    let sim = candidate(mix(50_000, 100_000), 150 * SCALE).score(&PhoenixAzConfig, 6_845_000);
    assert_eq!(sim.material_id, "AR-PHX-LAB-01");
    assert_eq!(sim.region_code, "Phoenix-AZ-US");
    assert_eq!(sim.modeled_t90_days, 7_016_125);
    assert_eq!(sim.r_tox, 0);
    assert_eq!(sim.risk_of_harm, 0);
    assert_eq!(sim.ecoimpact_score, 500_000);
    assert_eq!(sim.knowledge_factor, 800_000);
    assert_eq!(sim.waste_reduced_kg_per_cycle, 150 * SCALE);
    assert_eq!(sim.energy_kwh_per_cycle, 12_500_000);
}

#[test]
fn score_clamps_the_eco_impact() {
    assert_eq!(candidate(mix(0, 0), 900 * SCALE).score(&PhoenixAzConfig, SCALE).ecoimpact_score, SCALE);
    assert_eq!(candidate(mix(0, 0), 300 * SCALE).score(&PhoenixAzConfig, SCALE).ecoimpact_score, SCALE);
    assert_eq!(candidate(mix(0, 0), -5).score(&PhoenixAzConfig, SCALE).ecoimpact_score, 0);
    assert_eq!(candidate(mix(0, 0), 299).score(&PhoenixAzConfig, SCALE).ecoimpact_score, 0);
    assert_eq!(candidate(mix(0, 0), 301).score(&PhoenixAzConfig, SCALE).ecoimpact_score, 1);
}

#[test]
fn score_collapses_when_a_hard_gate_fails() {
    // Decay slower than the hard limit of 180 days.
    let slow = candidate(mix(0, 0), 150 * SCALE).score(&PhoenixAzConfig, 180 * SCALE + 1);
    assert_eq!(slow.risk_of_harm, SCALE);
    assert_eq!(slow.ecoimpact_score, 0);
    let at_limit = candidate(mix(0, 0), 150 * SCALE).score(&PhoenixAzConfig, 180 * SCALE);
    assert_eq!(at_limit.risk_of_harm, 0);
    assert_eq!(at_limit.ecoimpact_score, 500_000);
    // Toxicity beyond the gold band of 0.1.
    let toxic = candidate(mix(SCALE, 0), 150 * SCALE).score(&PhoenixAzConfig, SCALE);
    assert_eq!(toxic.r_tox, 133_333);
    assert_eq!(toxic.risk_of_harm, SCALE);
    assert_eq!(toxic.ecoimpact_score, 0);
    // base = 0.065 gives r_tox = 0.1 exactly: still within the band
    let edge = candidate(mix(900_000, 0), 150 * SCALE).score(&PhoenixAzConfig, SCALE);
    assert_eq!(edge.r_tox, 100_000);
    assert_eq!(edge.risk_of_harm, 0);
}

#[test]
fn hydropower_of_the_phoenix_canal() {
    // 0.5 * 1000 * 2 * 2^3 * 0.4 = 3200 W
    let feed = StaticConfigFeed { region_cfg: PhoenixAzConfig };
    assert_eq!(canal_hydro_power_kw(&feed), Ok(3_200_000));
}

#[test]
fn hydropower_rounding_and_range() {
    let feed = |density, area, velocity, cp| StaticConfigFeed {
        region_cfg: canal(density, area, velocity, cp),
    };
    // 0.5 * 1 * 1 * 1.5^3 * 1 = 1.6875 W
    assert_eq!(canal_hydro_power_kw(&feed(SCALE, SCALE, 1_500_000, SCALE)), Ok(1_687));
    assert_eq!(canal_hydro_power_kw(&feed(SCALE, SCALE, -1_500_000, SCALE)), Ok(-1_688));
    assert_eq!(canal_hydro_power_kw(&feed(SCALE, 0, i64::MAX, SCALE)), Ok(0));
    assert_eq!(canal_hydro_power_kw(&feed(0, i64::MAX, i64::MAX, SCALE)), Ok(0));
    assert_eq!(
        canal_hydro_power_kw(&feed(1000 * SCALE, 2 * SCALE, 20 * SCALE, 400_000)),
        Ok(3_200_000_000)
    );
    assert_eq!(
        canal_hydro_power_kw(&feed(1000 * SCALE, 2 * SCALE, 50 * SCALE, 400_000)),
        Err(KernelError::OutOfRange)
    );
    assert_eq!(
        canal_hydro_power_kw(&feed(i64::MAX, i64::MAX, 1, i64::MAX)),
        Ok(392_318_858_461_664_707_517_301)
    );
}

#[test]
fn shard_row_classes() {
    let m = mix(50_000, 100_000);
    let p = PhoenixAzConfig;
    let strong = candidate(m.clone(), 150 * SCALE).score(&p, 6_845_000);
    let row = to_qpu_tray_shard_row("M-1", "Lab A", 33_448_400, -112_074_000, &m, &p, &strong);
    assert_eq!(row.machine_id, "M-1");
    assert_eq!(row.facility, "Lab A");
    assert_eq!(row.region, "Phoenix-AZ-US");
    assert_eq!(row.lat, 33_448_400);
    assert_eq!(row.lon, -112_074_000);
    assert_eq!(row.materialmix, "70% bagasse 25% starch 5% clay");
    assert_eq!(row.target_t90_days, 90 * SCALE);
    assert_eq!(row.modeled_t90_days, 7_016_125);
    assert_eq!(row.iso14851_class, "Phoenix-ISO14851-StrongPass");
    assert_eq!(row.ecoimpact_score, 500_000);
    assert_eq!(row.waste_reduced_kg_per_cycle, 150 * SCALE);
    assert_eq!(row.tox_risk_corridor, 0);
    assert_eq!(row.energy_kwh_per_cycle, 12_500_000);

    let zero = mix(0, 0);
    let class_at = |kinetic: i64| {
        let sim = candidate(zero.clone(), 0).score(&p, kinetic);
        to_qpu_tray_shard_row("M", "F", 0, 0, &zero, &p, &sim).iso14851_class
    };
    assert_eq!(class_at(90 * SCALE), "Phoenix-ISO14851-StrongPass");
    assert_eq!(class_at(90 * SCALE + 1), "Phoenix-ISO14851-Pass");
    assert_eq!(class_at(180 * SCALE), "Phoenix-ISO14851-Pass");
    assert_eq!(class_at(180 * SCALE + 1), "Phoenix-ISO14851-Fail");
}

#[test]
fn batch_simulation_keeps_order() {
    let mut toxic = mix(SCALE, 0);
    toxic.id = "AR-PHX-LAB-02".to_string();
    toxic.description = "50% clay".to_string();
    let recipes = vec![
        (mix(50_000, 100_000), "Lab A".to_string(), 33_448_400, -112_074_000),
        (toxic, "Lab B".to_string(), 1, 2),
    ];
    let rows = simulate_tray_recipes_phoenix(recipes, 150 * SCALE, 12_500_000, 800_000, 6_845_000);
    assert_eq!(rows.len(), 2);
    assert_eq!(rows[0].machine_id, "AR-PHX-LAB-01");
    assert_eq!(rows[0].facility, "Lab A");
    assert_eq!(rows[0].lat, 33_448_400);
    assert_eq!(rows[0].modeled_t90_days, 7_016_125);
    assert_eq!(rows[0].ecoimpact_score, 500_000);
    assert_eq!(rows[0].tox_risk_corridor, 0);
    assert_eq!(rows[0].iso14851_class, "Phoenix-ISO14851-StrongPass");
    assert_eq!(rows[1].machine_id, "AR-PHX-LAB-02");
    assert_eq!(rows[1].facility, "Lab B");
    assert_eq!(rows[1].materialmix, "50% clay");
    assert_eq!(rows[1].lon, 2);
    assert_eq!(rows[1].modeled_t90_days, 10_267_500);
    assert_eq!(rows[1].tox_risk_corridor, 133_333);
    assert_eq!(rows[1].ecoimpact_score, 0);
    assert_eq!(rows[1].region, "Phoenix-AZ-US");
    assert_eq!(rows[1].energy_kwh_per_cycle, 12_500_000);
    assert!(simulate_tray_recipes_phoenix(vec![], 0, 0, 0, 0).is_empty());
}

#[test]
fn mix_duplicate() {
    let m = mix(50_000, 100_000);
    let d = m.duplicate();
    assert_eq!(d.id, m.id);
    assert_eq!(d.description, m.description);
    assert_eq!((d.fiber_frac, d.starch_frac, d.protein_frac, d.mineral_frac), (700_000, 250_000, 100_000, 50_000));
}

#[test]
fn shard_rendering() {
    let header = "machineid,facility,region,lat,lon,materialmix,target_t90_days,modeled_t90_days,iso14851_class,ecoimpact_score,waste_reduced_kg_per_cycle,tox_risk_corridor,energy_kwh_per_cycle\n";
    assert_eq!(qpu_tray_shard_to_csv(&[]), header);
    let mut quoted = mix(SCALE, 0);
    quoted.id = "AR-PHX-LAB-02".to_string();
    quoted.description = "50% \"desert\" clay".to_string();
    let recipes = vec![
        (mix(50_000, 100_000), "Lab A".to_string(), 33_448_400, -112_074_000),
        (quoted, "Lab B".to_string(), -1, 49),
    ];
    let rows = simulate_tray_recipes_phoenix(recipes, 150 * SCALE, 12_500_000, 800_000, 6_845_000);
    let text = qpu_tray_shard_to_csv(&rows);
    let expected = format!(
        "{}{}{}",
        header,
        "AR-PHX-LAB-01,Lab A,Phoenix-AZ-US,33.4484,-112.0740,\"70% bagasse 25% starch 5% clay\",90.0,7.0,Phoenix-ISO14851-StrongPass,0.500,150.0,0.000,12.50\n",
        "AR-PHX-LAB-02,Lab B,Phoenix-AZ-US,-0.0000,0.0000,\"50% 'desert' clay\",90.0,10.3,Phoenix-ISO14851-StrongPass,0.000,150.0,0.133,12.50\n"
    );
    assert_eq!(text, expected);
}
