use divesync::algorithm::{get_algo, variant_from_lowercase, DecoAlgorithm, DecoAlgorithmVariant, DecoError};
use divesync::dsat::DSATAlgorithm;
use divesync::gas::{GasMix, PPO2};
use divesync::profile::DiveProfile;
use divesync::runner::AlgorithmRunner;
use divesync::tables::he_half_time_of;
use divesync::tissue::ZHL16Variant;
use divesync::zhl16::{generate_he_half_times, ZHL16Algorithm, ZHL16AlgorithmRunner};
use divesync::zhl16::{build_air_tissue, build_nitrox_tissue, build_trimix_tissue};
use divesync::gas::PPN2;

fn zhl16_a() -> DecoAlgorithm {
    DecoAlgorithm::ZHL16(ZHL16Algorithm::new(ZHL16Variant::A))
}

#[test]
fn test_algorithm_runner_steps() {
    let mut runner = AlgorithmRunner::new(zhl16_a());
    let mut profile = DiveProfile::new();
    let mix = GasMix::new_nitrox(PPO2).unwrap();
    profile.add_level(2000, 20, mix);

    runner.run(3, profile);
    let res = runner.result();
    assert!(res.is_some());
    let result = res.unwrap();
    assert_eq!(result.snapshots.len(), 7);
}

#[test]
fn test_algorithm_runner_elapsed_time() {
    let mut runner = AlgorithmRunner::new(zhl16_a());
    let mut profile = DiveProfile::new();
    let mix = GasMix::new_nitrox(PPO2).unwrap();
    profile.add_level(2000, 38, mix);

    runner.run(7, profile);
    let res = runner.result();
    assert!(res.is_some());
    let result = res.unwrap();
    assert_eq!(result.snapshots[0][0].elapsed_time, 7 * 60);
    assert_eq!(result.snapshots.last().unwrap()[0].elapsed_time, 38 * 60);
}

#[test]
fn runner_exact_multiple_has_no_remainder_step() {
    let mut runner = AlgorithmRunner::new(zhl16_a());
    let mut profile = DiveProfile::new();
    let mix = GasMix::new_nitrox(PPO2).unwrap();
    profile.add_level(3000, 21, mix);
    profile.add_level(1500, 5, mix);
    profile.add_level(500, 0, mix);
    let result = runner.run(7, profile);
    assert_eq!(result.interval_period, 7);
    assert_eq!(result.snapshots.len(), 3 + 1);
    for set in &result.snapshots {
        assert_eq!(set.len(), 16);
    }
    assert_eq!(result.snapshots[2][5].elapsed_time, 21 * 60);
    assert_eq!(result.snapshots[2][5].last_depth, 3000);
    assert_eq!(result.snapshots[3][5].elapsed_time, 26 * 60);
    assert_eq!(result.snapshots[3][5].last_depth, 1500);
}

#[test]
fn runner_result_matches_direct_updates() {
    let mut runner = AlgorithmRunner::new(zhl16_a());
    assert!(runner.result().is_none());
    let mut profile = DiveProfile::new();
    let mix = GasMix::new_nitrox(3200).unwrap();
    profile.add_level(3000, 10, mix);
    let result = runner.run(4, profile);

    let (_, mut t) = build_nitrox_tissue(6, 3200).unwrap();
    t.update_pressure(40000, 4 * 60);
    t.update_pressure(40000, 4 * 60);
    t.update_pressure(40000, 2 * 60);
    let last = &result.snapshots[2][6];
    assert_eq!(last.pp_n2, t.pp_n2);
    assert_eq!(last.half_time, t.half_time());
    assert_eq!(last.m_val, t.m_value());
    assert_eq!(last.variant, DecoAlgorithmVariant::ZHL16(ZHL16Variant::A));
}

#[test]
fn runner_keeps_state_between_runs() {
    let mut runner = AlgorithmRunner::new(zhl16_a());
    let mix = GasMix::new_nitrox(PPO2).unwrap();
    let mut first = DiveProfile::new();
    first.add_level(2000, 10, mix);
    runner.run(5, first);
    let mut second = DiveProfile::new();
    second.add_level(2000, 10, mix);
    let result = runner.run(10, second);
    assert_eq!(result.snapshots.len(), 1);
    assert_eq!(result.snapshots[0][0].elapsed_time, 20 * 60);
    assert_eq!(runner.result().unwrap().interval_period, 10);
}

#[test]
fn dsat_runs_produce_empty_snapshots() {
    let mut runner = AlgorithmRunner::new(DecoAlgorithm::Dsat(DSATAlgorithm::new()));
    let mut profile = DiveProfile::new();
    profile.add_level(2000, 10, GasMix::new_nitrox(PPO2).unwrap());
    let result = runner.run(3, profile);
    assert_eq!(result.snapshots.len(), 4);
    assert!(result.snapshots.iter().all(|s| s.is_empty()));
}

#[test]
fn algorithm_lookup_ignores_case() {
    assert_eq!(get_algo("ZHL16-B").unwrap().variant(), DecoAlgorithmVariant::ZHL16(ZHL16Variant::B));
    assert_eq!(get_algo("zhl16").unwrap().variant(), DecoAlgorithmVariant::ZHL16(ZHL16Variant::A));
    assert_eq!(get_algo("Zhl16-a").unwrap().variant(), DecoAlgorithmVariant::ZHL16(ZHL16Variant::A));
    assert_eq!(get_algo("ZHL16-C").unwrap().variant(), DecoAlgorithmVariant::ZHL16(ZHL16Variant::C));
    assert_eq!(get_algo("DSAT").unwrap().variant(), DecoAlgorithmVariant::Dsat);
    assert!(matches!(get_algo("vpm-b"), Err(DecoError::UnknownAlgorithm)));
    assert!(matches!(get_algo(""), Err(DecoError::UnknownAlgorithm)));
    assert_eq!(DecoAlgorithmVariant::from_name("ZhL16-b"), Ok(DecoAlgorithmVariant::ZHL16(ZHL16Variant::B)));
}

#[test]
fn lowercase_names_select_variants() {
    assert_eq!(variant_from_lowercase(&"dsat".to_string()), Ok(DecoAlgorithmVariant::Dsat));
    assert_eq!(variant_from_lowercase(&"zhl16-c".to_string()), Ok(DecoAlgorithmVariant::ZHL16(ZHL16Variant::C)));
    assert_eq!(variant_from_lowercase(&"ZHL16-C".to_string()), Err(DecoError::UnknownAlgorithm));
}

#[test]
fn variant_labels() {
    assert_eq!(DecoAlgorithmVariant::Dsat.label(), "DSAT");
    assert_eq!(DecoAlgorithmVariant::ZHL16(ZHL16Variant::B).label(), "ZHL16-B");
    assert_eq!(ZHL16Variant::C.label(), "ZHL16-C");
}

#[test]
fn second_initialization_is_refused() {
    let mut algo = ZHL16Algorithm::new(ZHL16Variant::B);
    let mix = GasMix::new_nitrox(PPO2).unwrap();
    assert_eq!(algo.init(mix), Ok(()));
    assert_eq!(algo.tissues().len(), 16);
    algo.run(mix, 20000, 60);
    let before = algo.tissues();
    assert_eq!(algo.init(mix), Err(DecoError::AlreadyInitialized));
    assert_eq!(algo.tissues(), before);
}

#[test]
fn unimplemented_paths_say_so() {
    let algo = zhl16_a();
    assert_eq!(algo.compute_ndl(DiveProfile::new()), Err(DecoError::NotImplemented));
    assert_eq!(algo.compute_deco_stops(DiveProfile::new()), Err(DecoError::NotImplemented));
    let dsat = DecoAlgorithm::Dsat(DSATAlgorithm::default());
    assert_eq!(dsat.compute_ndl(DiveProfile::new()), Err(DecoError::NotImplemented));
    assert_eq!(dsat.compute_deco_stops(DiveProfile::new()), Err(DecoError::NotImplemented));
}

#[test]
fn zhl16_runner_applies_whole_levels() {
    let mut runner = ZHL16AlgorithmRunner::new(ZHL16Algorithm::new(ZHL16Variant::A));
    let mix = GasMix::new_trimix(2000, 1800).unwrap();
    let mut profile = DiveProfile::new();
    profile.add_level(4000, 12, mix);
    profile.add_level(2000, 3, mix);
    let tissues = runner.run(profile);
    assert_eq!(tissues.len(), 16);
    let (_, mut t) = build_trimix_tissue(11, 2000, 1800).unwrap();
    t.update_pressure(50000, 12 * 60);
    t.update_pressure(30000, 3 * 60);
    assert_eq!(tissues[11], t);
}

#[test]
fn test_build_he_half_times() {
    let he_ht = generate_he_half_times();
    let table: Vec<u64> = (0..16).map(he_half_time_of).collect();
    assert_eq!(table, he_ht);
}

#[test]
fn test_build_air_tissue() {
    let (_, t) = build_air_tissue(0);
    let (n2, _) = t.n2_he_pp();
    assert_eq!(n2, PPN2 as u64 * 10000);
}

#[test]
fn test_build_nitrox_tissue() {
    let (_, t) = build_nitrox_tissue(0, 3200).unwrap();
    let exp = (PPN2 - (3200 - PPO2)) as u64 * 10000;
    let (n2, _) = t.n2_he_pp();
    assert_eq!(n2, exp);
}

#[test]
fn test_build_trimix_tissue() {
    let helium = 1000;
    let oxygen = 3000;
    let (_, t) = build_trimix_tissue(0, helium, oxygen).unwrap();
    let exp = ((PPN2 - (helium + (oxygen - PPO2))) + helium) as u64 * 10000;
    let (n2, he) = t.n2_he_pp();
    assert_eq!(n2 + he, exp);
}
