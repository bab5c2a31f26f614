use divesync::algorithm::DecoAlgorithmVariant;
use divesync::gas::{GasMix, GasType, PPN2};
use divesync::tables::{he_half_time_of, n2_half_time_of};
use divesync::tissue::{a_from_half_time, b_from_half_time, ZHL16Compartment, ZHL16Variant};
use divesync::zhl16::{build_air_tissue, build_trimix_tissue};

const ONE_ATM: u32 = 10000;
const TWO_ATM: u32 = 20000;

fn heliox_tissue(i: usize) -> (GasMix, ZHL16Compartment) {
    build_trimix_tissue(i, 7800, 2100).unwrap()
}

#[test]
fn test_tissue_nitrox_over_steps() {
    let (_, mut tissue1) = build_air_tissue(0);
    let mut tissue2 = tissue1.clone();

    tissue1.update_pressure(22000, 30 * 60);
    for _ in 0..(30 * 60) {
        tissue2.update_pressure(22000, 1)
    }

    let (t1_n2, _) = tissue1.n2_he_pp();
    let (t2_n2, _) = tissue2.n2_he_pp();
    assert_eq!(t1_n2, t2_n2);
    assert_eq!(tissue1.elapsed_time, tissue2.elapsed_time);
}

#[test]
fn test_tissue_nitrox_diffuse_rate() {
    let (mix, mut tissue1) = build_air_tissue(0);
    let mut tissue2 = tissue1.clone();

    // 30 minutes at 10 m
    tissue2.update_pressure(TWO_ATM, 30 * 60);
    let (t2_n2, _) = tissue2.n2_he_pp();
    let diff = t2_n2 - mix.pp_n2(ONE_ATM);

    // saturate at 10 m, then 30 minutes back at the surface
    tissue1.update_pressure(TWO_ATM, 10000000 * 60);
    let (pp_at_depth, _) = tissue1.n2_he_pp();
    tissue1.update_pressure(ONE_ATM, 30 * 60);
    let (t1_n2, _) = tissue1.n2_he_pp();
    let surf_diff = pp_at_depth - t1_n2;

    assert_eq!(diff, surf_diff);
}

#[test]
fn test_tissue_nitrox_diffuse_rate_over_steps() {
    let (mix, mut tissue1) = build_air_tissue(0);
    let mut tissue2 = tissue1.clone();

    for _ in 0..(30 * 60) {
        tissue2.update_pressure(TWO_ATM, 1)
    }
    let (t2_n2, _) = tissue2.n2_he_pp();
    let desc_diff = t2_n2 - mix.pp_n2(ONE_ATM);

    tissue1.update_pressure(TWO_ATM, 100000 * 60);
    let (pp_at_depth, _) = tissue1.n2_he_pp();

    for _ in 0..(30 * 60) {
        tissue1.update_pressure(ONE_ATM, 1)
    }
    let (t1_n2, _) = tissue1.n2_he_pp();
    let surf_diff = pp_at_depth - t1_n2;

    assert_eq!(surf_diff, desc_diff);
}

#[test]
fn test_tissue_nitrox_half_time() {
    for i in 0..16 {
        let (_, tissue) = build_air_tissue(i);
        assert_eq!(tissue.half_time(), n2_half_time_of(i));
    }
}

#[test]
#[allow(non_snake_case)]
fn test_tissue_nitrox_a_variant_A() {
    let excepted: [u64; 16] = [
        12599, 10000, 8618, 7562, 6667, 5933, 5282, 4701, 4187, 3798, 3497, 3223, 2971, 2737, 2523,
        2327,
    ];
    for i in 0..16 {
        let (_, tissue) = build_air_tissue(i);
        assert_eq!((excepted[i] + 5) / 10, (tissue.get_a() + 5) / 10);
    }
}

#[test]
#[allow(non_snake_case)]
fn test_tissue_nitrox_a_variant_B() {
    let (_, mut tissue1) = build_air_tissue(5);
    tissue1.set_variant(ZHL16Variant::B);
    assert_eq!(tissue1.get_a(), 5600);

    let (_, mut tissue2) = build_air_tissue(12);
    tissue2.set_variant(ZHL16Variant::B);
    assert_eq!(tissue2.get_a(), 2850);
}

#[test]
#[allow(non_snake_case)]
fn test_tissue_nitrox_a_variant_C() {
    let (_, mut tissue) = build_air_tissue(6);
    tissue.set_variant(ZHL16Variant::C);
    assert_eq!(tissue.get_a(), 4410);

    let (_, mut tissue) = build_air_tissue(10);
    tissue.set_variant(ZHL16Variant::C);
    assert_eq!(tissue.get_a(), 3295);

    let (_, mut tissue) = build_air_tissue(14);
    tissue.set_variant(ZHL16Variant::C);
    assert_eq!(tissue.get_a(), 2480);
}

#[test]
fn test_tissue_nitrox_b() {
    let (_, t) = build_air_tissue(3);
    assert_eq!(t.get_b(), 7825);
    let (_, t) = build_air_tissue(4);
    assert_eq!(t.get_b(), 8126);
    let (_, t) = build_air_tissue(9);
    assert_eq!(t.get_b(), 9222);
    let (_, t) = build_air_tissue(10);
    assert_eq!(t.get_b(), 9319);
}

#[test]
fn test_tissue_heliox_diffuse_rate() {
    let (mix, mut t1) = heliox_tissue(4);
    assert_eq!(mix.mix_type(), GasType::Heliox);
    let mut t2 = t1.clone();

    t2.update_pressure(TWO_ATM, 30 * 60);
    let (_, t2_he) = t2.n2_he_pp();
    let diff = t2_he - mix.pp_he(ONE_ATM);

    t1.update_pressure(TWO_ATM, 100000000 * 60);
    let (_, pp_at_depth) = t1.n2_he_pp();
    t1.update_pressure(ONE_ATM, 30 * 60);
    let (_, t1_he) = t1.n2_he_pp();
    let surf_diff = pp_at_depth - t1_he;

    assert_eq!(diff, surf_diff);
}

#[test]
fn test_tissue_heliox_half_time() {
    for i in 0..16 {
        let (_, tissue) = heliox_tissue(i);
        assert_eq!(tissue.half_time(), he_half_time_of(i));
    }
}

#[test]
fn test_tissue_heliox_a() {
    for i in 0..16 {
        let (_, tissue) = heliox_tissue(i);
        let minutes = he_half_time_of(i) as f64 / 10000.0;
        let expected = 2.0 / minutes.powf(1.0 / 3.0) * 10000.0;
        assert!((tissue.get_a() as f64 - expected).abs() <= 1.0);
        assert_eq!(tissue.get_a(), a_from_half_time(he_half_time_of(i)));
    }
}

#[test]
fn test_tissue_heliox_b() {
    for i in 0..16 {
        let (_, tissue) = heliox_tissue(i);
        let minutes = he_half_time_of(i) as f64 / 10000.0;
        let expected = (1.005 - 1.0 / minutes.sqrt()) * 10000.0;
        assert!((tissue.get_b() as f64 - expected).abs() <= 1.0);
        assert_eq!(tissue.get_b(), b_from_half_time(he_half_time_of(i)));
    }
}

#[test]
fn nitrox_coefficients_follow_the_formulas() {
    for i in 0..16 {
        let (_, tissue) = build_air_tissue(i);
        let minutes = n2_half_time_of(i) as f64 / 10000.0;
        let a = 2.0 / minutes.powf(1.0 / 3.0) * 10000.0;
        assert!((tissue.get_a() as f64 - a).abs() <= 1.0);
        if i != 3 && i != 4 {
            let b = (1.005 - 1.0 / minutes.sqrt()) * 10000.0;
            assert!((tissue.get_b() as f64 - b).abs() <= 1.0);
        }
    }
}

#[test]
fn variant_a_uses_formula_everywhere() {
    for i in 0..16 {
        let (_, tissue) = build_air_tissue(i);
        assert_eq!(tissue.variant, ZHL16Variant::A);
        assert_eq!(tissue.get_a(), a_from_half_time(n2_half_time_of(i)));
    }
}

#[test]
fn variant_overrides_leave_other_compartments() {
    let (_, mut t) = build_air_tissue(0);
    t.set_variant(ZHL16Variant::B);
    assert_eq!(t.get_a(), 12599);
    let (_, mut t) = build_air_tissue(15);
    t.set_variant(ZHL16Variant::C);
    assert_eq!(t.get_a(), 2327);
}

#[test]
fn trimix_blends_by_fractions() {
    let (mix, t) = build_trimix_tissue(0, 3000, 2100).unwrap();
    assert_eq!(mix.mix_type(), GasType::Trimix);
    // the weighted mean (15119 * 3000 + 40000 * 4800) / 7800 ...
    assert_eq!(t.half_time(), 30430);
    // ... and not the same sum divided by the helium fraction alone with the
    // nitrogen fraction added afterwards
    assert_ne!(t.half_time(), (15119 * 3000 + 40000 * 4800) / 3000 + 4800);
    let a_he = a_from_half_time(he_half_time_of(0));
    let a_n2 = a_from_half_time(n2_half_time_of(0));
    assert_eq!(t.get_a(), (a_he * 3000 + a_n2 * 4800) / 7800);
    let b_he = b_from_half_time(he_half_time_of(0));
    let b_n2 = b_from_half_time(n2_half_time_of(0));
    assert_eq!(t.get_b(), (b_he * 3000 + b_n2 * 4800) / 7800);
}

#[test]
fn m_value_of_air_at_rest() {
    let (_, t) = build_air_tissue(0);
    assert_eq!(t.get_b(), 5050);
    assert_eq!(t.get_a(), 12599);
    // 78 000 000 * 10 000 / 5050 + 12599 * 10 000
    assert_eq!(t.m_value(), 154455445 + 125990000);
}

fn expected_gain(start: u64, target: u64, half_time: u64, seconds: u64) -> f64 {
    let minutes = half_time as f64 / 10000.0;
    (target - start) as f64 * (1.0 - 2f64.powf(-(seconds as f64) / (minutes * 60.0)))
}

#[test]
fn exposure_follows_the_exponential() {
    for i in 0..16 {
        let (mix, mut t) = build_air_tissue(i);
        let start = mix.pp_n2(ONE_ATM);
        let target = mix.pp_n2(TWO_ATM);
        let seconds = n2_half_time_of(i) * 60 / 10000;
        t.update_pressure(TWO_ATM, seconds);
        let expected = expected_gain(start, target, n2_half_time_of(i), seconds);
        let gained = (t.pp_n2 - start) as f64;
        assert!((gained - expected).abs() / expected < 0.001);
    }
    for i in 0..16 {
        let (mix, mut t) = heliox_tissue(i);
        let start = mix.pp_he(ONE_ATM);
        let target = mix.pp_he(TWO_ATM);
        let seconds = he_half_time_of(i) * 60 / 10000;
        t.update_pressure(TWO_ATM, seconds);
        let expected = expected_gain(start, target, he_half_time_of(i), seconds);
        let gained = (t.pp_he - start) as f64;
        assert!((gained - expected).abs() / expected < 0.001);
    }
}

#[test]
fn updates_converge_without_overshoot() {
    let (mix, mut t) = build_air_tissue(7);
    let target = mix.pp_n2(30000);
    let mut last = t.pp_n2;
    for _ in 0..200 {
        t.update_pressure(30000, 600);
        assert!(t.pp_n2 >= last);
        assert!(t.pp_n2 <= target);
        last = t.pp_n2;
    }
    t.update_pressure(30000, 1000000000);
    assert_eq!(t.pp_n2, target);
    t.update_pressure(ONE_ATM, 60);
    assert!(t.pp_n2 < target);
    assert!(t.pp_n2 >= mix.pp_n2(ONE_ATM));
}

#[test]
fn uneven_splits_agree() {
    let (_, mut a) = build_air_tissue(3);
    let mut b = a.clone();
    a.update_pressure(35000, 1234);
    b.update_pressure(35000, 1000);
    b.update_pressure(35000, 234);
    assert_eq!(a, b);
}

#[test]
fn round_trip_symmetry_on_helium() {
    let (mix, mut up) = heliox_tissue(9);
    up.update_pressure(40000, 45 * 60);
    let gain = up.pp_he - mix.pp_he(ONE_ATM);
    let (_, mut down) = heliox_tissue(9);
    down.set_pp(0, mix.pp_he(40000));
    down.update_pressure(ONE_ATM, 45 * 60);
    let loss = mix.pp_he(40000) - down.pp_he;
    assert_eq!(gain, loss);
}

#[test]
fn update_records_time_and_depth() {
    let (_, mut t) = build_air_tissue(1);
    t.update_pressure(30000, 90);
    assert_eq!(t.elapsed_time, 90);
    assert_eq!(t.last_depth, 2000);
    t.update_pressure(ONE_ATM, u64::MAX);
    assert_eq!(t.elapsed_time, u64::MAX);
    assert_eq!(t.last_depth, 0);
}

#[test]
fn snapshot_copies_state() {
    let (_, t) = build_air_tissue(2);
    let s = t.snapshot(DecoAlgorithmVariant::ZHL16(ZHL16Variant::A));
    assert_eq!(s.cpt_num, 2);
    assert_eq!(s.half_time, 125000);
    assert_eq!(s.pp_n2, PPN2 as u64 * 10000);
    assert_eq!(s.pp_he, 0);
    assert_eq!(s.m_val, t.m_value());
    assert_eq!(s.o2_percent, 2100);
    assert_eq!(s.n2_percent, 7800);
    assert_eq!(s.he_percent, 0);
    assert_eq!(s.gas_type, GasType::Nitrox);
    assert_eq!(s.elapsed_time, 0);
}

#[test]
fn compartment_new_defaults_to_variant_a() {
    let mix = GasMix::new_nitrox(2100).unwrap();
    let t = ZHL16Compartment::new(4, mix, None);
    assert_eq!(t.variant, ZHL16Variant::A);
    let t = ZHL16Compartment::new(4, mix, Some(ZHL16Variant::C));
    assert_eq!(t.variant, ZHL16Variant::C);
    assert_eq!(t.gas_mix(), mix);
}
