use divesync::gas::{Gas, GasError, GasMix, GasSymbol, GasType, PPN2, PPO2};

const ONE_ATM: u32 = 10000;

#[test]
fn test_gas_pp() {
    let gas = Gas::new(PPN2, GasSymbol::Nitrogen);
    let pp = gas.get_pp(2 * ONE_ATM);
    assert_eq!(PPN2 as u64 * 2 * ONE_ATM as u64, pp);
}

#[test]
fn test_gas_is_none() {
    let gas = Gas::new(0, GasSymbol::Helium);
    assert!(gas.is_none());
}

#[test]
fn test_gas_is_some() {
    let gas = Gas::new(PPN2, GasSymbol::Nitrogen);
    assert!(gas.is_some());
}

#[test]
fn test_mix_new_nitrox() {
    let mix = GasMix::new_nitrox(2100).unwrap();
    assert_eq!(PPO2 as u64 * ONE_ATM as u64, mix.pp_o2(ONE_ATM));
    assert_eq!(PPN2 as u64 * ONE_ATM as u64, mix.pp_n2(ONE_ATM));
}

#[test]
fn test_mix_new_trimix() {
    let mix = GasMix::new_trimix(3000, 1600).unwrap();
    assert_eq!(1600 * 10000, mix.pp_o2(ONE_ATM));
    assert_eq!(4800 * 10000, mix.pp_n2(ONE_ATM));
    assert_eq!(3000 * 10000, mix.pp_he(ONE_ATM));
}

#[test]
fn test_mix_new_trimix_2() {
    let mix = GasMix::new_trimix(5000, 1200).unwrap();
    assert_eq!(1200 * 10000, mix.pp_o2(ONE_ATM));
    assert_eq!(2800 * 10000, mix.pp_n2(ONE_ATM));
    assert_eq!(5000 * 10000, mix.pp_he(ONE_ATM));
}

#[test]
fn test_mix_new_trimix_3() {
    let mix = GasMix::new_trimix(1000, 3000).unwrap();
    assert_eq!(3000 * 10000, mix.pp_o2(ONE_ATM));
    assert_eq!(5900 * 10000, mix.pp_n2(ONE_ATM));
    assert_eq!(1000 * 10000, mix.pp_he(ONE_ATM));
}

#[test]
fn test_mix_type() {
    let mix = GasMix::new_nitrox(2100).unwrap();
    assert_eq!(mix.mix_type(), GasType::Nitrox);

    let mix = GasMix::new_trimix(3000, 2100).unwrap();
    assert_eq!(mix.mix_type(), GasType::Trimix);

    let mix = GasMix::new_trimix(7800, 2100).unwrap();
    assert_eq!(mix.mix_type(), GasType::Heliox);
}

#[test]
fn nitrox_above_air_displaces_nitrogen() {
    let mix = GasMix::new_nitrox(3200).unwrap();
    assert_eq!(mix.nitrogen.base_pp, 6700);
    assert_eq!(mix.helium.base_pp, 0);
    assert_eq!(mix.oxygen.base_pp, 3200);
}

#[test]
fn nitrox_below_air_keeps_background_nitrogen() {
    let mix = GasMix::new_nitrox(1000).unwrap();
    assert_eq!(mix.nitrogen.base_pp, PPN2);
}

#[test]
fn recipe_without_nitrogen_left_is_accepted() {
    let mix = GasMix::new_nitrox(9900).unwrap();
    assert_eq!(mix.nitrogen.base_pp, 0);
    assert_eq!(mix.mix_type(), GasType::Nitrox);
}

#[test]
fn recipe_with_negative_nitrogen_is_refused() {
    assert_eq!(GasMix::new_nitrox(9901), Err(GasError::NegativeNitrogen));
    assert_eq!(GasMix::new_nitrox(10000), Err(GasError::NegativeNitrogen));
    assert_eq!(GasMix::new_trimix(7801, 2100), Err(GasError::NegativeNitrogen));
    assert_eq!(GasMix::new_trimix(5000, 5000), Err(GasError::NegativeNitrogen));
}

#[test]
fn mix_built_from_parts() {
    let mix = GasMix::new(
        Gas::new(2100, GasSymbol::Oxygen),
        Gas::new(0, GasSymbol::Nitrogen),
        Gas::new(0, GasSymbol::Helium),
    );
    assert_eq!(mix.mix_type(), GasType::Nitrox);
    assert_eq!(mix.pp_o2(20000), 2100 * 20000);
}

#[test]
fn labels() {
    assert_eq!(GasSymbol::Oxygen.label(), "O2");
    assert_eq!(GasSymbol::Helium.label(), "He");
    assert_eq!(GasSymbol::Nitrogen.label(), "N2");
    assert_eq!(GasType::Trimix.label(), "Trimix");
    assert_eq!(GasType::Heliox.label(), "Heliox");
    assert_eq!(GasType::Nitrox.label(), "Nitrox");
}
