use vstd::prelude::*;

verus! {

/// Fraction of nitrogen in the background breathing gas (0.78).
pub const PPN2: u32 = 7800;

/// Fraction of oxygen in air (0.21).
pub const PPO2: u32 = 2100;

/// The unit of a gas fraction: a fraction of 1 is `FRACTION_ONE`.
pub const FRACTION_ONE: u32 = 10000;

#[derive(Clone, Copy, Debug, PartialEq, Eq, Hash, Structural)]
pub enum GasSymbol {
    Oxygen,
    Helium,
    Nitrogen,
}

impl GasSymbol {
    /// The chemical symbol of the gas.
    pub fn label(&self) -> (r: &'static str)
        ensures
            r@ == symbol_label(*self),
    {
        match self {
            GasSymbol::Oxygen => "O2",
            GasSymbol::Helium => "He",
            GasSymbol::Nitrogen => "N2",
        }
    }
}

pub open spec fn symbol_label(s: GasSymbol) -> Seq<char> {
    match s {
        GasSymbol::Oxygen => "O2"@,
        GasSymbol::Helium => "He"@,
        GasSymbol::Nitrogen => "N2"@,
    }
}

/// One gas of a mix: its fraction at one atmosphere, in units of 1/10 000.
#[derive(Clone, Copy, Debug, PartialEq, Eq, Structural)]
pub struct Gas {
    pub base_pp: u32,
    pub symbol: GasSymbol,
}

impl Gas {
    pub fn new(base_pp: u32, symbol: GasSymbol) -> (r: Self)
        ensures
            r.base_pp == base_pp,
            r.symbol == symbol,
    {
        Gas { base_pp, symbol }
    }

    /// Partial pressure (10^-8 atm) at an ambient pressure given in 10^-4 atm.
    pub fn get_pp(&self, ata: u32) -> (r: u64)
        ensures
            r == partial_pressure(self.base_pp, ata),
    {
        proof {
            lemma_partial_pressure_fits(self.base_pp, ata);
        }
        ata as u64 * self.base_pp as u64
    }

    pub fn is_some(&self) -> (r: bool)
        ensures
            r == (self.base_pp > 0),
    {
        self.base_pp > 0
    }

    pub fn is_none(&self) -> (r: bool)
        ensures
            r == (self.base_pp == 0),
    {
        self.base_pp == 0
    }
}

/// Partial pressure of a gas of fraction `fraction` at ambient pressure `ata`.
pub open spec fn partial_pressure(fraction: u32, ata: u32) -> u64 {
    (ata * fraction) as u64
}

pub proof fn lemma_partial_pressure_fits(fraction: u32, ata: u32)
    ensures
        0 <= ata * fraction <= u64::MAX,
        partial_pressure(fraction, ata) == ata * fraction,
{
    assert(0 <= ata * fraction <= 0xffff_ffffu64 * 0xffff_ffffu64) by (nonlinear_arith)
        requires
            ata <= 0xffff_ffffu64,
            fraction <= 0xffff_ffffu64,
    ;
}

#[derive(Clone, Copy, Debug, PartialEq, Eq, Structural)]
pub enum GasType {
    Nitrox,
    Heliox,
    Trimix,
}

impl GasType {
    pub fn label(&self) -> (r: &'static str)
        ensures
            r@ == gas_type_label(*self),
    {
        match self {
            GasType::Nitrox => "Nitrox",
            GasType::Heliox => "Heliox",
            GasType::Trimix => "Trimix",
        }
    }
}

pub open spec fn gas_type_label(t: GasType) -> Seq<char> {
    match t {
        GasType::Nitrox => "Nitrox"@,
        GasType::Heliox => "Heliox"@,
        GasType::Trimix => "Trimix"@,
    }
}

/// Why a breathing-gas recipe was refused.
#[derive(Clone, Copy, Debug, PartialEq, Eq, Structural)]
pub enum GasError {
    /// The oxygen and helium of the recipe displace more than the whole
    /// background nitrogen, which would leave a negative nitrogen fraction.
    NegativeNitrogen,
}

/// A breathing gas: oxygen, nitrogen and helium fractions.
#[derive(Clone, Copy, Debug, PartialEq, Eq, Structural)]
pub struct GasMix {
    pub oxygen: Gas,
    pub nitrogen: Gas,
    pub helium: Gas,
}

/// Nitrogen left by a recipe: the background nitrogen less the helium and
/// the oxygen above that of air.
pub open spec fn recipe_nitrogen(helium: int, oxygen: int) -> int {
    if oxygen <= PPO2 {
        PPN2 - helium
    } else {
        PPN2 - (helium + (oxygen - PPO2))
    }
}

/// The mix that a recipe of `helium` and `oxygen` fractions describes.
pub open spec fn recipe_mix(helium: u32, oxygen: u32) -> GasMix {
    GasMix {
        oxygen: Gas { base_pp: oxygen, symbol: GasSymbol::Oxygen },
        nitrogen: Gas {
            base_pp: recipe_nitrogen(helium as int, oxygen as int) as u32,
            symbol: GasSymbol::Nitrogen,
        },
        helium: Gas { base_pp: helium, symbol: GasSymbol::Helium },
    }
}

/// Classification by which inert gases are present.
pub open spec fn classify(nitrogen: u32, helium: u32) -> GasType {
    if helium > 0 && nitrogen == 0 {
        GasType::Heliox
    } else if helium > 0 && nitrogen > 0 {
        GasType::Trimix
    } else {
        GasType::Nitrox
    }
}

impl GasMix {
    pub open spec fn spec_type(self) -> GasType {
        classify(self.nitrogen.base_pp, self.helium.base_pp)
    }

    pub fn new(oxygen: Gas, nitrogen: Gas, helium: Gas) -> (r: Self)
        ensures
            r == (GasMix { oxygen, nitrogen, helium }),
    {
        GasMix { oxygen, nitrogen, helium }
    }

    /// Nitrox: oxygen in place of part of the background nitrogen.
    pub fn new_nitrox(oxygen: u32) -> (r: Result<Self, GasError>)
        ensures
            recipe_nitrogen(0, oxygen as int) >= 0 ==> r == Ok::<GasMix, GasError>(recipe_mix(0, oxygen)),
            recipe_nitrogen(0, oxygen as int) < 0 ==> r == Err::<GasMix, GasError>(GasError::NegativeNitrogen),
    {
        GasMix::new_trimix(0, oxygen)
    }

    /// Trimix: helium and oxygen in place of part of the background nitrogen.
    pub fn new_trimix(helium: u32, oxygen: u32) -> (r: Result<Self, GasError>)
        ensures
            recipe_nitrogen(helium as int, oxygen as int) >= 0 ==> r == Ok::<GasMix, GasError>(recipe_mix(helium, oxygen)),
            recipe_nitrogen(helium as int, oxygen as int) < 0 ==> r == Err::<GasMix, GasError>(GasError::NegativeNitrogen),
    {
        let displaced: u64 = if oxygen <= PPO2 {
            helium as u64
        } else {
            helium as u64 + (oxygen - PPO2) as u64
        };
        if displaced > PPN2 as u64 {
            return Err(GasError::NegativeNitrogen);
        }
        let pp_n2 = (PPN2 as u64 - displaced) as u32;
        Ok(GasMix {
            oxygen: Gas::new(oxygen, GasSymbol::Oxygen),
            nitrogen: Gas::new(pp_n2, GasSymbol::Nitrogen),
            helium: Gas::new(helium, GasSymbol::Helium),
        })
    }

    pub fn pp_o2(&self, ata: u32) -> (r: u64)
        ensures
            r == partial_pressure(self.oxygen.base_pp, ata),
    {
        self.oxygen.get_pp(ata)
    }

    pub fn pp_n2(&self, ata: u32) -> (r: u64)
        ensures
            r == partial_pressure(self.nitrogen.base_pp, ata),
    {
        self.nitrogen.get_pp(ata)
    }

    pub fn pp_he(&self, ata: u32) -> (r: u64)
        ensures
            r == partial_pressure(self.helium.base_pp, ata),
    {
        self.helium.get_pp(ata)
    }

    /// Nitrox, Heliox or Trimix, by which of nitrogen and helium are present.
    pub fn mix_type(&self) -> (r: GasType)
        ensures
            r == self.spec_type(),
    {
        if self.helium.is_some() && self.nitrogen.is_none() {
            GasType::Heliox
        } else if self.helium.is_some() && self.nitrogen.is_some() {
            GasType::Trimix
        } else {
            GasType::Nitrox
        }
    }
}

} // verus!
