//! One ZHL-16 tissue compartment: its gas loading, its half-times and its
//! M-value coefficients.
use crate::algorithm::DecoAlgorithmVariant;
use crate::gas::{partial_pressure, GasMix, GasType};
use crate::kinetics::{lemma_monotonic_convergence, relax, relax_exec};
use crate::tables::{
    he_half_time, he_half_time_of, he_rate, he_rate_of, lemma_tables_in_range, n2_half_time,
    n2_half_time_of, n2_rate, n2_rate_of,
};
use crate::utils::{calc_depth, depth_at, int_root, n_root};
use vstd::arithmetic::div_mod::{lemma_div_is_ordered, lemma_div_is_ordered_by_denominator};
use vstd::arithmetic::power::{lemma_pow1, lemma_pow_increases, pow};
use vstd::prelude::*;

verus! {

/// Number of compartments of the model.
pub const COMPARTMENTS: usize = 16;

/// `2^3` times ten to the power 19: the cube of the `a` formula's scale.
pub const A_NUMERATOR: u128 = 80_000_000_000_000_000_000;

/// Ten to the power 14: the square of the `b` formula's scale.
pub const B_NUMERATOR: u64 = 100_000_000_000_000;

#[derive(Clone, Copy, Debug, PartialEq, Eq, Structural)]
pub enum ZHL16Variant {
    A,
    B,
    C,
}

impl ZHL16Variant {
    pub fn label(&self) -> (r: &'static str)
        ensures
            r@ == variant_label(*self),
    {
        match self {
            ZHL16Variant::A => "ZHL16-A",
            ZHL16Variant::B => "ZHL16-B",
            ZHL16Variant::C => "ZHL16-C",
        }
    }
}

pub open spec fn variant_label(v: ZHL16Variant) -> Seq<char> {
    match v {
        ZHL16Variant::A => "ZHL16-A"@,
        ZHL16Variant::B => "ZHL16-B"@,
        ZHL16Variant::C => "ZHL16-C"@,
    }
}

/// `a = 2 / half_time^(1/3)` in units of 10^-4, for a half-time in 10^-4
/// minutes, rounded to the nearest unit.
pub open spec fn a_of_half_time(ht: int) -> int {
    (int_root((A_NUMERATOR as int / ht) as nat, 3) as int + 5) / 10
}

/// `b = 1.005 - 1 / half_time^(1/2)` in units of 10^-4, for a half-time in
/// 10^-4 minutes, with the root rounded to the nearest unit.
pub open spec fn b_of_half_time(ht: int) -> int {
    10050 - (int_root((B_NUMERATOR as int / ht) as nat, 2) as int + 5) / 10
}

/// The published nitrogen `a` values that replace the formula in variants B and C.
pub open spec fn a_override(variant: ZHL16Variant, i: int) -> Option<int> {
    match variant {
        ZHL16Variant::A => None,
        ZHL16Variant::B => if i == 5 {
            Some(5600)
        } else if i == 6 {
            Some(4947)
        } else if i == 7 {
            Some(4500)
        } else if i == 12 {
            Some(2850)
        } else {
            None
        },
        ZHL16Variant::C => if i == 4 {
            Some(6200)
        } else if i == 5 {
            Some(5043)
        } else if i == 6 {
            Some(4410)
        } else if i == 7 {
            Some(4000)
        } else if i == 8 {
            Some(3750)
        } else if i == 9 {
            Some(3500)
        } else if i == 10 {
            Some(3295)
        } else if i == 11 {
            Some(3065)
        } else if i == 12 {
            Some(2835)
        } else if i == 13 {
            Some(2610)
        } else if i == 14 {
            Some(2480)
        } else {
            None
        },
    }
}

/// The published nitrogen `b` values that replace the formula in every variant.
pub open spec fn b_override(i: int) -> Option<int> {
    if i == 3 {
        Some(7825)
    } else if i == 4 {
        Some(8126)
    } else {
        None
    }
}

/// A trimix value: the helium and nitrogen values weighted by the helium and
/// nitrogen fractions of the mix.
pub open spec fn blend(x_he: int, x_n2: int, f_he: int, f_n2: int) -> int {
    (x_he * f_he + x_n2 * f_n2) / (f_he + f_n2)
}

pub open spec fn min_of(a: int, b: int) -> int {
    if a <= b {
        a
    } else {
        b
    }
}

pub open spec fn max_of(a: int, b: int) -> int {
    if a <= b {
        b
    } else {
        a
    }
}

/// `a + b`, held at `u64::MAX`.
pub open spec fn saturating_sum(a: int, b: int) -> int {
    if a + b > u64::MAX {
        u64::MAX as int
    } else {
        a + b
    }
}

/// Under variant A every nitrox `a` is the formula's; variants B and C
/// replace it with the published values, such as 0.5600 and 0.2850 for
/// compartments 5 and 12 under B, and 0.4410 for compartment 6 under C.
pub proof fn lemma_coefficient_overrides(c: ZHL16Compartment)
    requires
        c.wf(),
        c.gas_mix.spec_type() == GasType::Nitrox,
    ensures
        c.variant == ZHL16Variant::A ==> c.spec_a() == a_of_half_time(c.spec_n2_ht()),
        c.variant == ZHL16Variant::B && c.cpt_num == 5 ==> c.spec_a() == 5600,
        c.variant == ZHL16Variant::B && c.cpt_num == 12 ==> c.spec_a() == 2850,
        c.variant == ZHL16Variant::C && c.cpt_num == 6 ==> c.spec_a() == 4410,
{
}

/// Step-size invariance of a compartment: an exposure of `a + b` seconds
/// leaves it as an exposure of `a` seconds followed by one of `b` seconds.
pub proof fn lemma_update_splits(c: ZHL16Compartment, ata: u32, a: u64, b: u64)
    requires
        c.wf(),
        a + b <= u64::MAX,
    ensures
        c.spec_updated(ata, a).spec_updated(ata, b) == c.spec_updated(ata, (a + b) as u64),
{
    let i = c.cpt_num as int;
    let in2 = partial_pressure(c.gas_mix.nitrogen.base_pp, ata) as int;
    let ihe = partial_pressure(c.gas_mix.helium.base_pp, ata) as int;
    crate::kinetics::lemma_relax_adds(c.pp_n2 as int, in2, n2_rate(i), a as nat, b as nat);
    crate::kinetics::lemma_relax_adds(c.pp_he as int, ihe, he_rate(i), a as nat, b as nat);
    lemma_tables_in_range(i);
    lemma_monotonic_convergence(c.pp_n2 as int, in2, n2_rate(i), a as nat);
    lemma_monotonic_convergence(c.pp_he as int, ihe, he_rate(i), a as nat);
}

/// `a` coefficient for a half-time (10^-4 minutes) of at least one minute.
pub fn a_from_half_time(ht: u64) -> (r: u64)
    requires
        ht >= 10000,
    ensures
        r == a_of_half_time(ht as int),
{
    proof {
        lemma_div_is_ordered_by_denominator(A_NUMERATOR as int, 10000, ht as int);
    }
    let x = (A_NUMERATOR / ht as u128) as u64;
    let root = n_root(x, 3);
    proof {
        if root >= 1 {
            lemma_pow1(root as int);
            lemma_pow_increases(root as nat, 1, 3);
        }
    }
    (root + 5) / 10
}

/// `b` coefficient for a half-time (10^-4 minutes) of at least one minute.
pub fn b_from_half_time(ht: u64) -> (r: u64)
    requires
        ht >= 10000,
    ensures
        r == b_of_half_time(ht as int),
        1 <= r <= 10050,
{
    proof {
        lemma_div_is_ordered_by_denominator(B_NUMERATOR as int, 10000, ht as int);
    }
    let x = B_NUMERATOR / ht;
    let root = n_root(x, 2);
    proof {
        reveal(pow);
        assert(pow(root as int, 2) == root * pow(root as int, 1));
        assert(pow(root as int, 1) == root * pow(root as int, 0));
        assert(root * root <= 10_000_000_000);
        if root >= 100495 {
            assert(root * root >= 100495 * 100495) by (nonlinear_arith)
                requires
                    root >= 100495,
            ;
        }
    }
    10050 - (root + 5) / 10
}

proof fn lemma_blend_bounds(x_he: int, x_n2: int, f_he: int, f_n2: int)
    requires
        x_he >= 0,
        x_n2 >= 0,
        f_he >= 0,
        f_n2 >= 0,
        f_he + f_n2 > 0,
    ensures
        min_of(x_he, x_n2) <= blend(x_he, x_n2, f_he, f_n2) <= max_of(x_he, x_n2),
{
    let lo = min_of(x_he, x_n2);
    let hi = max_of(x_he, x_n2);
    let d = f_he + f_n2;
    let s = x_he * f_he + x_n2 * f_n2;
    assert(lo * d <= s <= hi * d) by (nonlinear_arith)
        requires
            lo <= x_he <= hi,
            lo <= x_n2 <= hi,
            f_he >= 0,
            f_n2 >= 0,
            d == f_he + f_n2,
            s == x_he * f_he + x_n2 * f_n2,
    ;
    lemma_div_is_ordered(lo * d, s, d);
    lemma_div_is_ordered(s, hi * d, d);
    vstd::arithmetic::div_mod::lemma_div_by_multiple(lo, d);
    vstd::arithmetic::div_mod::lemma_div_by_multiple(hi, d);
}

/// Helium and nitrogen values weighted by the helium and nitrogen fractions.
pub fn blend_exec(x_he: u64, x_n2: u64, f_he: u32, f_n2: u32) -> (r: u64)
    requires
        f_he + f_n2 > 0,
    ensures
        r == blend(x_he as int, x_n2 as int, f_he as int, f_n2 as int),
        min_of(x_he as int, x_n2 as int) <= r <= max_of(x_he as int, x_n2 as int),
{
    proof {
        lemma_blend_bounds(x_he as int, x_n2 as int, f_he as int, f_n2 as int);
        assert(x_he * f_he <= 0xffff_ffff_ffff_ffffu64 * 0xffff_ffffu32) by (nonlinear_arith)
            requires
                x_he <= 0xffff_ffff_ffff_ffffu64,
                f_he <= 0xffff_ffffu32,
        ;
        assert(x_n2 * f_n2 <= 0xffff_ffff_ffff_ffffu64 * 0xffff_ffffu32) by (nonlinear_arith)
            requires
                x_n2 <= 0xffff_ffff_ffff_ffffu64,
                f_n2 <= 0xffff_ffffu32,
        ;
    }
    let s = x_he as u128 * f_he as u128 + x_n2 as u128 * f_n2 as u128;
    let d = f_he as u128 + f_n2 as u128;
    (s / d) as u64
}

/// An immutable copy of one compartment's observable state.
///
/// Units as in the compartment; the gas fractions in 1/10 000.
#[derive(Clone, Copy, Debug, PartialEq, Eq, Structural)]
pub struct CompartmentSnapshot {
    pub cpt_num: usize,
    pub half_time: u64,
    pub pp_n2: u64,
    pub pp_he: u64,
    pub m_val: u128,
    pub o2_percent: u32,
    pub n2_percent: u32,
    pub he_percent: u32,
    pub gas_type: GasType,
    pub variant: DecoAlgorithmVariant,
    pub elapsed_time: u64,
    pub last_depth: u32,
}

/// What a snapshot of compartment `c` under algorithm `variant` holds.
pub open spec fn snapshot_of(c: ZHL16Compartment, variant: DecoAlgorithmVariant) -> CompartmentSnapshot {
    CompartmentSnapshot {
        cpt_num: c.cpt_num,
        half_time: c.spec_half_time() as u64,
        pp_n2: c.pp_n2,
        pp_he: c.pp_he,
        m_val: c.spec_m_value() as u128,
        o2_percent: c.gas_mix.oxygen.base_pp,
        n2_percent: c.gas_mix.nitrogen.base_pp,
        he_percent: c.gas_mix.helium.base_pp,
        gas_type: c.gas_mix.spec_type(),
        variant,
        elapsed_time: c.elapsed_time,
        last_depth: c.last_depth,
    }
}

/// One of the sixteen compartments and its inert-gas loading.
///
/// Partial pressures are in 10^-8 atm, elapsed time in seconds and the last
/// depth in centimetres.
#[derive(Clone, Copy, Debug, PartialEq, Eq, Structural)]
pub struct ZHL16Compartment {
    pub pp_n2: u64,
    pub pp_he: u64,
    pub cpt_num: usize,
    pub gas_mix: GasMix,
    pub variant: ZHL16Variant,
    pub elapsed_time: u64,
    pub last_depth: u32,
}

impl ZHL16Compartment {
    pub open spec fn wf(self) -> bool {
        self.cpt_num < COMPARTMENTS
    }

    pub open spec fn spec_n2_ht(self) -> int {
        n2_half_time(self.cpt_num as int)
    }

    pub open spec fn spec_he_ht(self) -> int {
        he_half_time(self.cpt_num as int)
    }

    pub open spec fn f_n2(self) -> int {
        self.gas_mix.nitrogen.base_pp as int
    }

    pub open spec fn f_he(self) -> int {
        self.gas_mix.helium.base_pp as int
    }

    pub open spec fn spec_half_time(self) -> int {
        match self.gas_mix.spec_type() {
            GasType::Nitrox => self.spec_n2_ht(),
            GasType::Heliox => self.spec_he_ht(),
            GasType::Trimix => blend(self.spec_he_ht(), self.spec_n2_ht(), self.f_he(), self.f_n2()),
        }
    }

    pub open spec fn spec_n2_a(self) -> int {
        match a_override(self.variant, self.cpt_num as int) {
            Some(a) => a,
            None => a_of_half_time(self.spec_n2_ht()),
        }
    }

    pub open spec fn spec_he_a(self) -> int {
        a_of_half_time(self.spec_he_ht())
    }

    pub open spec fn spec_n2_b(self) -> int {
        match b_override(self.cpt_num as int) {
            Some(b) => b,
            None => b_of_half_time(self.spec_n2_ht()),
        }
    }

    pub open spec fn spec_he_b(self) -> int {
        b_of_half_time(self.spec_he_ht())
    }

    pub open spec fn spec_a(self) -> int {
        match self.gas_mix.spec_type() {
            GasType::Nitrox => self.spec_n2_a(),
            GasType::Heliox => self.spec_he_a(),
            GasType::Trimix => blend(self.spec_he_a(), self.spec_n2_a(), self.f_he(), self.f_n2()),
        }
    }

    pub open spec fn spec_b(self) -> int {
        match self.gas_mix.spec_type() {
            GasType::Nitrox => self.spec_n2_b(),
            GasType::Heliox => self.spec_he_b(),
            GasType::Trimix => blend(self.spec_he_b(), self.spec_n2_b(), self.f_he(), self.f_n2()),
        }
    }

    /// The inert-gas loading that the M-value judges.
    pub open spec fn spec_loading(self) -> int {
        match self.gas_mix.spec_type() {
            GasType::Nitrox => self.pp_n2 as int,
            GasType::Heliox => self.pp_he as int,
            GasType::Trimix => self.pp_n2 + self.pp_he,
        }
    }

    /// `M = loading / b + a`, in 10^-8 atm.
    pub open spec fn spec_m_value(self) -> int {
        self.spec_loading() * 10000 / self.spec_b() + self.spec_a() * 10000
    }

    /// The compartment after `seconds` at ambient pressure `ata`.
    pub open spec fn spec_updated(self, ata: u32, seconds: u64) -> ZHL16Compartment {
        ZHL16Compartment {
            pp_n2: relax(
                self.pp_n2 as int,
                partial_pressure(self.gas_mix.nitrogen.base_pp, ata) as int,
                n2_rate(self.cpt_num as int),
                seconds as nat,
            ) as u64,
            pp_he: relax(
                self.pp_he as int,
                partial_pressure(self.gas_mix.helium.base_pp, ata) as int,
                he_rate(self.cpt_num as int),
                seconds as nat,
            ) as u64,
            cpt_num: self.cpt_num,
            gas_mix: self.gas_mix,
            variant: self.variant,
            elapsed_time: saturating_sum(self.elapsed_time as int, seconds as int) as u64,
            last_depth: depth_at(ata as int) as u32,
        }
    }

    /// A compartment at rest with `gas_mix` at the surface.
    pub open spec fn spec_new(cpt_num: usize, gas_mix: GasMix, variant: ZHL16Variant) -> ZHL16Compartment {
        ZHL16Compartment {
            pp_n2: partial_pressure(gas_mix.nitrogen.base_pp, 10000),
            pp_he: partial_pressure(gas_mix.helium.base_pp, 10000),
            cpt_num,
            gas_mix,
            variant,
            elapsed_time: 0,
            last_depth: 0,
        }
    }

    /// A compartment at rest with `gas_mix` at the surface; variant A unless
    /// another is given.
    pub fn new(cpt_num: usize, gas_mix: GasMix, variant: Option<ZHL16Variant>) -> (r: Self)
        requires
            cpt_num < COMPARTMENTS,
        ensures
            r == Self::spec_new(
                cpt_num,
                gas_mix,
                match variant {
                    Some(v) => v,
                    None => ZHL16Variant::A,
                },
            ),
            r.wf(),
    {
        let variant = match variant {
            Some(v) => v,
            None => ZHL16Variant::A,
        };
        ZHL16Compartment {
            pp_n2: gas_mix.pp_n2(10000),
            pp_he: gas_mix.pp_he(10000),
            cpt_num,
            gas_mix,
            variant,
            elapsed_time: 0,
            last_depth: 0,
        }
    }

    /// Exposure of `seconds` at ambient pressure `ata` (10^-4 atm), breathing
    /// the compartment's gas mix: nitrogen and helium each move towards their
    /// inspired partial pressure, and the elapsed time grows by `seconds`.
    pub fn update_pressure(&mut self, ata: u32, seconds: u64)
        requires
            old(self).wf(),
        ensures
            *final(self) == old(self).spec_updated(ata, seconds),
    {
        let i = self.cpt_num;
        proof {
            lemma_tables_in_range(i as int);
        }
        let insp_n2 = self.gas_mix.pp_n2(ata);
        let insp_he = self.gas_mix.pp_he(ata);
        self.pp_n2 = relax_exec(self.pp_n2, insp_n2, n2_rate_of(i), seconds);
        self.pp_he = relax_exec(self.pp_he, insp_he, he_rate_of(i), seconds);
        self.elapsed_time = if seconds > u64::MAX - self.elapsed_time {
            u64::MAX
        } else {
            self.elapsed_time + seconds
        };
        self.last_depth = calc_depth(ata);
    }

    fn n2_ht(&self) -> (r: u64)
        requires
            self.wf(),
        ensures
            r == self.spec_n2_ht(),
            15119 <= r <= 6350000,
    {
        proof {
            lemma_tables_in_range(self.cpt_num as int);
        }
        n2_half_time_of(self.cpt_num)
    }

    fn he_ht(&self) -> (r: u64)
        requires
            self.wf(),
        ensures
            r == self.spec_he_ht(),
            15119 <= r <= 6350000,
    {
        proof {
            lemma_tables_in_range(self.cpt_num as int);
        }
        he_half_time_of(self.cpt_num)
    }

    /// Half-time (10^-4 minutes) of the compartment for its current gas: the
    /// nitrogen one for nitrox, the helium one for heliox, and for trimix the
    /// two weighted by the helium and nitrogen fractions of the mix.
    pub fn half_time(&self) -> (r: u64)
        requires
            self.wf(),
        ensures
            r == self.spec_half_time(),
    {
        match self.gas_mix.mix_type() {
            GasType::Nitrox => self.n2_ht(),
            GasType::Heliox => self.he_ht(),
            GasType::Trimix => blend_exec(
                self.he_ht(),
                self.n2_ht(),
                self.gas_mix.helium.base_pp,
                self.gas_mix.nitrogen.base_pp,
            ),
        }
    }

    fn n2_a(&self) -> (r: u64)
        requires
            self.wf(),
        ensures
            r == self.spec_n2_a(),
    {
        let i = self.cpt_num;
        match self.variant {
            ZHL16Variant::A => {},
            ZHL16Variant::B => {
                if i == 5 {
                    return 5600;
                }
                if i == 6 {
                    return 4947;
                }
                if i == 7 {
                    return 4500;
                }
                if i == 12 {
                    return 2850;
                }
            },
            ZHL16Variant::C => {
                if i == 4 {
                    return 6200;
                }
                if i == 5 {
                    return 5043;
                }
                if i == 6 {
                    return 4410;
                }
                if i == 7 {
                    return 4000;
                }
                if i == 8 {
                    return 3750;
                }
                if i == 9 {
                    return 3500;
                }
                if i == 10 {
                    return 3295;
                }
                if i == 11 {
                    return 3065;
                }
                if i == 12 {
                    return 2835;
                }
                if i == 13 {
                    return 2610;
                }
                if i == 14 {
                    return 2480;
                }
            },
        }
        a_from_half_time(self.n2_ht())
    }

    fn n2_b(&self) -> (r: u64)
        requires
            self.wf(),
        ensures
            r == self.spec_n2_b(),
            1 <= r <= 10050,
    {
        if self.cpt_num == 3 {
            return 7825;
        }
        if self.cpt_num == 4 {
            return 8126;
        }
        b_from_half_time(self.n2_ht())
    }

    fn he_a(&self) -> (r: u64)
        requires
            self.wf(),
        ensures
            r == self.spec_he_a(),
    {
        a_from_half_time(self.he_ht())
    }

    fn he_b(&self) -> (r: u64)
        requires
            self.wf(),
        ensures
            r == self.spec_he_b(),
            1 <= r <= 10050,
    {
        b_from_half_time(self.he_ht())
    }

    /// The `a` coefficient (10^-4) for the current gas; trimix weighs the
    /// helium and nitrogen values by the mix's fractions.
    pub fn get_a(&self) -> (r: u64)
        requires
            self.wf(),
        ensures
            r == self.spec_a(),
    {
        match self.gas_mix.mix_type() {
            GasType::Nitrox => self.n2_a(),
            GasType::Heliox => self.he_a(),
            GasType::Trimix => blend_exec(
                self.he_a(),
                self.n2_a(),
                self.gas_mix.helium.base_pp,
                self.gas_mix.nitrogen.base_pp,
            ),
        }
    }

    /// The `b` coefficient (10^-4) for the current gas; trimix weighs the
    /// helium and nitrogen values by the mix's fractions.
    pub fn get_b(&self) -> (r: u64)
        requires
            self.wf(),
        ensures
            r == self.spec_b(),
            1 <= r <= 10050,
    {
        match self.gas_mix.mix_type() {
            GasType::Nitrox => self.n2_b(),
            GasType::Heliox => self.he_b(),
            GasType::Trimix => blend_exec(
                self.he_b(),
                self.n2_b(),
                self.gas_mix.helium.base_pp,
                self.gas_mix.nitrogen.base_pp,
            ),
        }
    }

    /// M-value `loading / b + a` (10^-8 atm) of the current loading.
    pub fn m_value(&self) -> (r: u128)
        requires
            self.wf(),
        ensures
            r == self.spec_m_value(),
    {
        let loading: u128 = match self.gas_mix.mix_type() {
            GasType::Nitrox => self.pp_n2 as u128,
            GasType::Heliox => self.pp_he as u128,
            GasType::Trimix => self.pp_n2 as u128 + self.pp_he as u128,
        };
        let a = self.get_a();
        let b = self.get_b();
        proof {
            lemma_div_is_ordered_by_denominator(loading * 10000, 1, b as int);
            assert(loading * 10000 <= 0x2_0000_0000_0000_0000u128 * 10000);
        }
        loading * 10000 / b as u128 + a as u128 * 10000
    }

    /// A snapshot of the compartment under algorithm `variant`.
    pub fn snapshot(&self, variant: DecoAlgorithmVariant) -> (r: CompartmentSnapshot)
        requires
            self.wf(),
        ensures
            r == snapshot_of(*self, variant),
    {
        CompartmentSnapshot {
            cpt_num: self.cpt_num,
            half_time: self.half_time(),
            pp_n2: self.pp_n2,
            pp_he: self.pp_he,
            m_val: self.m_value(),
            o2_percent: self.gas_mix.oxygen.base_pp,
            n2_percent: self.gas_mix.nitrogen.base_pp,
            he_percent: self.gas_mix.helium.base_pp,
            gas_type: self.gas_mix.mix_type(),
            variant,
            elapsed_time: self.elapsed_time,
            last_depth: self.last_depth,
        }
    }

    /// Nitrogen and helium partial pressures (10^-8 atm).
    pub fn n2_he_pp(&self) -> (r: (u64, u64))
        ensures
            r == (self.pp_n2, self.pp_he),
    {
        (self.pp_n2, self.pp_he)
    }

    pub fn gas_mix(&self) -> (r: GasMix)
        ensures
            r == self.gas_mix,
    {
        self.gas_mix
    }

    pub fn set_variant(&mut self, variant: ZHL16Variant)
        ensures
            *final(self) == (ZHL16Compartment { variant, ..*old(self) }),
    {
        self.variant = variant;
    }

    pub fn set_pp(&mut self, nitrogen: u64, helium: u64)
        ensures
            *final(self) == (ZHL16Compartment { pp_n2: nitrogen, pp_he: helium, ..*old(self) }),
    {
        self.pp_n2 = nitrogen;
        self.pp_he = helium;
    }

    pub fn set_gas_mix(&mut self, mix: GasMix)
        ensures
            *final(self) == (ZHL16Compartment { gas_mix: mix, ..*old(self) }),
    {
        self.gas_mix = mix;
    }
}

} // verus!
