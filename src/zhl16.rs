//! The ZHL-16 algorithm: sixteen compartments driven together.
use crate::algorithm::{
    init_tissues, snapshots_of, tissues_wf, zhl16_ran, DecoAlgorithmVariant, DecoError, DecoStop,
};
use crate::gas::{recipe_mix, recipe_nitrogen, GasError, GasMix, PPO2};
use crate::profile::{DiveProfile, DiveProfileLevel};
use crate::runner::{depths_in_range, run_steps, RunStep};
use crate::tables::{he_half_time, n2_half_time, n2_half_time_of};
use crate::tissue::{CompartmentSnapshot, ZHL16Compartment, ZHL16Variant, COMPARTMENTS};
use crate::utils::{ata_at, calc_ata, int_root, is_int_root, lemma_int_root_is, n_root, MAX_DEPTH_CM};
use vstd::arithmetic::power::pow;
use vstd::pervasive::unreached;
use vstd::prelude::*;

verus! {

pub struct ZHL16Algorithm {
    tissues: Vec<ZHL16Compartment>,
    variant: ZHL16Variant,
}

impl View for ZHL16Algorithm {
    type V = (Seq<ZHL16Compartment>, ZHL16Variant);

    closed spec fn view(&self) -> (Seq<ZHL16Compartment>, ZHL16Variant) {
        (self.tissues@, self.variant)
    }
}

impl ZHL16Algorithm {
    pub open spec fn wf(&self) -> bool {
        tissues_wf(self@.0, self@.1)
    }

    pub fn new(variant: ZHL16Variant) -> (r: Self)
        ensures
            r@ == (Seq::<ZHL16Compartment>::empty(), variant),
            r.wf(),
    {
        ZHL16Algorithm { tissues: Vec::new(), variant }
    }

    /// A copy of the compartments.
    pub fn tissues(&self) -> (r: Vec<ZHL16Compartment>)
        ensures
            r@ == self@.0,
    {
        let mut r: Vec<ZHL16Compartment> = Vec::new();
        let mut i: usize = 0;
        while i < self.tissues.len()
            invariant
                i <= self.tissues@.len(),
                r@ == self.tissues@.subrange(0, i as int),
            decreases self.tissues@.len() - i,
        {
            r.push(self.tissues[i]);
            i = i + 1;
            proof {
                assert(r@ =~= self.tissues@.subrange(0, i as int));
            }
        }
        proof {
            assert(r@ =~= self.tissues@);
        }
        r
    }

    /// Creates the sixteen compartments at rest with `mix`; an algorithm
    /// whose compartments exist already is left as it is.
    pub fn init(&mut self, mix: GasMix) -> (r: Result<(), DecoError>)
        requires
            old(self).wf(),
        ensures
            final(self).wf(),
            old(self)@.0.len() == 0 ==> r == Ok::<(), DecoError>(()) && final(self)@ == (
                init_tissues(mix, old(self)@.1),
                old(self)@.1,
            ),
            old(self)@.0.len() > 0 ==> r == Err::<(), DecoError>(DecoError::AlreadyInitialized)
                && final(self)@ == old(self)@,
    {
        if self.tissues.len() > 0 {
            return Err(DecoError::AlreadyInitialized);
        }
        let mut tissues: Vec<ZHL16Compartment> = Vec::new();
        let mut i: usize = 0;
        while i < COMPARTMENTS
            invariant
                i <= COMPARTMENTS,
                tissues@ == init_tissues(mix, self.variant).subrange(0, i as int),
            decreases COMPARTMENTS - i,
        {
            tissues.push(ZHL16Compartment::new(i, mix, Some(self.variant)));
            i = i + 1;
            proof {
                assert(tissues@ =~= init_tissues(mix, self.variant).subrange(0, i as int));
            }
        }
        proof {
            assert(tissues@ =~= init_tissues(mix, self.variant));
        }
        self.tissues = tissues;
        Ok(())
    }

    /// One step: initializes from `mix` on the first call, then gives every
    /// compartment `mix` and exposes it for `seconds` at `ata` (10^-4 atm).
    pub fn run(&mut self, mix: GasMix, ata: u32, seconds: u64)
        requires
            old(self).wf(),
        ensures
            final(self).wf(),
            final(self)@ == (zhl16_ran(old(self)@.0, old(self)@.1, mix, ata, seconds), old(self)@.1),
    {
        if self.tissues.len() == 0 {
            let _ = self.init(mix);
        }
        let ghost base = self.tissues@;
        let n = self.tissues.len();
        let mut i: usize = 0;
        while i < n
            invariant
                n == base.len(),
                i <= n,
                tissues_wf(base, self.variant),
                self.variant == old(self).variant,
                base == (if old(self)@.0.len() == 0 {
                    init_tissues(mix, self.variant)
                } else {
                    old(self)@.0
                }),
                self.tissues@.len() == n,
                forall|j: int|
                    0 <= j < i ==> self.tissues@[j] == (#[trigger] zhl16_ran(
                        old(self)@.0,
                        self.variant,
                        mix,
                        ata,
                        seconds,
                    )[j]),
                forall|j: int| i <= j < n ==> self.tissues@[j] == #[trigger] base[j],
            decreases n - i,
        {
            let mut t = self.tissues[i];
            proof {
                assert(t == base[i as int]);
                assert(base[i as int].wf());
            }
            t.set_gas_mix(mix);
            t.update_pressure(ata, seconds);
            self.tissues.set(i, t);
            i = i + 1;
        }
        proof {
            assert(self.tissues@ =~= zhl16_ran(old(self)@.0, self.variant, mix, ata, seconds));
        }
    }

    /// One snapshot per compartment; nothing changes.
    pub fn snapshot(&self) -> (r: Vec<CompartmentSnapshot>)
        requires
            self.wf(),
        ensures
            r@ == snapshots_of(DecoAlgorithmVariant::ZHL16(self@.1), self@.0),
    {
        let variant = DecoAlgorithmVariant::ZHL16(self.variant);
        let mut r: Vec<CompartmentSnapshot> = Vec::new();
        let mut i: usize = 0;
        while i < self.tissues.len()
            invariant
                i <= self.tissues@.len(),
                tissues_wf(self.tissues@, self.variant),
                variant == DecoAlgorithmVariant::ZHL16(self.variant),
                r@ == snapshots_of(variant, self.tissues@).subrange(0, i as int),
            decreases self.tissues@.len() - i,
        {
            r.push(self.tissues[i].snapshot(variant));
            i = i + 1;
            proof {
                assert(r@ =~= snapshots_of(variant, self.tissues@).subrange(0, i as int));
            }
        }
        proof {
            assert(r@ =~= snapshots_of(variant, self.tissues@));
        }
        r
    }

    pub fn variant(&self) -> (r: DecoAlgorithmVariant)
        ensures
            r == DecoAlgorithmVariant::ZHL16(self@.1),
    {
        DecoAlgorithmVariant::ZHL16(self.variant)
    }

    /// The no-decompression limit search is not implemented.
    pub fn compute_ndl(&self, dive_profile: DiveProfile) -> (r: Result<u32, DecoError>)
        ensures
            r == Err::<u32, DecoError>(DecoError::NotImplemented),
    {
        Err(DecoError::NotImplemented)
    }

    /// The staged-ascent schedule is not implemented.
    pub fn compute_deco_stops(&self, dive_profile: DiveProfile) -> (r: Result<Vec<DecoStop>, DecoError>)
        ensures
            r == Err::<Vec<DecoStop>, DecoError>(DecoError::NotImplemented),
    {
        Err(DecoError::NotImplemented)
    }
}

/// `28.0184 * 10^20`: the molar mass of nitrogen, scaled so that the root of
/// its ratio to helium's comes out in units of 10^-8.
pub const N2_MOLAR_MASS_SCALED: u128 = 2_801_840_000_000_000_000_000;

/// `4.0026 * 10^4`: the molar mass of helium.
pub const HE_MOLAR_MASS_SCALED: u128 = 40026;

/// Graham's-law diffusion ratio `(28.0184 / 4.0026)^(1/2)` in units of 10^-8.
pub open spec fn graham_ratio() -> int {
    int_root((N2_MOLAR_MASS_SCALED as int / HE_MOLAR_MASS_SCALED as int) as nat, 2) as int
}

/// Helium half-time derived from a nitrogen half-time (both 10^-4 minutes):
/// the nitrogen one divided by Graham's ratio, rounded to the nearest unit.
pub open spec fn he_from_n2(n2: int) -> int {
    (n2 * 1_000_000_000 / graham_ratio() + 5) / 10
}

pub proof fn lemma_graham_ratio()
    ensures
        graham_ratio() == 264576075,
{
    let x: nat = 70000499675211112;
    assert(N2_MOLAR_MASS_SCALED as int / HE_MOLAR_MASS_SCALED as int == x);
    reveal(pow);
    assert(pow(264576075, 2) == 264576075 * pow(264576075, 1));
    assert(pow(264576075, 1) == 264576075 * pow(264576075, 0));
    assert(pow(264576076, 2) == 264576076 * pow(264576076, 1));
    assert(pow(264576076, 1) == 264576076 * pow(264576076, 0));
    assert(is_int_root(264576075, x as int, 2));
    lemma_int_root_is(264576075, x, 2);
}

/// The helium table is the nitrogen table scaled by Graham's law: each
/// published helium half-time is the derived one, to the table's last digit.
pub proof fn lemma_helium_table_derivation(i: int)
    requires
        0 <= i < 16,
    ensures
        he_from_n2(n2_half_time(i)) == he_half_time(i),
{
    lemma_graham_ratio();
}

/// The helium half-times derived from the nitrogen ones by Graham's law.
pub fn generate_he_half_times() -> (r: Vec<u64>)
    ensures
        r@.len() == 16,
        forall|i: int| 0 <= i < 16 ==> r@[i] == he_from_n2(n2_half_time(i)),
{
    proof {
        lemma_graham_ratio();
    }
    let coef = n_root((N2_MOLAR_MASS_SCALED / HE_MOLAR_MASS_SCALED) as u64, 2);
    let mut v: Vec<u64> = Vec::new();
    let mut i: usize = 0;
    while i < COMPARTMENTS
        invariant
            i <= COMPARTMENTS,
            coef == graham_ratio(),
            graham_ratio() == 264576075,
            v@.len() == i,
            forall|j: int| 0 <= j < i ==> v@[j] == he_from_n2(n2_half_time(j)),
        decreases COMPARTMENTS - i,
    {
        proof {
            crate::tables::lemma_tables_in_range(i as int);
        }
        v.push((n2_half_time_of(i) * 1_000_000_000 / coef + 5) / 10);
        i = i + 1;
    }
    v
}

/// Air (21% oxygen) and a compartment at rest with it at the surface.
pub fn build_air_tissue(cpt_num: usize) -> (r: (GasMix, ZHL16Compartment))
    requires
        cpt_num < COMPARTMENTS,
    ensures
        r.0 == recipe_mix(0, PPO2),
        r.1 == ZHL16Compartment::spec_new(cpt_num, r.0, ZHL16Variant::A),
{
    let mix = match GasMix::new_nitrox(PPO2) {
        Ok(m) => m,
        Err(_) => unreached(),
    };
    (mix, ZHL16Compartment::new(cpt_num, mix, None))
}

/// A nitrox mix and a compartment at rest with it at the surface.
pub fn build_nitrox_tissue(cpt_num: usize, oxygen: u32) -> (r: Result<(GasMix, ZHL16Compartment), GasError>)
    requires
        cpt_num < COMPARTMENTS,
    ensures
        recipe_nitrogen(0, oxygen as int) >= 0 ==> r == Ok::<(GasMix, ZHL16Compartment), GasError>(
            (recipe_mix(0, oxygen), ZHL16Compartment::spec_new(cpt_num, recipe_mix(0, oxygen), ZHL16Variant::A)),
        ),
        recipe_nitrogen(0, oxygen as int) < 0 ==> r == Err::<(GasMix, ZHL16Compartment), GasError>(
            GasError::NegativeNitrogen,
        ),
{
    match GasMix::new_nitrox(oxygen) {
        Ok(mix) => Ok((mix, ZHL16Compartment::new(cpt_num, mix, None))),
        Err(e) => Err(e),
    }
}

/// A trimix mix and a compartment at rest with it at the surface.
pub fn build_trimix_tissue(cpt_num: usize, helium: u32, oxygen: u32) -> (r: Result<(GasMix, ZHL16Compartment), GasError>)
    requires
        cpt_num < COMPARTMENTS,
    ensures
        recipe_nitrogen(helium as int, oxygen as int) >= 0 ==> r == Ok::<(GasMix, ZHL16Compartment), GasError>(
            (
                recipe_mix(helium, oxygen),
                ZHL16Compartment::spec_new(cpt_num, recipe_mix(helium, oxygen), ZHL16Variant::A),
            ),
        ),
        recipe_nitrogen(helium as int, oxygen as int) < 0 ==> r == Err::<(GasMix, ZHL16Compartment), GasError>(
            GasError::NegativeNitrogen,
        ),
{
    match GasMix::new_trimix(helium, oxygen) {
        Ok(mix) => Ok((mix, ZHL16Compartment::new(cpt_num, mix, None))),
        Err(e) => Err(e),
    }
}

/// Each level as one exposure of its whole time.
pub open spec fn level_exposures(levels: Seq<DiveProfileLevel>) -> Seq<RunStep> {
    levels.map(
        |i: int, l: DiveProfileLevel|
            RunStep { mix: l.gas_mix, ata: ata_at(l.depth as int) as u32, seconds: (l.time * 60) as u64 },
    )
}

/// Runs a ZHL-16 algorithm over a profile, one exposure per level.
pub struct ZHL16AlgorithmRunner {
    algo: ZHL16Algorithm,
}

impl ZHL16AlgorithmRunner {
    pub closed spec fn algo_state(&self) -> (Seq<ZHL16Compartment>, ZHL16Variant) {
        self.algo@
    }

    pub closed spec fn wf(&self) -> bool {
        self.algo.wf()
    }

    pub fn new(algo: ZHL16Algorithm) -> (r: Self)
        requires
            algo.wf(),
        ensures
            r.wf(),
            r.algo_state() == algo@,
    {
        ZHL16AlgorithmRunner { algo }
    }

    /// Exposes the compartments to each level in turn for its whole time
    /// and returns them; the first level's gas initializes them if needed.
    pub fn run(&mut self, dive_profile: DiveProfile) -> (r: Vec<ZHL16Compartment>)
        requires
            old(self).wf(),
            depths_in_range(dive_profile.levels@),
        ensures
            final(self).wf(),
            final(self).algo_state().1 == old(self).algo_state().1,
            final(self).algo_state().0 == run_steps(
                DecoAlgorithmVariant::ZHL16(old(self).algo_state().1),
                old(self).algo_state().0,
                level_exposures(dive_profile.levels@),
            ),
            r@ == final(self).algo_state().0,
    {
        let levels = &dive_profile.levels;
        let ghost v = DecoAlgorithmVariant::ZHL16(self.algo@.1);
        let ghost ts = self.algo@.0;
        let mut i: usize = 0;
        while i < levels.len()
            invariant
                depths_in_range(levels@),
                i <= levels@.len(),
                self.algo.wf(),
                v == DecoAlgorithmVariant::ZHL16(self.algo@.1),
                self.algo@.1 == old(self).algo@.1,
                self.algo@.0 == run_steps(v, ts, level_exposures(levels@.take(i as int))),
            decreases levels@.len() - i,
        {
            let level = levels[i];
            proof {
                assert(level.depth <= MAX_DEPTH_CM);
                assert(level_exposures(levels@.take(i + 1)).drop_last() =~= level_exposures(
                    levels@.take(i as int),
                ));
            }
            self.algo.run(level.gas_mix, calc_ata(level.depth), level.time as u64 * 60);
            i = i + 1;
        }
        proof {
            assert(levels@.take(levels@.len() as int) =~= levels@);
        }
        self.algo.tissues()
    }
}

} // verus!
