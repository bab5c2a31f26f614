//! Decompression algorithms and their selection by name.
use crate::dsat::DSATAlgorithm;
use crate::gas::GasMix;
use crate::profile::DiveProfile;
use crate::tissue::{snapshot_of, CompartmentSnapshot, ZHL16Compartment, ZHL16Variant};
use crate::zhl16::ZHL16Algorithm;
use vstd::prelude::*;

verus! {

#[derive(Clone, Copy, Debug, PartialEq, Eq, Structural)]
pub enum DecoAlgorithmVariant {
    ZHL16(ZHL16Variant),
    Dsat,
}

impl DecoAlgorithmVariant {
    /// Name of the algorithm, such as `ZHL16-B`.
    pub fn label(&self) -> (r: &'static str)
        ensures
            r@ == algorithm_label(*self),
    {
        match self {
            DecoAlgorithmVariant::Dsat => "DSAT",
            DecoAlgorithmVariant::ZHL16(ZHL16Variant::A) => "ZHL16-A",
            DecoAlgorithmVariant::ZHL16(ZHL16Variant::B) => "ZHL16-B",
            DecoAlgorithmVariant::ZHL16(ZHL16Variant::C) => "ZHL16-C",
        }
    }

    /// The algorithm a name selects, ignoring case.
    pub fn from_name(name: &str) -> (r: Result<DecoAlgorithmVariant, DecoError>)
        ensures
            r == named_variant(lower_of(name@)),
    {
        let lower = lowercase(name);
        variant_from_lowercase(&lower)
    }
}

pub open spec fn algorithm_label(v: DecoAlgorithmVariant) -> Seq<char> {
    match v {
        DecoAlgorithmVariant::Dsat => "DSAT"@,
        DecoAlgorithmVariant::ZHL16(ZHL16Variant::A) => "ZHL16-A"@,
        DecoAlgorithmVariant::ZHL16(ZHL16Variant::B) => "ZHL16-B"@,
        DecoAlgorithmVariant::ZHL16(ZHL16Variant::C) => "ZHL16-C"@,
    }
}

/// The lower-case form of a text, as `str::to_lowercase` gives it.
pub uninterp spec fn lower_of(s: Seq<char>) -> Seq<char>;

/// Relies on `str::to_lowercase`: the lower-case form depends on the
/// characters alone.
#[verifier::external_body]
fn lowercase(s: &str) -> (r: String)
    ensures
        r@ == lower_of(s@),
{
    s.to_lowercase()
}

/// The algorithm that a lower-case name selects.
pub open spec fn named_variant(lower: Seq<char>) -> Result<DecoAlgorithmVariant, DecoError> {
    if lower == "dsat"@ {
        Ok(DecoAlgorithmVariant::Dsat)
    } else if lower == "zhl16"@ || lower == "zhl16-a"@ {
        Ok(DecoAlgorithmVariant::ZHL16(ZHL16Variant::A))
    } else if lower == "zhl16-b"@ {
        Ok(DecoAlgorithmVariant::ZHL16(ZHL16Variant::B))
    } else if lower == "zhl16-c"@ {
        Ok(DecoAlgorithmVariant::ZHL16(ZHL16Variant::C))
    } else {
        Err(DecoError::UnknownAlgorithm)
    }
}

/// The algorithm that a name already in lower case selects: `dsat`, `zhl16`,
/// `zhl16-a`, `zhl16-b` or `zhl16-c`.
pub fn variant_from_lowercase(lower: &String) -> (r: Result<DecoAlgorithmVariant, DecoError>)
    ensures
        r == named_variant(lower@),
{
    if *lower == "dsat".to_owned() {
        Ok(DecoAlgorithmVariant::Dsat)
    } else if *lower == "zhl16".to_owned() || *lower == "zhl16-a".to_owned() {
        Ok(DecoAlgorithmVariant::ZHL16(ZHL16Variant::A))
    } else if *lower == "zhl16-b".to_owned() {
        Ok(DecoAlgorithmVariant::ZHL16(ZHL16Variant::B))
    } else if *lower == "zhl16-c".to_owned() {
        Ok(DecoAlgorithmVariant::ZHL16(ZHL16Variant::C))
    } else {
        Err(DecoError::UnknownAlgorithm)
    }
}

/// A decompression algorithm.
pub enum DecoAlgorithm {
    ZHL16(ZHL16Algorithm),
    Dsat(DSATAlgorithm),
}

impl View for DecoAlgorithm {
    type V = (DecoAlgorithmVariant, Seq<ZHL16Compartment>);

    open spec fn view(&self) -> (DecoAlgorithmVariant, Seq<ZHL16Compartment>) {
        match self {
            DecoAlgorithm::ZHL16(a) => (DecoAlgorithmVariant::ZHL16(a@.1), a@.0),
            DecoAlgorithm::Dsat(_) => (DecoAlgorithmVariant::Dsat, Seq::empty()),
        }
    }
}

/// A fresh algorithm of the given kind, with no compartments yet.
pub open spec fn fresh(v: DecoAlgorithmVariant) -> (DecoAlgorithmVariant, Seq<ZHL16Compartment>) {
    (v, Seq::empty())
}

impl DecoAlgorithm {
    pub open spec fn wf(&self) -> bool {
        match self {
            DecoAlgorithm::ZHL16(a) => a.wf(),
            DecoAlgorithm::Dsat(_) => true,
        }
    }

    /// A fresh algorithm of kind `v`.
    pub fn new(v: DecoAlgorithmVariant) -> (r: Self)
        ensures
            r@ == fresh(v),
            r.wf(),
    {
        match v {
            DecoAlgorithmVariant::ZHL16(z) => DecoAlgorithm::ZHL16(ZHL16Algorithm::new(z)),
            DecoAlgorithmVariant::Dsat => DecoAlgorithm::Dsat(DSATAlgorithm::new()),
        }
    }

    pub fn variant(&self) -> (r: DecoAlgorithmVariant)
        ensures
            r == self@.0,
    {
        match self {
            DecoAlgorithm::ZHL16(a) => a.variant(),
            DecoAlgorithm::Dsat(_) => DecoAlgorithmVariant::Dsat,
        }
    }

    /// One step of `seconds` at `ata` (10^-4 atm) breathing `mix`.
    pub fn run(&mut self, mix: GasMix, ata: u32, seconds: u64)
        requires
            old(self).wf(),
        ensures
            final(self).wf(),
            final(self)@ == (old(self)@.0, ran(old(self)@.0, old(self)@.1, mix, ata, seconds)),
    {
        match self {
            DecoAlgorithm::ZHL16(a) => a.run(mix, ata, seconds),
            DecoAlgorithm::Dsat(_) => {},
        }
    }

    /// One snapshot per compartment; nothing changes.
    pub fn snapshot(&self) -> (r: Vec<CompartmentSnapshot>)
        requires
            self.wf(),
        ensures
            r@ == snapshots_of(self@.0, self@.1),
    {
        match self {
            DecoAlgorithm::ZHL16(a) => a.snapshot(),
            DecoAlgorithm::Dsat(_) => {
                let r: Vec<CompartmentSnapshot> = Vec::new();
                proof {
                    assert(r@ =~= snapshots_of(self@.0, self@.1));
                }
                r
            },
        }
    }

    /// No algorithm computes a no-decompression limit yet.
    pub fn compute_ndl(&self, dive_profile: DiveProfile) -> (r: Result<u32, DecoError>)
        ensures
            r == Err::<u32, DecoError>(DecoError::NotImplemented),
    {
        match self {
            DecoAlgorithm::ZHL16(a) => a.compute_ndl(dive_profile),
            DecoAlgorithm::Dsat(a) => a.compute_ndl(dive_profile),
        }
    }

    /// No algorithm computes a staged ascent yet.
    pub fn compute_deco_stops(&self, dive_profile: DiveProfile) -> (r: Result<Vec<DecoStop>, DecoError>)
        ensures
            r == Err::<Vec<DecoStop>, DecoError>(DecoError::NotImplemented),
    {
        match self {
            DecoAlgorithm::ZHL16(a) => a.compute_deco_stops(dive_profile),
            DecoAlgorithm::Dsat(_) => Err(DecoError::NotImplemented),
        }
    }
}

/// The algorithm that `algo` names, ignoring case: `dsat`, `zhl16` (variant
/// A), `zhl16-a`, `zhl16-b` or `zhl16-c`; an unknown name is an error.
pub fn get_algo(algo: &str) -> (r: Result<DecoAlgorithm, DecoError>)
    ensures
        match named_variant(lower_of(algo@)) {
            Ok(v) => r is Ok && r->Ok_0@ == fresh(v) && r->Ok_0.wf(),
            Err(e) => r is Err && r->Err_0 == e,
        },
{
    match DecoAlgorithmVariant::from_name(algo) {
        Ok(v) => Ok(DecoAlgorithm::new(v)),
        Err(e) => Err(e),
    }
}

/// Errors of algorithm selection and use.
#[derive(Clone, Copy, Debug, PartialEq, Eq, Structural)]
pub enum DecoError {
    /// The name names no algorithm.
    UnknownAlgorithm,
    /// The algorithm's compartments were already initialized.
    AlreadyInitialized,
    /// The algorithm does not compute this yet; no answer was computed.
    NotImplemented,
}

/// One stop of a staged ascent.
#[derive(Clone, Copy, Debug, PartialEq, Eq, Structural)]
pub struct DecoStop {
    pub depth: u32,
    pub time: u32,
}

/// The sixteen compartments of a fresh ZHL-16 run, at rest with `mix`.
pub open spec fn init_tissues(mix: GasMix, v: ZHL16Variant) -> Seq<ZHL16Compartment> {
    Seq::new(16, |i: int| ZHL16Compartment::spec_new(i as usize, mix, v))
}

/// No compartments yet, or all sixteen, each at its own index.
pub open spec fn tissues_wf(ts: Seq<ZHL16Compartment>, v: ZHL16Variant) -> bool {
    &&& (ts.len() == 0 || ts.len() == 16)
    &&& forall|i: int|
        0 <= i < ts.len() ==> (#[trigger] ts[i]).wf() && ts[i].cpt_num == i && ts[i].variant == v
}

/// One ZHL-16 step: initialize from `mix` if no compartment exists yet, then
/// give every compartment `mix` and expose it for `seconds` at `ata`.
pub open spec fn zhl16_ran(
    ts: Seq<ZHL16Compartment>,
    v: ZHL16Variant,
    mix: GasMix,
    ata: u32,
    seconds: u64,
) -> Seq<ZHL16Compartment> {
    let base = if ts.len() == 0 {
        init_tissues(mix, v)
    } else {
        ts
    };
    base.map(|i: int, c: ZHL16Compartment| (ZHL16Compartment { gas_mix: mix, ..c }).spec_updated(ata, seconds))
}

/// The compartments after one step of the algorithm `variant`.
pub open spec fn ran(
    variant: DecoAlgorithmVariant,
    ts: Seq<ZHL16Compartment>,
    mix: GasMix,
    ata: u32,
    seconds: u64,
) -> Seq<ZHL16Compartment> {
    match variant {
        DecoAlgorithmVariant::ZHL16(v) => zhl16_ran(ts, v, mix, ata, seconds),
        DecoAlgorithmVariant::Dsat => ts,
    }
}

/// One snapshot per compartment.
pub open spec fn snapshots_of(variant: DecoAlgorithmVariant, ts: Seq<ZHL16Compartment>) -> Seq<CompartmentSnapshot> {
    ts.map(|i: int, c: ZHL16Compartment| snapshot_of(c, variant))
}

} // verus!
