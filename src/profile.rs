//! Dive profiles: an ordered list of exposure levels.
use crate::gas::GasMix;
use vstd::prelude::*;

verus! {

/// `time` minutes at `depth` centimetres breathing `gas_mix`.
#[derive(Clone, Copy, Debug, PartialEq, Eq, Structural)]
pub struct DiveProfileLevel {
    pub gas_mix: GasMix,
    pub depth: u32,
    pub time: u32,
}

pub struct DiveProfile {
    pub levels: Vec<DiveProfileLevel>,
}

impl DiveProfile {
    pub fn new() -> (r: Self)
        ensures
            r.levels@ == Seq::<DiveProfileLevel>::empty(),
    {
        DiveProfile { levels: Vec::new() }
    }

    /// Appends a level of `time` minutes at `depth` centimetres.
    pub fn add_level(&mut self, depth: u32, time: u32, mix: GasMix)
        ensures
            final(self).levels@ == old(self).levels@.push(DiveProfileLevel { gas_mix: mix, depth, time }),
    {
        self.levels.push(DiveProfileLevel { gas_mix: mix, depth, time });
    }
}

} // verus!
