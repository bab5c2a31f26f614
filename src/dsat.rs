//! The DSAT algorithm: a placeholder that computes nothing yet.
use crate::algorithm::DecoError;
use crate::profile::DiveProfile;
use vstd::prelude::*;

verus! {

pub struct DSATAlgorithm {}

/// Parameters of the DSAT model: half-times in 10^-4 minutes and the
/// pressure constant in 10^-4 atm.
pub struct DSATParams {
    pub compartment_half_times: Vec<u64>,
    pub pressure_constant: u64,
}

impl DSATAlgorithm {
    pub fn new() -> (r: Self)
        ensures
            r == (DSATAlgorithm {}),
    {
        DSATAlgorithm {}
    }

    /// The no-decompression limit search is not implemented.
    pub fn compute_ndl(&self, dive_profile: DiveProfile) -> (r: Result<u32, DecoError>)
        ensures
            r == Err::<u32, DecoError>(DecoError::NotImplemented),
    {
        Err(DecoError::NotImplemented)
    }
}

impl Default for DSATAlgorithm {
    fn default() -> (r: Self)
        ensures
            r == (DSATAlgorithm {}),
    {
        DSATAlgorithm::new()
    }
}

} // verus!
