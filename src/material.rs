//! Materials, integration forms and the estimator's fixed tunables.
use vstd::prelude::*;

verus! {

/// How a surface scatters light.
#[allow(non_camel_case_types, clippy::upper_case_acronyms)]
#[derive(Clone, Copy, Debug, PartialEq, Eq, Structural)]
pub enum RflType {
    /// Lambertian: cosine-weighted hemisphere sampling.
    DIFF,
    /// Perfect mirror.
    SPEC,
    /// Glass: Fresnel-weighted reflection and refraction.
    REFR,
}

/// Which form of the estimator runs: the explicit-loop form or the
/// recursive one.
#[derive(Clone, Copy, Debug, PartialEq, Eq, Structural)]
pub enum IntegrationType {
    Iterative,
    Recursive,
}

impl Default for IntegrationType {
    fn default() -> (r: IntegrationType)
        ensures
            r == IntegrationType::Iterative,
    {
        IntegrationType::Iterative
    }
}

/// Russian roulette applies once the bounce depth exceeds this value.
pub const ROULETTE_DEPTH: u32 = 5;

/// A dielectric hit at a depth up to this value follows both the reflected
/// and the refracted ray; deeper hits pick one of them at random.
pub const SPLIT_DEPTH: u32 = 2;

/// Magnitude key of the double `1.0`.
pub const UNIT_KEY: u64 = 0x3FF0_0000_0000_0000;

/// Magnitude key of the double nearest to `0.1`.
pub const TENTH_KEY: u64 = 0x3FB9_9999_9999_999A;

} // verus!
