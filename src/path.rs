//! The per-bounce decisions of the radiance estimator.
//!
//! At each surface a path moves one bounce deeper, may be ended by Russian
//! roulette, and then scatters according to the surface's material. Random
//! draws and survival probabilities arrive as magnitude keys (see the crate
//! documentation); a uniform draw lies in `[0, 1)`, so its key is below
//! `UNIT_KEY`.
use vstd::prelude::*;
use crate::material::{RflType, ROULETTE_DEPTH, SPLIT_DEPTH, TENTH_KEY, UNIT_KEY};

verus! {

/// The depth after entering one more surface. It stops growing at the
/// largest `u32`, far beyond every threshold the decisions compare it with.
pub open spec fn deeper(depth: u32) -> u32 {
    if depth == u32::MAX { depth } else { (depth + 1) as u32 }
}

/// Moves a path one bounce deeper.
pub fn next_depth(depth: u32) -> (r: u32)
    ensures
        r == deeper(depth),
{
    depth.saturating_add(1)
}

/// Whether Russian roulette decides the fate of a path at this depth.
pub open spec fn roulette_applies(depth: u32) -> bool {
    depth > ROULETTE_DEPTH
}

/// Reports whether Russian roulette applies at `depth` (the depth after the
/// increment for the current surface).
pub fn roulette_active(depth: u32) -> (r: bool)
    ensures
        r == roulette_applies(depth),
{
    depth > ROULETTE_DEPTH
}

/// The largest of three keys.
pub open spec fn max3(a: u64, b: u64, c: u64) -> u64 {
    if a >= b && a >= c { a } else if b >= c { b } else { c }
}

/// The survival probability of a surface: the largest of its albedo's three
/// components, given as keys.
pub fn survival_key(r: u64, g: u64, b: u64) -> (p: u64)
    ensures
        p == max3(r, g, b),
        p >= r && p >= g && p >= b,
        p == r || p == g || p == b,
{
    let m = if g >= b { g } else { b };
    if r >= m { r } else { m }
}

/// Whether a surface with this survival probability absorbs every path: its
/// albedo is zero in all three components, so nothing it reflects can
/// contribute and the path ends once its emission is counted.
pub open spec fn absorbing(survival: u64) -> bool {
    survival == 0
}

/// Reports whether a surface absorbs every path that reaches it.
pub fn absorbs(survival: u64) -> (r: bool)
    ensures
        r == absorbing(survival),
{
    survival == 0
}

/// A path survives the roulette exactly when the draw is below the survival
/// probability.
pub open spec fn survives_roulette(draw: u64, survival: u64) -> bool {
    draw < survival
}

/// Plays Russian roulette: `true` when the path goes on.
pub fn survives(draw: u64, survival: u64) -> (r: bool)
    ensures
        r == survives_roulette(draw, survival),
{
    draw < survival
}

/// What happens to a path as it enters a surface, before it scatters.
#[derive(Clone, Copy, Debug, PartialEq, Eq, Structural)]
pub enum Entry {
    /// The surface's albedo is zero: the path ends once the surface's
    /// emission is counted, whatever the random draws.
    Absorbed,
    /// Russian roulette applies: a draw decides whether the path goes on.
    Roulette,
    /// The path goes on without a draw, its throughput unscaled.
    Live,
}

/// The entry rule at the depth reached on this surface.
pub open spec fn entry_rule(depth: u32, survival: u64) -> Entry {
    if absorbing(survival) {
        Entry::Absorbed
    } else if roulette_applies(depth) {
        Entry::Roulette
    } else {
        Entry::Live
    }
}

/// Enters a surface whose survival probability is `survival`: returns the
/// new depth and what happens to the path there.
pub fn enter_surface(depth: u32, survival: u64) -> (r: (u32, Entry))
    ensures
        r.0 == deeper(depth),
        r.1 == entry_rule(r.0, survival),
{
    let d = next_depth(depth);
    let e = if absorbs(survival) {
        Entry::Absorbed
    } else if roulette_active(d) {
        Entry::Roulette
    } else {
        Entry::Live
    };
    (d, e)
}

/// How a path leaves a surface.
#[derive(Clone, Copy, Debug, PartialEq, Eq, Structural)]
pub enum Scatter {
    /// Sample a cosine-weighted direction about the shading normal.
    Hemisphere,
    /// Follow the mirror reflection only, at full throughput.
    Mirror,
    /// Follow both the reflected and the refracted ray, weighted by the
    /// Fresnel reflectance and transmittance.
    Split,
    /// Draw once and follow one of the two rays, reweighted by the
    /// probability of the choice.
    Choose,
}

/// The scattering rule: diffuse surfaces sample the hemisphere, mirrors
/// reflect, and glass reflects only under total internal reflection,
/// otherwise splits near the camera and chooses deeper down.
pub open spec fn scatter_rule(material: RflType, depth: u32, total_internal: bool) -> Scatter {
    match material {
        RflType::DIFF => Scatter::Hemisphere,
        RflType::SPEC => Scatter::Mirror,
        RflType::REFR => if total_internal {
            Scatter::Mirror
        } else if depth <= SPLIT_DEPTH {
            Scatter::Split
        } else {
            Scatter::Choose
        },
    }
}

/// Decides how a path leaves a surface of `material` at `depth`.
/// `total_internal` tells, for glass, whether the refracted direction does
/// not exist (`cos2t < 0`); it is ignored for the other materials.
pub fn scatter(material: RflType, depth: u32, total_internal: bool) -> (r: Scatter)
    ensures
        r == scatter_rule(material, depth, total_internal),
{
    match material {
        RflType::DIFF => Scatter::Hemisphere,
        RflType::SPEC => Scatter::Mirror,
        RflType::REFR => {
            if total_internal {
                Scatter::Mirror
            } else if depth <= SPLIT_DEPTH {
                Scatter::Split
            } else {
                Scatter::Choose
            }
        },
    }
}

/// For a stochastic glass choice: the reflected ray is taken exactly when
/// the draw is below the reflection probability `0.25 + 0.5 * Re`.
pub fn picks_reflection(draw: u64, reflect_prob: u64) -> (r: bool)
    ensures
        r == (draw < reflect_prob),
{
    draw < reflect_prob
}

/// The world axis that is crossed with the shading normal `w` to build the
/// tangent frame for hemisphere sampling.
#[derive(Clone, Copy, Debug, PartialEq, Eq, Structural)]
pub enum Axis {
    X,
    Y,
}

/// The axis rule: a normal with a sizeable x component (`|w.x| > 0.1`) is
/// crossed with the Y axis, any other with the X axis, so that the axis is
/// never close to parallel to the normal.
pub open spec fn axis_rule(abs_wx: u64) -> Axis {
    if abs_wx > TENTH_KEY { Axis::Y } else { Axis::X }
}

/// Picks the reference axis for the tangent frame from the key of `|w.x|`.
pub fn tangent_axis(abs_wx: u64) -> (r: Axis)
    ensures
        r == axis_rule(abs_wx),
{
    if abs_wx > TENTH_KEY { Axis::Y } else { Axis::X }
}

/// A surface whose albedo is zero in all three components ends every path
/// that reaches it right after its emission is counted, at any depth and
/// whatever the random draws: no draw is asked for and no direction is
/// sampled.
pub proof fn lemma_zero_albedo_ends_path(depth: u32)
    ensures
        entry_rule(deeper(depth), max3(0, 0, 0)) == Entry::Absorbed,
{
}

/// A surface whose largest albedo component is one never ends a path by
/// Russian roulette: at every depth the path either goes on without a draw
/// or survives every draw in `[0, 1)`.
pub proof fn lemma_unit_albedo_survives(depth: u32, r: u64, g: u64, b: u64, draw: u64)
    requires
        max3(r, g, b) == UNIT_KEY,
        draw < UNIT_KEY,
    ensures
        entry_rule(deeper(depth), max3(r, g, b)) != Entry::Absorbed,
        survives_roulette(draw, max3(r, g, b)),
{
}

/// Under total internal reflection glass is left along the mirror ray
/// alone, at every depth: no refracted branch is ever traced.
pub proof fn lemma_total_internal_reflection_mirrors(depth: u32)
    ensures
        scatter_rule(RflType::REFR, depth, true) == Scatter::Mirror,
{
}

} // verus!
