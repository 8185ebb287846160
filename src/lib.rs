//! Decision logic of a unidirectional Monte Carlo path tracer over a scene of
//! spheres.
//!
//! The library holds what the radiance estimator decides: which sphere a ray
//! hits first, when Russian roulette applies and whether a path survives it,
//! how each material scatters, and the order in which the two halves of a
//! dielectric split are traced. The floating-point geometry and shading that
//! feed these decisions are done by the caller, which hands the library the
//! outcomes as plain values.
//!
//! A non-negative distance or probability reaches the library as its magnitude
//! key: the IEEE-754 bit pattern of the non-negative double. For such doubles
//! the unsigned order of the keys is the order of the values, so comparing two
//! keys compares the quantities they stand for.
pub mod material;
pub mod path;
pub mod scene;
pub mod worklist;
