use smallpt::material::{IntegrationType, RflType, SPLIT_DEPTH, TENTH_KEY, UNIT_KEY};
use smallpt::path::{
    absorbs, enter_surface, next_depth, picks_reflection, roulette_active, scatter, survival_key,
    survives, tangent_axis, Axis, Entry, Scatter,
};

fn key(x: f64) -> u64 {
    x.to_bits()
}

#[test]
fn unit_and_tenth_keys_match_doubles() {
    assert_eq!(UNIT_KEY, key(1.0));
    assert_eq!(TENTH_KEY, key(0.1));
}

#[test]
fn default_integration_is_iterative() {
    assert_eq!(IntegrationType::default(), IntegrationType::Iterative);
}

#[test]
fn depth_grows_by_one_and_saturates() {
    assert_eq!(next_depth(0), 1);
    assert_eq!(next_depth(5), 6);
    assert_eq!(next_depth(u32::MAX), u32::MAX);
}

#[test]
fn roulette_starts_after_five_bounces() {
    assert!(!roulette_active(0));
    assert!(!roulette_active(5));
    assert!(roulette_active(6));
    assert!(roulette_active(u32::MAX));
}

#[test]
fn survival_is_largest_albedo_component() {
    assert_eq!(survival_key(key(0.75), key(0.25), key(0.25)), key(0.75));
    assert_eq!(survival_key(key(0.25), key(0.25), key(0.75)), key(0.75));
    assert_eq!(survival_key(key(0.25), key(0.999), key(0.5)), key(0.999));
    assert_eq!(survival_key(0, 0, 0), 0);
}

#[test]
fn zero_albedo_is_absorbing() {
    assert!(absorbs(survival_key(key(0.0), key(0.0), key(0.0))));
    assert!(!absorbs(survival_key(key(0.0), key(0.0), key(0.001))));
}

#[test]
fn entering_a_surface() {
    assert_eq!(enter_surface(0, key(0.75)), (1, Entry::Live));
    assert_eq!(enter_surface(4, key(0.75)), (5, Entry::Live));
    assert_eq!(enter_surface(5, key(0.75)), (6, Entry::Roulette));
    assert_eq!(enter_surface(0, 0), (1, Entry::Absorbed));
    assert_eq!(enter_surface(9, 0), (10, Entry::Absorbed));
}

#[test]
fn zero_albedo_ends_path_at_every_depth() {
    for d in [0u32, 1, 2, 5, 6, 100, u32::MAX] {
        assert_eq!(enter_surface(d, survival_key(key(0.0), key(0.0), key(0.0))).1, Entry::Absorbed);
    }
}

#[test]
fn roulette_compares_draw_with_survival() {
    assert!(survives(key(0.1), key(0.75)));
    assert!(!survives(key(0.75), key(0.75)));
    assert!(!survives(key(0.9), key(0.75)));
    assert!(!survives(key(0.0), 0));
}

#[test]
fn unit_albedo_always_survives() {
    let p = survival_key(key(1.0), key(0.5), key(1.0));
    assert_eq!(p, UNIT_KEY);
    for draw in [0.0f64, 1e-12, 0.25, 0.5, 0.999_999, 1.0 - f64::EPSILON / 2.0] {
        assert!(survives(key(draw), p));
    }
    assert_eq!(enter_surface(40, p).1, Entry::Roulette);
    assert_eq!(enter_surface(3, p).1, Entry::Live);
}

#[test]
fn materials_scatter_by_rule() {
    assert_eq!(scatter(RflType::DIFF, 1, false), Scatter::Hemisphere);
    assert_eq!(scatter(RflType::DIFF, 1, true), Scatter::Hemisphere);
    assert_eq!(scatter(RflType::SPEC, 7, false), Scatter::Mirror);
    assert_eq!(scatter(RflType::REFR, 1, false), Scatter::Split);
    assert_eq!(scatter(RflType::REFR, SPLIT_DEPTH, false), Scatter::Split);
    assert_eq!(scatter(RflType::REFR, SPLIT_DEPTH + 1, false), Scatter::Choose);
}

#[test]
fn total_internal_reflection_never_refracts() {
    for d in [0u32, 1, 2, 3, 6, u32::MAX] {
        assert_eq!(scatter(RflType::REFR, d, true), Scatter::Mirror);
    }
}

#[test]
fn stochastic_glass_choice() {
    // reflection probability 0.25 + 0.5 * Re; at normal incidence Re = r0 = 0.04
    let p = 0.25 + 0.5 * 0.04;
    assert!(picks_reflection(key(0.2), key(p)));
    assert!(!picks_reflection(key(0.27), key(p)));
    assert!(!picks_reflection(key(0.8), key(p)));
}

#[test]
fn tangent_axis_avoids_parallel_normal() {
    assert_eq!(tangent_axis(key(1.0)), Axis::Y);
    assert_eq!(tangent_axis(key(0.5)), Axis::Y);
    assert_eq!(tangent_axis(key(0.1)), Axis::X);
    assert_eq!(tangent_axis(key(0.0)), Axis::X);
}

#[test]
fn decisions_repeat_on_fixed_stream() {
    let stream = [0.3f64, 0.9, 0.05, 0.6, 0.2, 0.7, 0.99, 0.01];
    let run = || {
        let mut out = vec![];
        let mut depth = 0u32;
        let survival = survival_key(key(0.8), key(0.6), key(0.4));
        for (k, draw) in stream.iter().enumerate() {
            let (d, entry) = enter_surface(depth, survival);
            depth = d;
            let live = entry != Entry::Roulette || survives(key(*draw), survival);
            let material = [RflType::DIFF, RflType::SPEC, RflType::REFR][k % 3];
            out.push((depth, entry, live, scatter(material, depth, k % 4 == 0)));
        }
        out
    };
    assert_eq!(run(), run());
}
