use spring_joint::joint::{should_break, spring_engages};

const TWO_PI: f32 = 2.0 * std::f32::consts::PI;

fn stiffness(frequency: f32, mass: f32) -> f32 {
    (TWO_PI * frequency).powi(2) * mass
}

fn breaks(stretch_force: f32, break_force: f32) -> bool {
    should_break(stretch_force.to_bits(), break_force.to_bits())
}

#[test]
fn bodies_at_rest_one_unit_stretched() {
    // Anchors at (0,0) and (2,0), rest distance 1, frequency 1, mass 1.
    let delta_x: f32 = 2.0 - 0.0;
    let distance = (delta_x.powi(2) + 0.0f32.powi(2)).sqrt();
    assert_eq!(distance, 2.0);
    assert!(spring_engages(distance.to_bits()));
    let k = stiffness(1.0, 1.0);
    assert!((k - 39.478).abs() < 1e-2);
    let damping = 2.0 * (k * 1.0).sqrt() * 1.0;
    assert!((damping - 12.566).abs() < 1e-2);
    let stretch = k * (distance - 1.0);
    assert!(!breaks(stretch, f32::INFINITY));
}

#[test]
fn coincident_anchors_are_slack() {
    assert!(!spring_engages(0.0f32.to_bits()));
    assert!(!spring_engages((-0.0f32).to_bits()));
}

#[test]
fn coincident_anchors_still_decide_breaking() {
    // distance 0, rest distance 1: |k * (0 - 1)| is about 39.48
    let stretch = stiffness(1.0, 1.0) * (0.0 - 1.0);
    assert!(breaks(stretch, 10.0));
    assert!(!breaks(stretch, 100.0));
}

#[test]
fn zero_break_force_breaks_on_any_stretch() {
    let k = stiffness(1.0, 1.0);
    assert!(breaks(k * 0.5, 0.0));
    assert!(breaks(k * -0.5, 0.0));
    assert!(breaks(f32::from_bits(1), 0.0));
}

#[test]
fn zero_stretch_against_zero_break_force_holds() {
    assert!(!breaks(0.0, 0.0));
    assert!(!breaks(-0.0, 0.0));
    assert!(!breaks(0.0, -0.0));
}

#[test]
fn infinite_break_force_never_breaks() {
    assert!(!breaks(f32::MAX, f32::INFINITY));
    assert!(!breaks(-f32::MAX, f32::INFINITY));
    assert!(!breaks(1.0e30, f32::INFINITY));
    assert!(!breaks(f32::INFINITY, f32::INFINITY));
    assert!(!breaks(f32::NEG_INFINITY, f32::INFINITY));
}

#[test]
fn break_comparison_is_strict() {
    assert!(!breaks(25.0, 25.0));
    assert!(!breaks(-25.0, 25.0));
    let just_above = f32::from_bits(25.0f32.to_bits() + 1);
    assert!(breaks(just_above, 25.0));
    assert!(breaks(-just_above, 25.0));
    let just_below = f32::from_bits(25.0f32.to_bits() - 1);
    assert!(!breaks(just_below, 25.0));
}

#[test]
fn break_follows_float_comparison() {
    let samples: [f32; 12] = [
        0.0, -0.0, 1.0e-45, 1.0e-38, 0.5, 1.0, -1.0, 39.478, 1.0e20, f32::MAX, f32::INFINITY,
        f32::NEG_INFINITY,
    ];
    for &force in samples.iter() {
        for &limit in samples.iter() {
            let expected = force.abs() > limit && limit.is_finite();
            assert_eq!(breaks(force, limit), expected, "{} against {}", force, limit);
        }
    }
}

#[test]
fn nan_never_breaks() {
    assert!(!breaks(f32::NAN, 1.0));
    assert!(!breaks(1.0, f32::NAN));
    assert!(!breaks(f32::from_bits(0xffc0_0001), -1.0));
}

#[test]
fn infinite_stretch_breaks_finite_limit() {
    assert!(breaks(f32::INFINITY, f32::MAX));
    assert!(breaks(f32::NEG_INFINITY, 1.0));
}

#[test]
fn negative_break_force_breaks_on_any_force() {
    assert!(breaks(0.0, -1.0));
    assert!(breaks(1.0, -1.0));
}

#[test]
fn engagement_follows_float_comparison() {
    let samples: [f32; 9] = [
        0.0, -0.0, 1.0e-45, 2.0, -2.0, f32::MAX, f32::INFINITY, f32::NEG_INFINITY, f32::NAN,
    ];
    for &distance in samples.iter() {
        assert_eq!(spring_engages(distance.to_bits()), distance > 0.0, "{}", distance);
    }
}
