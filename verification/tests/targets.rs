use hex_motor::cia402::types::{Measurements, TorqueReading};
use hex_motor::number::Real32;
use hex_motor::types::{MitMapping, MotorMode, MotorTarget};

fn r32(x: f32) -> Real32 {
    Real32::from_bits(x.to_bits())
}

fn number(x: Real32) -> f32 {
    f32::from_bits(x.bits)
}

#[test]
fn target_mode_match() {
    assert!(MotorTarget::Position { rev: r32(1.0) }.matches_mode(MotorMode::ProfilePosition));
    assert!(!MotorTarget::Position { rev: r32(1.0) }.matches_mode(MotorMode::ProfileVelocity));
    assert!(MotorTarget::Disable.matches_mode(MotorMode::Torque));
    assert!(MotorTarget::Mit {
        pos: r32(0.0),
        vel: r32(0.0),
        tor: r32(0.0),
        kp: r32(0.0),
        kd: r32(0.0),
    }
    .matches_mode(MotorMode::Mit));
}

#[test]
fn target_mode_hint() {
    assert_eq!(MotorTarget::Disable.mode_hint(), None);
    assert_eq!(
        MotorTarget::Position { rev: r32(1.0) }.mode_hint(),
        Some(MotorMode::ProfilePosition)
    );
    assert_eq!(
        MotorTarget::Velocity { rev_per_s: r32(1.0) }.mode_hint(),
        Some(MotorMode::ProfileVelocity)
    );
    assert_eq!(
        MotorTarget::Torque { nm: r32(1.0) }.mode_hint(),
        Some(MotorMode::Torque)
    );
}

#[test]
fn target_variant_name() {
    assert_eq!(MotorTarget::Disable.variant_name(), "Disable");
    assert_eq!(MotorTarget::Position { rev: r32(0.0) }.variant_name(), "Position");
}

#[test]
fn mit_mapping_default_consistent() {
    let m = MitMapping::default();
    assert!(number(m.position_min) < number(m.position_max));
    assert!(number(m.velocity_min) < number(m.velocity_max));
    assert!(number(m.kp_min) <= number(m.kp_max));
    assert!(number(m.kd_min) <= number(m.kd_max));
}

#[test]
fn mit_mapping_default_values() {
    let m = MitMapping::default();
    assert_eq!((number(m.position_min), number(m.position_max)), (-0.5, 0.5));
    assert_eq!((number(m.velocity_min), number(m.velocity_max)), (-10.0, 10.0));
    assert_eq!((number(m.torque_min), number(m.torque_max)), (-10.0, 10.0));
    assert_eq!((number(m.kp_min), number(m.kp_max)), (0.0, 100.0));
    assert_eq!((number(m.kd_min), number(m.kd_max)), (0.0, 20.0));
}

#[test]
fn mode_names_are_their_debug_texts() {
    for m in [
        MotorMode::ProfilePosition,
        MotorMode::ProfileVelocity,
        MotorMode::Torque,
        MotorMode::Mit,
    ] {
        assert_eq!(m.name(), format!("{m:?}"));
    }
}

#[test]
fn half_turn_limit_agrees_with_floating_point() {
    for x in [
        0.0f32,
        -0.0,
        0.25,
        -0.25,
        0.5,
        -0.5,
        0.500_000_06,
        -0.500_000_06,
        7.0,
        -7.0,
        f32::MIN_POSITIVE,
        f32::MAX,
        f32::MIN,
        f32::INFINITY,
        f32::NEG_INFINITY,
    ] {
        assert_eq!(number(r32(x).clamp_half_turn()), x.clamp(-0.5, 0.5));
    }
    assert!(number(r32(f32::NAN).clamp_half_turn()).is_nan());
}

#[test]
fn divisors_agree_with_floating_point() {
    for x in [
        0.0f32,
        -0.0,
        1.0,
        -4.0,
        f32::EPSILON,
        -f32::EPSILON,
        f32::from_bits(f32::EPSILON.to_bits() - 1),
        f32::MAX,
        f32::INFINITY,
        f32::NEG_INFINITY,
        f32::NAN,
    ] {
        let expected = x.is_finite() && !(x.abs() < f32::EPSILON);
        assert_eq!(r32(x).is_divisor(), expected, "{x}");
    }
}

#[test]
fn numbers_compare_as_numbers() {
    for (a, b) in [
        (0.0, -0.0),
        (0.0, 0.0),
        (1.5, 1.5),
        (1.5, -1.5),
        (f32::INFINITY, f32::INFINITY),
        (f32::INFINITY, f32::NEG_INFINITY),
        (f32::NAN, f32::NAN),
        (f32::NAN, 0.0),
        (f32::MIN_POSITIVE, 0.0),
    ] {
        assert_eq!(r32(a) == r32(b), a == b, "{a} {b}");
        assert_eq!(r32(b) == r32(a), b == a, "{b} {a}");
    }
    assert_eq!(MotorTarget::Torque { nm: r32(0.0) }, MotorTarget::Torque { nm: r32(-0.0) });
    assert_ne!(MotorTarget::Torque { nm: r32(f32::NAN) }, MotorTarget::Torque { nm: r32(f32::NAN) });
    let m = MitMapping::default();
    assert_eq!(MitMapping { kp_min: r32(-0.0), ..m }, m);
    assert_ne!(MitMapping { kp_min: r32(f32::NAN), ..m }, MitMapping { kp_min: r32(f32::NAN), ..m });
}

#[test]
fn torques_compare_by_their_newton_metres() {
    let a = TorqueReading { permille: 500, peak_nm: r32(2.0), nm: r32(1.0) };
    let b = TorqueReading { permille: 250, peak_nm: r32(4.0), nm: r32(1.0) };
    let c = TorqueReading { permille: 500, peak_nm: r32(4.0), nm: r32(2.0) };
    let with = |t: TorqueReading| Measurements { torque: Some(t), ..Default::default() };
    assert_eq!(with(a), with(b));
    assert_ne!(with(a), with(c));
}
