use jaka_cli::number::Double;
use jaka_cli::{base_move, drive, gamepad, jog, kinematics, move_to, number, protocol, steps};

fn d(x: f64) -> Double {
    Double { bits: x.to_bits() }
}

fn samples() -> Vec<f64> {
    vec![
        0.0,
        -0.0,
        f64::from_bits(1),
        -f64::from_bits(1),
        f64::MIN_POSITIVE,
        0.1,
        0.49999999999999994,
        0.5,
        -0.5,
        0.75,
        1.0,
        -1.0,
        1.4999999999999998,
        1.5,
        2.5,
        -2.5,
        3.14,
        99.5,
        100.0,
        -100.0,
        100.00000000000001,
        4503599627370495.5,
        4503599627370496.0,
        9007199254740993.0,
        1e300,
        f64::MAX,
        f64::MIN,
        f64::INFINITY,
        f64::NEG_INFINITY,
        f64::NAN,
    ]
}

#[test]
fn order_is_that_of_floats() {
    for a in samples() {
        for b in samples() {
            assert_eq!(d(a).less(d(b)), a < b, "{a} < {b}");
            assert_eq!(d(a).same(d(b)), a == b, "{a} == {b}");
        }
        assert_eq!(d(a).zero(), a == 0.0, "{a}");
    }
}

#[test]
fn clamp_is_that_of_floats() {
    for v in samples() {
        let r = d(v).clamp(d(-100.0), d(100.0));
        assert_eq!(r.bits, v.clamp(-100.0, 100.0).to_bits(), "{v}");
    }
}

#[test]
fn signs_are_those_of_floats() {
    for v in samples() {
        assert_eq!(d(v).absolute().bits, v.abs().to_bits(), "{v}");
        assert_eq!(d(v).negate().bits, (-v).to_bits(), "{v}");
    }
}

#[test]
fn quantized_rounds_half_away_from_zero() {
    for v in samples() {
        let q = v.round();
        let expected = if q.abs() < 1.0 { 0.0 } else { q };
        let got = f64::from_bits(d(v).quantized().bits);
        if expected.is_nan() {
            assert!(got.is_nan());
        } else {
            assert_eq!(got, expected, "{v}");
        }
    }
    assert_eq!(f64::from_bits(d(2.5).quantized().bits), 3.0);
    assert_eq!(f64::from_bits(d(-2.5).quantized().bits), -3.0);
    assert_eq!(d(-0.4).quantized().bits, 0);
}

#[test]
fn constants_are_what_they_are_called() {
    let pairs = vec![
        (number::ONE, 1.0),
        (number::INFINITY, f64::INFINITY),
        (kinematics::LOW_Z, 100.0),
        (kinematics::WIDE_LIMIT, 360.0),
        (kinematics::NARROW_LIMIT, 120.0),
        (kinematics::POS_TOL, 1.0),
        (kinematics::ORI_TOL, 5.0),
        (kinematics::FRAC_PI_2, std::f64::consts::FRAC_PI_2),
        (steps::JOINT_ACC, 1.0),
        (steps::LINEAR_ACC, 500.0),
        (move_to::BIG_TURN, 30.0_f64.to_radians()),
        (move_to::NARROW, 0.001),
        (move_to::FAR_END, 1.0),
        (move_to::LARGE_ERROR, 2.0),
        (move_to::TRY_SPEED, 3.0),
        (base_move::BOUNDARY, 1.0),
        (drive::MAX_JOINT_SPEED, 3.14),
        (drive::MIN_JOINT_SPEED, 0.01),
        (jog::MAX_LIN_VEL, 100.0),
        (jog::MAX_ROT_VEL, 30.0),
        (protocol::FRAME, 0.05),
        (gamepad::DEADZONE, f64::from(0.15_f32)),
        (gamepad::MOVE_SCALE, f64::from(100.0_f32)),
        (gamepad::ROTATE_SCALE, f64::from(20.0_f32)),
        (gamepad::Z_SCALE, f64::from(40.0_f32)),
        (gamepad::SUCTION_LEVEL, f64::from(0.5_f32)),
    ];
    for (bits, x) in pairs {
        assert_eq!(bits, x.to_bits(), "{x}");
    }
    assert_eq!(gamepad::HEARTBEAT, std::time::Duration::from_millis(500).as_nanos());
}
