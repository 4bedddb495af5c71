use jaka_cli::kinematics::{
    home_joints, joint_ok, pose_close, too_low, ClampSearch, Goal, IkRequest, IkSearch, PathCheck,
    PathStage, PoseGap,
};
use jaka_cli::number::Double;
use jaka_cli::sdk::{CartesianPose, JointValue};

fn d(x: f64) -> Double {
    Double { bits: x.to_bits() }
}

fn f(x: Double) -> f64 {
    f64::from_bits(x.bits)
}

fn joints(v: [f64; 6]) -> JointValue {
    JointValue { j_val: v.map(d) }
}

fn gap(pos: f64, rx: f64, ry: f64, rz: f64) -> PoseGap {
    PoseGap { pos: d(pos), rx: d(rx), ry: d(ry), rz: d(rz) }
}

fn at_height(z: f64) -> CartesianPose {
    let mut p = CartesianPose::zero();
    p.tran.z = d(z);
    p
}

/// The clamping search on floats, as a share of the way.
fn clamp_on_floats(reach: f64) -> Option<f64> {
    if reach >= 1.0 {
        return Some(1.0);
    }
    let mut lo = 0.0_f64;
    let mut hi = 1.0_f64;
    for _ in 0..20 {
        let mid = (lo + hi) / 2.0;
        if mid <= reach {
            lo = mid;
        } else {
            hi = mid;
        }
    }
    if lo < 0.001 {
        None
    } else {
        Some(lo)
    }
}

fn clamp_in_parts(reach: f64) -> Goal {
    let mut s = ClampSearch::resolve_with_clamp();
    let mut rounds = 0;
    loop {
        if let Some(goal) = s.found {
            return goal;
        }
        let share = f64::from(s.probe()) / 1048576.0;
        s.record(share <= reach);
        rounds += 1;
        assert!(rounds <= 21);
    }
}

#[test]
fn the_safe_height_is_a_hundred() {
    assert!(too_low(&at_height(99.99)));
    assert!(!too_low(&at_height(100.0)));
    assert!(!too_low(&at_height(f64::NAN)));
    assert!(too_low(&at_height(f64::NEG_INFINITY)));
}

#[test]
fn joints_have_travel_limits() {
    assert!(joint_ok(&joints([360.0, 120.0, -360.0, 360.0, -120.0, -360.0]).j_val));
    let over = [360.1, 120.1, 360.1, 360.1, 120.1, 360.1];
    for i in 0..6 {
        let mut v = [0.0; 6];
        v[i] = over[i];
        assert!(!joint_ok(&joints(v).j_val), "{i}");
        v[i] = -over[i];
        assert!(!joint_ok(&joints(v).j_val), "{i}");
        v[i] = f64::NAN;
        assert!(!joint_ok(&joints(v).j_val), "{i}");
    }
}

#[test]
fn poses_close_by_count_as_one() {
    assert!(pose_close(&gap(0.999, 4.999, 0.0, 4.0)));
    assert!(!pose_close(&gap(1.0, 0.0, 0.0, 0.0)));
    assert!(!pose_close(&gap(0.0, 5.0, 0.0, 0.0)));
    assert!(!pose_close(&gap(0.0, 0.0, 5.0, 0.0)));
    assert!(!pose_close(&gap(0.0, 0.0, 0.0, 5.0)));
    assert!(!pose_close(&gap(f64::NAN, 0.0, 0.0, 0.0)));
}

#[test]
fn the_home_pose_is_bent_by_quarter_turns() {
    let q = std::f64::consts::FRAC_PI_2;
    assert_eq!(home_joints().j_val.map(f), [0.0, q, -q, 0.0, -q, 0.0]);
}

#[test]
fn the_solver_is_asked_with_four_references() {
    let current = joints([1.0; 6]);
    let aimed = joints([2.0; 6]);
    let mut s = IkSearch::ik_solve(&current, &aimed, &at_height(300.0));
    let mut firsts = Vec::new();
    loop {
        match s.request() {
            IkRequest::Inverse { reference, pose } => {
                assert_eq!(f(pose.tran.z), 300.0);
                firsts.push(f(reference.j_val[1]));
                s.on_inverse(-1, &current, &current.j_val);
            }
            IkRequest::Forward { .. } => panic!("nothing to verify"),
            IkRequest::Finished { solution } => {
                assert!(solution.is_none());
                break;
            }
        }
    }
    assert_eq!(firsts, [1.0, 0.0, std::f64::consts::FRAC_PI_2, 2.0]);
}

#[test]
fn the_first_verified_solution_is_taken() {
    let current = joints([0.0; 6]);
    let far = joints([0.0, 200.0, 0.0, 0.0, 0.0, 0.0]);
    let near = joints([0.0, 20.0, 0.0, 0.0, 0.0, 0.0]);
    let mut s = IkSearch::ik_solve(&current, &current, &at_height(300.0));
    // The first answer is outside the limits.
    s.on_inverse(0, &far, &far.j_val);
    assert!(matches!(s.request(), IkRequest::Inverse { .. }));
    // The second leads elsewhere.
    s.on_inverse(0, &near, &near.j_val);
    assert!(matches!(s.request(), IkRequest::Forward { .. }));
    s.on_forward(0, &gap(3.0, 0.0, 0.0, 0.0));
    // The third can not be verified.
    s.on_inverse(0, &near, &near.j_val);
    s.on_forward(-2, &gap(0.0, 0.0, 0.0, 0.0));
    // The fourth holds.
    s.on_inverse(0, &near, &near.j_val);
    s.on_forward(0, &gap(0.1, 0.0, 0.0, 0.0));
    match s.request() {
        IkRequest::Finished { solution } => {
            assert_eq!(solution.unwrap().j_val.map(f), near.j_val.map(f))
        }
        _ => panic!("expected the end"),
    }
}

#[test]
fn a_path_is_clear_when_all_samples_are() {
    let mut c = PathCheck::path_clear(true);
    let mut seen = Vec::new();
    loop {
        match c.stage {
            PathStage::Sample { index } => {
                seen.push(index);
                c.on_probe(&at_height(150.0));
            }
            PathStage::Solve { .. } => c.on_solution(true),
            PathStage::Done { clear } => {
                assert!(clear);
                break;
            }
        }
    }
    assert_eq!(seen, [0, 1, 2, 3, 4, 5, 6, 7, 8]);
}

#[test]
fn one_bad_sample_blocks_a_path() {
    let mut c = PathCheck::path_clear(true);
    c.on_probe(&at_height(150.0));
    c.on_solution(true);
    c.on_probe(&at_height(99.0));
    assert_eq!(c.stage, PathStage::Done { clear: false });
    let mut c = PathCheck::path_clear(false);
    c.on_probe(&at_height(99.0));
    assert!(matches!(c.stage, PathStage::Solve { index: 0, .. }));
    c.on_solution(false);
    assert_eq!(c.stage, PathStage::Done { clear: false });
}

#[test]
fn clamping_ends_where_the_float_search_does() {
    for i in 0..=2000 {
        let reach = f64::from(i) / 1900.0;
        let expected = match clamp_on_floats(reach) {
            None => Goal::Stay,
            Some(share) if share == 1.0 => Goal::Target,
            Some(share) => Goal::Part { parts: (share * 1048576.0) as u32 },
        };
        assert_eq!(clamp_in_parts(reach), expected, "{reach}");
    }
}

#[test]
fn clamping_gives_up_below_a_thousandth() {
    assert_eq!(clamp_in_parts(1048.0 / 1048576.0), Goal::Stay);
    assert_eq!(clamp_in_parts(1049.0 / 1048576.0), Goal::Part { parts: 1049 });
    assert_eq!(clamp_in_parts(1.0), Goal::Target);
    assert_eq!(clamp_in_parts(1048575.0 / 1048576.0), Goal::Part { parts: 1048575 });
}
