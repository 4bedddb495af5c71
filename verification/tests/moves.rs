use jaka_cli::base_move::{BaseCall, BaseMover};
use jaka_cli::kinematics::{Goal, PoseGap};
use jaka_cli::move_to::{
    home_base, load_base, pose_json_failure, read_failure, set_base, write_failure, BaseFile, MoveCall, Mover,
    PoseDoc, Stage, Wanted,
};
use jaka_cli::number::Double;
use jaka_cli::sdk::{CartesianPose, CartesianTran, JointValue, MoveMode, Rpy};
use jaka_cli::steps::Outcome;

fn d(x: f64) -> Double {
    Double { bits: x.to_bits() }
}

fn f(x: Double) -> f64 {
    f64::from_bits(x.bits)
}

fn tran(x: f64, y: f64, z: f64) -> CartesianTran {
    CartesianTran { x: d(x), y: d(y), z: d(z) }
}

fn pose(x: f64, y: f64, z: f64) -> CartesianPose {
    CartesianPose { tran: tran(x, y, z), rpy: Rpy { rx: d(0.5), ry: d(-0.25), rz: d(0.1) } }
}

fn joints(v: f64) -> JointValue {
    JointValue { j_val: [d(v); 6] }
}

fn gap(pos: f64) -> PoseGap {
    PoseGap { pos: d(pos), rx: d(0.0), ry: d(0.0), rz: d(0.0) }
}

fn wanted(x: f64, y: f64, z: f64) -> Wanted {
    Wanted { tran: tran(x, y, z), rx: None, ry: None, rz: None }
}

fn ok() -> Outcome {
    Outcome::Returned { code: 0 }
}

fn failed() -> Outcome {
    Outcome::Returned { code: -12 }
}

fn lerp(a: f64, b: f64, t: f64) -> f64 {
    a + (b - a) * t
}

fn lerp_pose(a: &CartesianPose, b: &CartesianPose, t: f64) -> CartesianPose {
    let l = |p: Double, q: Double| d(lerp(f(p), f(q), t));
    CartesianPose {
        tran: CartesianTran {
            x: l(a.tran.x, b.tran.x),
            y: l(a.tran.y, b.tran.y),
            z: l(a.tran.z, b.tran.z),
        },
        rpy: Rpy {
            rx: l(a.rpy.rx, b.rpy.rx),
            ry: l(a.rpy.ry, b.rpy.ry),
            rz: l(a.rpy.rz, b.rpy.rz),
        },
    }
}

/// A move up to where the path would be checked or the target tried.
fn aimed(w: &Wanted, here: &CartesianPose, turn: f64) -> Mover {
    let mut m = Mover::move_to(w, d(250.0), false, false);
    assert!(matches!(m.request(), MoveCall::ReadTcp));
    m.on_tcp(0, here).unwrap();
    assert!(matches!(m.request(), MoveCall::Aim { .. }));
    m.on_aim(&tran(9.0, 9.0, 9.0), None, None, None);
    assert!(matches!(m.request(), MoveCall::Turn { .. }));
    m.on_turn(d(turn), d(0.0), d(0.0));
    assert!(matches!(m.request(), MoveCall::ReadJoints));
    m.on_joints(0, &joints(0.0)).unwrap();
    m
}

/// Checks the straight path, whose samples all have a joint solution or none.
fn check_path(m: &mut Mover, clear: bool) {
    while let Stage::CheckPath { .. } = m.stage {
        match m.request() {
            MoveCall::Sample { from, to, index } => {
                m.on_sample(&lerp_pose(&from, &to, f64::from(index) / 8.0))
            }
            MoveCall::Solve { .. } if clear => m.on_solution(&Some(joints(0.0))),
            _ => m.on_solution(&None),
        }
    }
}

/// Runs the search with a robot that reaches the given share of the way, and
/// returns the shares that were tried.
fn search(m: &mut Mover, reach: f64) -> Vec<f64> {
    let mut tried = Vec::new();
    loop {
        match m.request() {
            MoveCall::Split { lo, hi, from, to } => {
                let mid = (f(lo) + f(hi)) / 2.0;
                tried.push(mid);
                m.on_split(d(f(hi) - f(lo)), d(mid), &lerp_pose(&from, &to, mid));
            }
            MoveCall::Solve { .. } => m.on_solution(&Some(joints(1.0))),
            MoveCall::JointMove { .. } => {
                let mid = *tried.last().unwrap();
                m.on_attempt(&if mid <= reach { ok() } else { failed() });
            }
            MoveCall::ClearError => m.on_cleared(),
            MoveCall::Land { from, to, .. } => {
                let t = tried.last().unwrap().min(reach);
                m.on_landed(0, &lerp_pose(&from, &to, t), &gap(50.0), d(t)).unwrap();
            }
            MoveCall::ReadJoints => m.on_refreshed(0, &joints(2.0)).unwrap(),
            _ => return tried,
        }
    }
}

#[test]
fn a_clear_path_is_followed_linearly() {
    let mut m = aimed(&wanted(100.0, 0.0, 200.0), &pose(0.0, 0.0, 300.0), 0.1);
    match m.request() {
        MoveCall::Sample { from, to, index } => {
            assert_eq!(index, 0);
            assert_eq!(f(from.tran.z), 300.0);
            assert_eq!((f(to.tran.x), f(to.tran.z)), (100.0, 200.0));
            assert_eq!(f(to.rpy.rx), 0.5);
        }
        _ => panic!("expected a path check"),
    }
    check_path(&mut m, true);
    match m.request() {
        MoveCall::LinearMove { target, mode, speed, acc, tol, block } => {
            assert_eq!(target, m.target);
            assert_eq!((mode, f(speed)), (MoveMode::Abs, 250.0));
            assert_eq!((f(acc), f(tol), block), (500.0, 0.0, true));
        }
        _ => panic!("expected a linear move"),
    }
    m.on_linear(&ok());
    match m.request() {
        MoveCall::Report { goal } => assert_eq!(goal, m.target),
        _ => panic!("expected the report"),
    }
    assert_eq!(m.report_final(0, d(0.5)), Ok(false));
    assert!(matches!(m.request(), MoveCall::Finished));
}

#[test]
fn an_interrupted_motion_is_reported_as_done() {
    let mut m = aimed(&wanted(100.0, 0.0, 200.0), &pose(0.0, 0.0, 300.0), 0.1);
    check_path(&mut m, true);
    m.on_linear(&Outcome::Interrupted);
    assert!(matches!(m.request(), MoveCall::Report { .. }));
}

#[test]
fn a_large_error_is_told() {
    let mut m = aimed(&wanted(100.0, 0.0, 200.0), &pose(0.0, 0.0, 300.0), 0.1);
    check_path(&mut m, true);
    m.on_linear(&ok());
    let mut other = m;
    assert_eq!(m.report_final(0, d(2.0)), Ok(false));
    assert_eq!(other.report_final(0, d(2.1)), Ok(true));
}

#[test]
fn a_failed_linear_motion_falls_back_to_joints() {
    let mut m = aimed(&wanted(100.0, 0.0, 200.0), &pose(0.0, 0.0, 300.0), 0.1);
    check_path(&mut m, true);
    m.on_linear(&failed());
    match m.request() {
        MoveCall::Solve { pose, .. } => assert_eq!(pose, m.target),
        _ => panic!("expected a solve"),
    }
    m.on_solution(&Some(joints(1.0)));
    match m.request() {
        MoveCall::JointMove { joint, mode, speed, acc, tol, block } => {
            assert_eq!(f(joint.j_val[0]), 1.0);
            assert_eq!((mode, f(speed)), (MoveMode::Abs, 3.0));
            assert_eq!((f(acc), f(tol), block), (1.0, 0.0, true));
        }
        _ => panic!("expected a joint move"),
    }
    m.on_attempt(&failed());
    assert!(matches!(m.request(), MoveCall::ClearError));
    m.on_cleared();
    // The robot arrived although the motion reported an error.
    let target = m.target;
    m.on_landed(0, &target, &gap(0.2), d(1.0)).unwrap();
    assert!(matches!(m.request(), MoveCall::Report { .. }));
}

#[test]
fn a_large_turn_skips_the_straight_path() {
    let m = aimed(&wanted(100.0, 0.0, 200.0), &pose(0.0, 0.0, 300.0), 0.6);
    assert!(matches!(m.request(), MoveCall::Solve { .. }));
    let m = aimed(&wanted(100.0, 0.0, 200.0), &pose(0.0, 0.0, 300.0), 30.0_f64.to_radians());
    assert!(matches!(m.request(), MoveCall::Sample { .. }));
}

#[test]
fn the_mirrored_orientation_is_tried_when_none_was_given() {
    let mut m = aimed(&wanted(100.0, 0.0, 200.0), &pose(0.0, 0.0, 300.0), 0.1);
    check_path(&mut m, false);
    m.on_solution(&None);
    match m.request() {
        MoveCall::Solve { pose, .. } => {
            assert_eq!(pose.tran, m.target.tran);
            assert_eq!((f(pose.rpy.rx), f(pose.rpy.ry), f(pose.rpy.rz)), (-0.5, 0.25, 0.1));
        }
        _ => panic!("expected a solve"),
    }
    m.on_solution(&Some(joints(1.0)));
    m.on_attempt(&ok());
    match m.request() {
        MoveCall::Land { aim, .. } => {
            m.on_landed(0, &aim, &gap(0.0), d(0.0)).unwrap();
            match m.request() {
                MoveCall::Report { goal } => assert_eq!(goal, aim),
                _ => panic!("expected the report"),
            }
        }
        _ => panic!("expected the landing"),
    }
}

#[test]
fn a_given_orientation_is_never_mirrored() {
    let mut w = wanted(100.0, 0.0, 200.0);
    w.rz = Some(d(10.0));
    let mut m = Mover::move_to(&w, d(250.0), false, false);
    assert!(m.explicit);
    m.on_tcp(0, &pose(0.0, 0.0, 300.0)).unwrap();
    m.on_aim(&w.tran, None, None, Some(d(0.2)));
    assert_eq!((f(m.target.rpy.rx), f(m.target.rpy.rz)), (0.5, 0.2));
    m.on_turn(d(0.0), d(0.0), d(0.1));
    m.on_joints(0, &joints(0.0)).unwrap();
    check_path(&mut m, false);
    m.on_solution(&None);
    assert!(matches!(m.request(), MoveCall::Split { .. }));
}

#[test]
fn a_low_target_is_never_tried() {
    let mut m = aimed(&wanted(100.0, 0.0, 20.0), &pose(0.0, 0.0, 300.0), 0.1);
    check_path(&mut m, false);
    match m.request() {
        MoveCall::Split { lo, hi, to, .. } => {
            assert_eq!((f(lo), f(hi)), (0.0, 1.0));
            assert_eq!((f(to.tran.x), f(to.tran.z)), (100.0, 100.0));
        }
        _ => panic!("expected the search"),
    }
}

#[test]
fn a_low_target_is_not_moved_to_linearly() {
    // Samples and solutions would let the path pass, but the target is low.
    let mut m = aimed(&wanted(100.0, 0.0, 20.0), &pose(0.0, 0.0, 300.0), 0.1);
    while let Stage::CheckPath { .. } = m.stage {
        match m.request() {
            MoveCall::Sample { .. } => m.on_sample(&pose(0.0, 0.0, 300.0)),
            _ => m.on_solution(&Some(joints(0.0))),
        }
    }
    assert!(matches!(m.request(), MoveCall::Split { .. }));
}

#[test]
fn a_low_sample_blocks_the_path() {
    let mut m = aimed(&wanted(100.0, 0.0, 200.0), &pose(0.0, 0.0, 300.0), 0.1);
    m.on_sample(&pose(0.0, 0.0, 99.0));
    match m.request() {
        MoveCall::Solve { pose, .. } => assert_eq!(pose, m.target),
        _ => panic!("expected a solve"),
    }
}

#[test]
fn a_repeated_move_has_the_same_target() {
    let w = wanted(100.0, 50.0, 200.0);
    let first = aimed(&w, &pose(0.0, 0.0, 300.0), 0.1);
    let second = aimed(&w, &first.target, 0.1);
    assert_eq!(first.target, second.target);
    let third = aimed(&w, &pose(7.0, 8.0, 9.0), 0.1);
    assert_eq!(first.target.tran, third.target.tran);
}

#[test]
fn the_search_ends_at_the_farthest_landing() {
    let mut m = aimed(&wanted(100.0, 0.0, 20.0), &pose(0.0, 0.0, 300.0), 0.1);
    check_path(&mut m, false);
    let mut landings = [0.2, 0.6, 0.4, 0.5].iter();
    loop {
        match m.request() {
            MoveCall::Split { .. } => m.on_split(d(1.0), d(0.5), &pose(0.0, 0.0, 150.0)),
            MoveCall::Solve { .. } => m.on_solution(&Some(joints(1.0))),
            MoveCall::JointMove { .. } => m.on_attempt(&ok()),
            MoveCall::Land { .. } => {
                let t = landings.next().copied().unwrap_or(0.1);
                m.on_landed(0, &pose(t, 0.0, 150.0), &gap(50.0), d(t)).unwrap();
            }
            MoveCall::ReadJoints => m.on_refreshed(0, &joints(0.0)).unwrap(),
            _ => break,
        }
    }
    match m.request() {
        MoveCall::Report { goal } => assert_eq!(f(goal.tran.x), 0.6),
        _ => panic!("expected the report"),
    }
}

#[test]
fn a_low_point_of_the_search_is_skipped() {
    // The search starts below the safe height, so low points lie on the way.
    let mut m = aimed(&wanted(100.0, 0.0, 20.0), &pose(0.0, 0.0, 50.0), 0.1);
    check_path(&mut m, false);
    m.on_split(d(1.0), d(0.5), &pose(50.0, 0.0, 75.0));
    match m.request() {
        MoveCall::Split { lo, hi, .. } => assert_eq!((f(lo), f(hi)), (0.0, 0.5)),
        _ => panic!("expected the search"),
    }
}

#[test]
fn the_search_closes_in_on_what_is_reachable() {
    let mut m = aimed(&wanted(100.0, 0.0, 20.0), &pose(0.0, 0.0, 300.0), 0.1);
    check_path(&mut m, false);
    let tried = search(&mut m, 0.3);
    assert_eq!(&tried[..3], &[0.5, 0.65, 0.475]);
    match m.request() {
        MoveCall::Report { goal } => assert!((f(goal.tran.x) - 30.0).abs() < 1e-9),
        _ => panic!("expected the report"),
    }
}

#[test]
fn the_search_ends_after_twenty_points() {
    let mut m = aimed(&wanted(100.0, 0.0, 20.0), &pose(0.0, 0.0, 300.0), 0.1);
    check_path(&mut m, false);
    let mut rounds = 0;
    while let MoveCall::Split { .. } = m.request() {
        m.on_split(d(1.0), d(0.5), &pose(0.0, 0.0, 99.0));
        rounds += 1;
    }
    assert_eq!(rounds, 20);
    assert!(matches!(m.request(), MoveCall::Finished));
}

#[test]
fn a_search_that_reaches_nothing_ends_where_it_is() {
    let mut m = aimed(&wanted(100.0, 0.0, 20.0), &pose(0.0, 0.0, 300.0), 0.1);
    check_path(&mut m, false);
    let tried = search(&mut m, 0.0);
    assert!(*tried.last().unwrap() < 0.001);
    assert!(matches!(m.request(), MoveCall::Finished));
}

#[test]
fn failed_reads_end_a_move() {
    let mut m = Mover::move_to(&wanted(0.0, 0.0, 200.0), d(250.0), false, false);
    assert_eq!(
        m.on_tcp(-1, &pose(0.0, 0.0, 0.0)),
        Err("Read TCP position failed with error code -1: Invalid handler".to_string())
    );
    let mut m = aimed(&wanted(100.0, 0.0, 200.0), &pose(0.0, 0.0, 300.0), 0.1);
    check_path(&mut m, true);
    m.on_linear(&ok());
    assert_eq!(
        m.report_final(-2, d(0.0)),
        Err("Read final TCP position failed with error code -2: Invalid parameter".to_string())
    );
}

#[test]
fn a_pose_file_overrides_the_position() {
    let mut m = Mover::move_to(&wanted(0.0, 0.0, 0.0), d(250.0), false, true);
    m.on_tcp(0, &pose(0.0, 0.0, 300.0)).unwrap();
    assert!(matches!(m.request(), MoveCall::ReadPoseFile));
    let doc = PoseDoc {
        head_pos: vec![d(1.0), d(2.0), d(250.0)],
        head_rpy: Some(vec![d(10.0), d(20.0), d(30.0)]),
    };
    m.on_pose_file(&doc).unwrap();
    match m.request() {
        MoveCall::Aim { wanted, .. } => {
            assert_eq!(wanted.tran, tran(1.0, 2.0, 250.0));
            assert_eq!(wanted.ry, Some(d(20.0)));
        }
        _ => panic!("expected the aim"),
    }
}

#[test]
fn a_pose_file_may_lack_angles() {
    for rpy in [None, Some(vec![d(1.0)])] {
        let mut m = Mover::move_to(&wanted(0.0, 0.0, 0.0), d(250.0), false, true);
        m.on_tcp(0, &pose(0.0, 0.0, 300.0)).unwrap();
        let doc = PoseDoc { head_pos: vec![d(1.0), d(2.0), d(250.0)], head_rpy: rpy };
        m.on_pose_file(&doc).unwrap();
        assert_eq!((m.wanted.rx, m.wanted.ry, m.wanted.rz), (None, None, None));
        assert!(m.explicit);
    }
}

#[test]
fn a_pose_file_needs_three_coordinates() {
    let mut m = Mover::move_to(&wanted(0.0, 0.0, 0.0), d(250.0), false, true);
    m.on_tcp(0, &pose(0.0, 0.0, 300.0)).unwrap();
    let doc = PoseDoc { head_pos: vec![d(1.0)], head_rpy: None };
    assert_eq!(m.on_pose_file(&doc), Err("head_pos must have 3 values, got 1".to_string()));
}

#[test]
fn a_relative_move_adds_the_base() {
    let mut m = Mover::move_to(&wanted(10.0, 0.0, 0.0), d(250.0), true, false);
    m.on_tcp(0, &pose(0.0, 0.0, 300.0)).unwrap();
    assert!(matches!(m.request(), MoveCall::LoadBase));
    m.on_base(&pose(100.0, 0.0, 250.0));
    match m.request() {
        MoveCall::Aim { base, wanted } => {
            assert_eq!((f(base.x), f(wanted.tran.x)), (100.0, 10.0));
            m.on_aim(&tran(110.0, 0.0, 250.0), None, None, None);
        }
        _ => panic!("expected the aim"),
    }
    assert_eq!(f(m.target.tran.x), 110.0);
}

#[test]
fn the_base_is_saved_or_the_robot_home() {
    let saved = set_base(&pose(1.0, 2.0, 3.0));
    let (base, from_file) = load_base(&saved).unwrap();
    assert!(from_file);
    assert_eq!(base.tran, tran(1.0, 2.0, 3.0));
    assert_eq!(f(base.rpy.rx), 0.0);
    assert!(load_base(&BaseFile::Absent).is_none());
    assert!(load_base(&BaseFile::Invalid).is_none());
    let home = pose(-50.0, 0.0, 400.0);
    assert_eq!(home_base(0, &home), Ok((home, false)));
    assert_eq!(
        home_base(-999, &home),
        Err("Compute home pose failed with error code -999: SDK exception".to_string())
    );
}

#[test]
fn file_errors_are_described() {
    assert_eq!(read_failure("a.json", "no such file"), "Failed to read a.json: no such file");
    assert_eq!(write_failure("b.json", "denied"), "Failed to write b.json: denied");
    assert_eq!(pose_json_failure("c.json", "eof"), "Invalid pose JSON in c.json: eof");
}

#[test]
fn a_move_takes_a_bounded_number_of_answers() {
    let here = pose(0.0, 0.0, 300.0);
    let mut m = Mover::move_to(&wanted(10.0, 0.0, 250.0), d(250.0), true, false);
    let mut answers = 0;
    loop {
        match m.request() {
            MoveCall::ReadTcp => m.on_tcp(0, &here).unwrap(),
            MoveCall::ReadPoseFile => panic!("there is no file"),
            MoveCall::LoadBase => m.on_base(&here),
            MoveCall::Aim { .. } => m.on_aim(&tran(10.0, 0.0, 250.0), None, None, None),
            MoveCall::Turn { .. } => m.on_turn(d(0.0), d(0.0), d(0.0)),
            MoveCall::ReadJoints if answers < 6 => m.on_joints(0, &joints(0.0)).unwrap(),
            MoveCall::ReadJoints => m.on_refreshed(0, &joints(0.0)).unwrap(),
            MoveCall::Sample { .. } => m.on_sample(&here),
            MoveCall::LinearMove { .. } => m.on_linear(&failed()),
            MoveCall::Solve { .. } => m.on_solution(&Some(joints(1.0))),
            MoveCall::JointMove { .. } => m.on_attempt(&failed()),
            MoveCall::ClearError => m.on_cleared(),
            // The robot creeps forward and never arrives.
            MoveCall::Land { .. } => {
                m.on_landed(0, &here, &gap(50.0), d(f64::from(answers) / 1000.0)).unwrap()
            }
            MoveCall::Split { .. } => m.on_split(d(1.0), d(0.5), &here),
            MoveCall::Report { .. } => {
                m.report_final(0, d(1.0)).unwrap();
            }
            MoveCall::Finished => break,
        }
        answers += 1;
        assert!(answers <= 264);
    }
    assert!(answers > 120);
}

/// A move by an offset up to the search.
fn based(offset: &Wanted, here: &CartesianPose, sum: CartesianTran) -> BaseMover {
    let mut m = BaseMover::move_to(offset, d(250.0));
    assert!(matches!(m.request(), BaseCall::ReadTcp));
    m.on_tcp(0, here).unwrap();
    assert!(matches!(m.request(), BaseCall::LoadBase));
    m.on_base(&pose(0.0, 0.0, 0.0));
    assert!(matches!(m.request(), BaseCall::Aim { .. }));
    m.on_aim(&sum, None, Some(d(1.5)), None);
    assert!(matches!(m.request(), BaseCall::ReadJoints));
    m.on_joints(0, &joints(0.0)).unwrap();
    m
}

#[test]
fn a_reachable_offset_is_moved_to() {
    let mut m = based(&wanted(1.0, 2.0, 3.0), &pose(0.0, 0.0, 300.0), tran(1.0, 2.0, 303.0));
    match m.request() {
        BaseCall::CheckPath { parts, to, .. } => {
            assert_eq!(parts, 1048576);
            assert_eq!((f(to.rpy.rx), f(to.rpy.ry)), (0.5, 1.5));
        }
        _ => panic!("expected a path check"),
    }
    m.on_path(true);
    match m.request() {
        BaseCall::Measure { goal, .. } => assert_eq!(goal, Goal::Target),
        _ => panic!("expected a measure"),
    }
    // Near or not, the target itself is moved to.
    assert!(!m.on_measured(&pose(7.0, 7.0, 7.0), d(0.5)));
    match m.request() {
        BaseCall::LinearMove { target, mode, speed, acc, tol, block } => {
            assert_eq!(target, m.target);
            assert_eq!((mode, f(speed)), (MoveMode::Abs, 250.0));
            assert_eq!((f(acc), f(tol), block), (500.0, 0.0, true));
        }
        _ => panic!("expected a linear move"),
    }
    m.on_linear(&ok()).unwrap();
    assert!(matches!(m.request(), BaseCall::ReadFinal));
    m.on_final(0).unwrap();
    assert!(matches!(m.request(), BaseCall::Finished));
}

#[test]
fn an_unreachable_offset_is_clamped() {
    let mut m = based(&wanted(1.0, 2.0, 3.0), &pose(0.0, 0.0, 300.0), tran(100.0, 0.0, 300.0));
    while let BaseCall::CheckPath { parts, .. } = m.request() {
        m.on_path(parts <= 524288);
    }
    match m.request() {
        BaseCall::Measure { goal, .. } => assert_eq!(goal, Goal::Part { parts: 524288 }),
        _ => panic!("expected a measure"),
    }
    let mut near = m;
    assert!(!m.on_measured(&pose(50.0, 0.0, 300.0), d(50.0)));
    match m.request() {
        BaseCall::LinearMove { target, .. } => assert_eq!(f(target.tran.x), 50.0),
        _ => panic!("expected a linear move"),
    }
    assert_eq!(
        m.on_linear(&failed()),
        Err("Motion failed with error code -12: Motion abnormal".to_string())
    );
    assert!(near.on_measured(&pose(0.5, 0.0, 300.0), d(0.5)));
    assert!(matches!(near.request(), BaseCall::Finished));
}

#[test]
fn a_robot_at_the_boundary_stays() {
    let here = pose(0.0, 0.0, 300.0);
    let mut m = based(&wanted(1.0, 2.0, 3.0), &here, tran(100.0, 0.0, 300.0));
    let mut checks = 0;
    while let BaseCall::CheckPath { .. } = m.request() {
        m.on_path(false);
        checks += 1;
    }
    assert_eq!(checks, 21);
    match m.request() {
        BaseCall::Measure { goal, .. } => assert_eq!(goal, Goal::Stay),
        _ => panic!("expected a measure"),
    }
    assert!(m.on_measured(&here, d(0.0)));
    assert!(matches!(m.request(), BaseCall::Finished));
}

#[test]
fn failed_reads_end_an_offset_move() {
    let mut m = BaseMover::move_to(&wanted(0.0, 0.0, 0.0), d(250.0));
    assert_eq!(
        m.on_tcp(-1, &pose(0.0, 0.0, 0.0)),
        Err("Read TCP position failed with error code -1: Invalid handler".to_string())
    );
    let mut m = based(&wanted(1.0, 2.0, 3.0), &pose(0.0, 0.0, 300.0), tran(1.0, 2.0, 303.0));
    m.on_path(true);
    m.on_measured(&pose(0.0, 0.0, 0.0), d(3.0));
    m.on_linear(&Outcome::Interrupted).unwrap();
    assert_eq!(
        m.on_final(-7),
        Err("Read final TCP position failed with error code -7: Not enabled".to_string())
    );
}
