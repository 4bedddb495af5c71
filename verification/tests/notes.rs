use jaka_cli::command::Command;
use jaka_cli::kinematics::{Goal, PathCheck};
use jaka_cli::move_to::{Mover, Purpose, Stage, Wanted};
use jaka_cli::notes::{base_notes, done_notes, drive_notes, notes, power_up_notes, MoveTexts};
use jaka_cli::number::Double;
use jaka_cli::plan::{Level, LogLine};
use jaka_cli::sdk::{CartesianPose, JointValue, RobotState};
use jaka_cli::steps::Step;

fn d(x: f64) -> Double {
    Double { bits: x.to_bits() }
}

fn shown() -> MoveTexts {
    MoveTexts {
        speed: "250".to_string(),
        x: "1.0".to_string(),
        y: "2.0".to_string(),
        z: "3.0".to_string(),
        rx: "10".to_string(),
        ry: "20".to_string(),
        rz: "30".to_string(),
    }
}

fn at_height(z: f64) -> CartesianPose {
    let mut p = CartesianPose::zero();
    p.tran.z = d(z);
    p
}

fn mover(stage: Stage, target_z: f64) -> Mover {
    let wanted = Wanted { tran: at_height(target_z).tran, rx: None, ry: None, rz: None };
    let mut m = Mover::move_to(&wanted, d(250.0), false, false);
    m.target = at_height(target_z);
    m.stage = stage;
    m
}

fn texts(lines: Vec<LogLine>) -> Vec<String> {
    lines
        .into_iter()
        .map(|l| match l.level {
            Level::Info => l.text,
            Level::Warn => format!("warn: {}", l.text),
            Level::Error => format!("error: {}", l.text),
        })
        .collect()
}

fn told(before: Stage, after: Stage, z: f64) -> Vec<String> {
    texts(notes(&before, &mover(after, z), &shown()))
}

fn path() -> Stage {
    Stage::CheckPath { check: PathCheck::path_clear(true) }
}

fn state(powered_on: i32, servo_enabled: i32) -> RobotState {
    RobotState { estoped: 0, powered_on, servo_enabled }
}

#[test]
fn the_target_is_told_before_the_path() {
    let target = "Target TCP in mm: x=1.0, y=2.0, z=3.0";
    assert_eq!(told(Stage::ReadJoints { jump: false }, path(), 200.0), [target]);
    let direct = Stage::Solve { aim: at_height(200.0), purpose: Purpose::Direct };
    assert_eq!(
        told(Stage::ReadJoints { jump: true }, direct, 200.0),
        [target, "Large orientation change, using a joint move"]
    );
    assert_eq!(
        told(Stage::ReadJoints { jump: true }, Stage::Split, 20.0),
        [
            target,
            "Large orientation change, using a joint move",
            "warn: Target z is below the safe height, skipping the direct move",
            "Target is unreachable, probing the reachable point closest to it"
        ]
    );
}

#[test]
fn the_verdict_on_the_path_is_told() {
    assert!(told(path(), path(), 200.0).is_empty());
    assert_eq!(told(path(), Stage::Linear, 200.0), ["Moving linearly at 250 mm/s"]);
    let direct = Stage::Solve { aim: at_height(200.0), purpose: Purpose::Direct };
    assert_eq!(
        told(path(), direct, 200.0),
        ["Straight path is blocked, using a joint move"]
    );
}

#[test]
fn the_ends_of_a_move_are_told() {
    let goal = at_height(200.0);
    let report = Stage::Report { goal };
    let probe = Purpose::Probe { mid: d(0.5) };
    let mirrored = Stage::Land { aim: goal, purpose: Purpose::Mirrored };
    assert_eq!(
        told(mirrored, report, 200.0),
        ["Target orientation is not reachable, using the mirrored orientation rx=10, ry=20, rz=30"]
    );
    assert!(told(Stage::Linear, report, 200.0).is_empty());
    for before in [Stage::Split, Stage::Solve { aim: goal, purpose: probe }, Stage::Refresh { purpose: probe }] {
        assert_eq!(
            told(before, report, 200.0),
            [
                "warn: Target is out of the workspace, clamped to the nearest reachable point",
                "Clamped TCP in mm: x=1.0, y=2.0, z=3.0"
            ]
        );
        assert_eq!(
            told(before, Stage::Done, 200.0),
            ["Already at the workspace boundary, nothing to move"]
        );
        assert!(told(before, Stage::Split, 200.0).is_empty());
    }
    let attempt = Stage::Attempt { aim: goal, purpose: Purpose::Direct, joint: JointValue::zero() };
    assert!(told(attempt, Stage::Land { aim: goal, purpose: Purpose::Direct }, 200.0).is_empty());
    assert!(told(report, Stage::Done, 200.0).is_empty());
}

#[test]
fn the_goal_of_an_offset_move_is_told() {
    assert_eq!(
        texts(base_notes(&Goal::Stay, true, &shown())),
        ["Already at the workspace boundary, nothing to move"]
    );
    let lines = ["Target TCP in mm: x=1.0, y=2.0, z=3.0", "Moving linearly at 250 mm/s"];
    assert_eq!(texts(base_notes(&Goal::Target, false, &shown())), lines);
    assert_eq!(
        texts(base_notes(&Goal::Part { parts: 5000 }, false, &shown())),
        [
            "warn: Target is out of the workspace, clamped to the nearest reachable point",
            lines[0],
            lines[1]
        ]
    );
}

#[test]
fn what_is_done_already_is_told() {
    let on = power_up_notes(&state(1, 1));
    assert_eq!(texts(on.before), ["Already powered on"]);
    assert_eq!(texts(on.after), ["Already enabled"]);
    let off = power_up_notes(&state(0, 0));
    assert!(off.before.is_empty() && off.after.is_empty());
    let up = drive_notes(&Command::PowerOn, &state(1, 0));
    assert_eq!(texts(up.before), ["Already powered on"]);
    assert!(up.after.is_empty());
    let down = drive_notes(&Command::PowerOff, &state(0, 0));
    assert!(down.before.is_empty());
    assert_eq!(texts(down.after), ["Already powered off"]);
    let read = drive_notes(&Command::Status, &state(1, 1));
    assert!(read.before.is_empty() && read.after.is_empty());
}

#[test]
fn calls_that_succeeded_are_told() {
    let cases = vec![
        (Step::PowerOn, 0, vec!["Powered on"]),
        (Step::EnableRobot, 0, vec!["Enabled"]),
        (Step::DisableServos, 0, vec!["Servos disabled"]),
        (Step::PowerOff, 0, vec!["Powered off"]),
        (Step::ClearError, 1, vec!["Error state cleared"]),
        (Step::CheckEstop, 0, vec![]),
        (
            Step::CheckEstop,
            1,
            vec![
                "warn: E-stop is still active. Twist and pull the e-stop button to release it physically",
            ],
        ),
        (
            Step::RecheckEstop,
            0,
            vec!["E-stop released. Run power-on to bring the robot back"],
        ),
        (Step::RecheckEstop, 1, vec![]),
        (Step::ReadJoints, 0, vec![]),
    ];
    for (step, flag, expected) in cases {
        assert_eq!(texts(done_notes(&step, flag)), expected);
    }
}
