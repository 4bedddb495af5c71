use jaka_cli::command::{missing_position, move_request, Command};
use jaka_cli::drive::{clamp_joint_speed, drive, restore, rot, FollowUp, Run};
use jaka_cli::number::Double;
use jaka_cli::power::{ensure_powered_enabled, estop_clear, estop_verdict, power_off};
use jaka_cli::sdk::{MoveMode, RobotState};
use jaka_cli::steps::Step;

fn d(x: f64) -> Double {
    Double { bits: x.to_bits() }
}

fn f(x: Double) -> f64 {
    f64::from_bits(x.bits)
}

fn state(estoped: i32, powered_on: i32, servo_enabled: i32) -> RobotState {
    RobotState { estoped, powered_on, servo_enabled }
}

fn labels(steps: &Vec<Step>) -> Vec<String> {
    steps.iter().map(|s| s.label()).collect()
}

fn move_command() -> Command {
    Command::MoveTo {
        x: None,
        y: None,
        z: None,
        speed: d(100.0),
        rx: None,
        ry: None,
        rz: None,
        rel: false,
        pose: None,
    }
}

#[test]
fn powering_up_skips_what_is_done() {
    assert_eq!(labels(&ensure_powered_enabled(&state(0, 0, 0))), ["Power on", "Enable robot"]);
    assert_eq!(labels(&ensure_powered_enabled(&state(0, 1, 0))), ["Enable robot"]);
    assert!(ensure_powered_enabled(&state(0, 1, 1)).is_empty());
}

#[test]
fn powering_down_skips_what_is_done() {
    assert_eq!(labels(&power_off(&state(0, 1, 1))), ["Disable servos", "Power off"]);
    assert_eq!(labels(&power_off(&state(0, 1, 0))), ["Power off"]);
    assert!(power_off(&state(0, 0, 0)).is_empty());
}

#[test]
fn the_estop_is_checked_cleared_and_checked() {
    assert_eq!(
        labels(&estop_clear()),
        ["Check e-stop state", "Clear error state", "Re-check e-stop state"]
    );
    assert_eq!(estop_verdict(0), Ok(()));
    assert_eq!(
        estop_verdict(1),
        Err(
            "E-stop is still active. Release the physical button first, then run estop-clear again"
                .to_string()
        )
    );
}

#[test]
fn joint_speeds_are_clamped() {
    assert_eq!(f(clamp_joint_speed(d(5.0))), 3.14);
    assert_eq!(f(clamp_joint_speed(d(0.001))), 0.01);
    assert_eq!(f(clamp_joint_speed(d(-1.0))), 0.01);
    assert_eq!(f(clamp_joint_speed(d(1.5))), 1.5);
    assert!(f(clamp_joint_speed(d(f64::NAN))).is_nan());
}

#[test]
fn a_rotation_moves_one_joint() {
    let steps = rot(3, d(1.25), d(9.0));
    assert_eq!(
        labels(&steps),
        ["Read joint position", "Motion", "Read final joint position"]
    );
    match steps[1] {
        Step::JointMove { target, mode, speed, acc, tol, block } => {
            assert_eq!((f(acc), f(tol), block), (1.0, 0.0, true));
            let j: Vec<f64> = target.j_val.iter().map(|v| f(*v)).collect();
            assert_eq!(j, [0.0, 0.0, 1.25, 0.0, 0.0, 0.0]);
            assert_eq!(mode, MoveMode::Incr);
            assert_eq!(f(speed), 3.14);
        }
        _ => panic!("expected a joint move"),
    }
}

#[test]
fn restoring_moves_all_joints() {
    let angles: Vec<Double> = [0.1, 0.2, 0.3, 0.4, 0.5, 0.6].iter().map(|v| d(*v)).collect();
    let steps = restore(&angles, d(0.5)).unwrap();
    assert_eq!(
        labels(&steps),
        ["Read joint position", "Motion", "Read final joint position"]
    );
    match steps[1] {
        Step::JointMove { target, mode, speed, acc, tol, block } => {
            assert_eq!((f(acc), f(tol), block), (1.0, 0.0, true));
            assert_eq!(target.j_val.to_vec(), angles);
            assert_eq!(mode, MoveMode::Abs);
            assert_eq!(f(speed), 0.5);
        }
        _ => panic!("expected a joint move"),
    }
}

#[test]
fn restoring_needs_six_joints() {
    let angles = vec![d(0.0); 5];
    assert_eq!(
        restore(&angles, d(1.0)).unwrap_err(),
        "joints must contain 6 values, got 5"
    );
}

#[test]
fn reading_commands_make_their_call() {
    let st = state(1, 0, 0);
    let cases = vec![
        (Command::Status, "Read joint position", FollowUp::ReportStatus),
        (Command::Inspect, "Read joint position", FollowUp::PrintJoints),
        (Command::InspectPos, "Read TCP position", FollowUp::PrintPose),
        (Command::Dh, "Read DH parameters", FollowUp::PrintDh),
        (Command::SetBase, "Read TCP position", FollowUp::SaveBase),
    ];
    for (command, label, follow_up) in cases {
        let plan = drive(&command, &st).unwrap();
        assert_eq!(labels(&plan.steps), [label]);
        assert_eq!(plan.follow_up, follow_up);
    }
}

#[test]
fn the_estop_refuses_motion_and_power() {
    let pressed = state(1, 1, 1);
    let message = "E-stop is pressed. Release the button physically, then run estop-clear";
    let refused = vec![
        Command::PowerOn,
        Command::Rot { joint: 1, deg: d(10.0), speed: d(1.0) },
        Command::Restore { file: None, speed: d(1.0) },
        move_command(),
    ];
    for command in refused {
        assert_eq!(drive(&command, &pressed).unwrap_err(), message);
    }
    let plan = drive(&Command::PowerOff, &pressed).unwrap();
    assert_eq!(labels(&plan.steps), ["Disable servos", "Power off"]);
    let plan = drive(&Command::EstopClear, &pressed).unwrap();
    assert_eq!(plan.steps.len(), 3);
    assert_eq!(plan.follow_up, FollowUp::JudgeEstop);
    assert!(drive(&Command::Status, &pressed).is_ok());
}

#[test]
fn motion_commands_power_up_first() {
    let off = state(0, 0, 0);
    let cases = vec![
        (Command::PowerOn, FollowUp::Finish),
        (Command::Rot { joint: 1, deg: d(10.0), speed: d(1.0) }, FollowUp::Rotate),
        (Command::Restore { file: None, speed: d(1.0) }, FollowUp::Restore),
        (move_command(), FollowUp::MissingPosition),
    ];
    for (command, follow_up) in cases {
        let plan = drive(&command, &off).unwrap();
        assert_eq!(labels(&plan.steps), ["Power on", "Enable robot"]);
        assert_eq!(plan.follow_up, follow_up);
    }
}

#[test]
fn a_move_follows_its_calls() {
    let command = |z: Option<f64>, pose: Option<&str>| Command::MoveTo {
        x: Some(d(1.0)),
        y: Some(d(2.0)),
        z: z.map(d),
        speed: d(100.0),
        rx: None,
        ry: Some(d(90.0)),
        rz: None,
        rel: false,
        pose: pose.map(|p| p.to_string()),
    };
    let st = state(0, 1, 1);
    let wanted =
        move_request(Some(d(1.0)), Some(d(2.0)), Some(d(3.0)), None, Some(d(90.0)), None, false)
            .unwrap();
    let plan = drive(&command(Some(3.0), None), &st).unwrap();
    assert!(plan.steps.is_empty());
    assert_eq!(plan.follow_up, FollowUp::MoveTo { wanted });
    let plan = drive(&command(None, None), &st).unwrap();
    assert_eq!(plan.follow_up, FollowUp::MissingPosition);
    assert_eq!(missing_position(), "x, y, z are required unless --pose is given");
    let plan = drive(&command(None, Some("p.json")), &st).unwrap();
    assert!(matches!(plan.follow_up, FollowUp::MoveTo { .. }));
}

#[test]
fn tool_outputs_are_switched_in_any_state() {
    for st in [state(0, 0, 0), state(1, 1, 1)] {
        let plan = drive(&Command::Tool { index: 1, on: true }, &st).unwrap();
        assert_eq!(plan.steps.len(), 1);
        assert!(matches!(plan.steps[0], Step::SetTool { index: 1, on: true }));
        assert_eq!(plan.follow_up, FollowUp::Finish);
    }
}

#[test]
fn serving_is_no_drive_command() {
    let command = Command::Serve { port: 5533, mock: false };
    assert_eq!(drive(&command, &state(0, 0, 0)).unwrap_err(), "serve is not a drive command");
}

#[test]
fn a_move_needs_a_position_or_a_file() {
    let missing = move_request(Some(d(1.0)), None, Some(d(3.0)), None, None, None, false);
    assert_eq!(missing.unwrap_err(), "x, y, z are required unless --pose is given");
    let w = move_request(Some(d(1.0)), Some(d(2.0)), Some(d(3.0)), None, Some(d(90.0)), None, false)
        .unwrap();
    assert_eq!((f(w.tran.x), f(w.tran.y), f(w.tran.z)), (1.0, 2.0, 3.0));
    assert_eq!((w.rx, w.ry, w.rz), (None, Some(d(90.0)), None));
    let w = move_request(Some(d(1.0)), None, None, None, None, None, true).unwrap();
    assert_eq!((f(w.tran.x), f(w.tran.y), f(w.tran.z)), (0.0, 0.0, 0.0));
}

#[test]
fn a_run_always_disconnects() {
    let run = Run::run("10.5.5.100", &Command::Status);
    assert!(matches!(run, Run::Connect));
    let run = run.on_connect(0);
    assert!(matches!(run, Run::Operate));
    let run = run.on_operated(Err("Motion failed".to_string()));
    assert!(matches!(run, Run::Disconnect { .. }));
    match run.on_disconnect() {
        Run::Done { result } => assert_eq!(result, Err("Motion failed".to_string())),
        _ => panic!("expected the end"),
    }
}

#[test]
fn a_failed_connection_ends_the_run() {
    match Run::run("10.5.5.100", &Command::Status).on_connect(-3) {
        Run::Done { result } => assert_eq!(
            result,
            Err("Connect controller failed with error code -3: Connection failed".to_string())
        ),
        _ => panic!("expected the end"),
    }
}

#[test]
fn an_address_holds_no_null_character() {
    match Run::run("10.5\0.5", &Command::Status) {
        Run::Done { result } => {
            assert_eq!(result, Err("IP contains invalid characters".to_string()))
        }
        _ => panic!("expected the end"),
    }
}

#[test]
fn the_mock_server_needs_no_connection() {
    let run = Run::run("10.5\0.5", &Command::Serve { port: 1, mock: true });
    assert!(matches!(run, Run::Offline));
    match run.on_operated(Ok(())) {
        Run::Done { result } => assert_eq!(result, Ok(())),
        _ => panic!("expected the end"),
    }
    assert!(matches!(
        Run::run("10.5.5.100", &Command::Serve { port: 1, mock: false }),
        Run::Connect
    ));
}
