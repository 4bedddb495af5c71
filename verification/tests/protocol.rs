use jaka_cli::jog::{clamp_vel, jog_axes, stop_jog};
use jaka_cli::number::Double;
use jaka_cli::protocol::{
    bind_failure, exec_mock, handle_client, handle_proto, parse_proto, serve, status_text, ClientAction,
    ClientEvent, MockState, ProtoCmd, RealExec, Rendered, ServeAction, ServeEvent, FRAME,
};
use jaka_cli::sdk::{CoordType, JointValue, MoveMode, RobotState};
use jaka_cli::steps::{Outcome, Step};

fn d(x: f64) -> Double {
    Double { bits: x.to_bits() }
}

fn f(x: Double) -> f64 {
    f64::from_bits(x.bits)
}

fn six(v: [f64; 6]) -> [Double; 6] {
    v.map(d)
}

fn parse(line: &str) -> Result<ProtoCmd, String> {
    let numbers = line.split_whitespace().map(|w| w.parse::<f64>().ok().map(d)).collect();
    parse_proto(line, &numbers)
}

fn number(x: f64) -> String {
    serde_json::to_string(&x).unwrap()
}

fn rendered(st: &MockState) -> Rendered {
    Rendered {
        joints: st.joints.iter().map(|v| number(f(*v))).collect(),
        head_pos: st.head[..3].iter().map(|v| number(f(*v))).collect(),
    }
}

fn run(st: &mut MockState, cmd: ProtoCmd) -> Result<String, String> {
    let mut frame = st.head;
    if let ProtoCmd::Vel(dx, dy, dz, drx, dry, drz) = cmd {
        for (h, v) in frame.iter_mut().zip([dx, dy, dz, drx, dry, drz]) {
            *h = d(f(*h) + f(v) * f(Double { bits: FRAME }));
        }
    }
    let shown = rendered(st);
    exec_mock(st, &cmd, &frame, &shown)
}

fn vel(v: [f64; 6]) -> ProtoCmd {
    ProtoCmd::Vel(d(v[0]), d(v[1]), d(v[2]), d(v[3]), d(v[4]), d(v[5]))
}

fn home() -> JointValue {
    JointValue { j_val: six([0.0, 1.5, -1.5, 0.0, -1.5, 0.0]) }
}

fn ready() -> RobotState {
    RobotState { estoped: 0, powered_on: 1, servo_enabled: 1 }
}

fn off() -> RobotState {
    RobotState { estoped: 0, powered_on: 0, servo_enabled: 0 }
}

fn pressed() -> RobotState {
    RobotState { estoped: 1, powered_on: 1, servo_enabled: 1 }
}

/// Runs a command with calls that all succeed, and says which calls it made.
fn run_real(
    cmd: ProtoCmd,
    last: [Double; 6],
    st: RobotState,
    flag: i32,
) -> (Vec<String>, Result<String, String>, [Double; 6]) {
    let mut exec = RealExec::exec_real(&cmd, &last, &home());
    let mut calls = Vec::new();
    while let Some(step) = exec.current() {
        calls.push(step.label());
        if let Err(e) = exec.record(&Outcome::Returned { code: 0 }, &st, flag) {
            return (calls, Err(e), exec.axis_velocities());
        }
    }
    let shown = Rendered { joints: vec!["1.0".to_string()], head_pos: vec!["2.0".to_string()] };
    (calls, Ok(exec.reply(&shown)), exec.axis_velocities())
}

#[test]
fn parse_vel_command() {
    match parse("vel 10 -5 2.5 0 0 -15").unwrap() {
        ProtoCmd::Vel(dx, dy, dz, drx, dry, drz) => {
            assert_eq!((f(dx), f(dy), f(dz)), (10.0, -5.0, 2.5));
            assert_eq!((f(drx), f(dry), f(drz)), (0.0, 0.0, -15.0));
        }
        _ => panic!("expected vel"),
    }
}

#[test]
fn parse_simple_commands() {
    assert!(matches!(parse("estop-clear").unwrap(), ProtoCmd::EstopClear));
    assert!(matches!(parse("poweron").unwrap(), ProtoCmd::PowerOn));
    assert!(matches!(parse("poweroff").unwrap(), ProtoCmd::PowerOff));
    assert!(matches!(parse("reset").unwrap(), ProtoCmd::Reset));
    assert!(matches!(parse("status").unwrap(), ProtoCmd::Status));
}

#[test]
fn parse_rejects_bad_lines() {
    assert!(parse("").is_err());
    assert!(parse("vel 1 2").is_err());
    assert!(parse("vel a b c d e f").is_err());
    assert!(parse("move 1 2 3").is_err());
}

#[test]
fn mock_state_moves_and_reports() {
    let mut st = MockState::new();
    assert!(run(&mut st, ProtoCmd::PowerOn).is_ok());
    assert!(st.powered && st.enabled);
    assert!(run(&mut st, vel([10.0, -5.0, 0.0, 0.0, 0.0, 0.0])).is_ok());
    assert_eq!(f(st.head[0]), -50.1 + 0.5);
    assert_eq!(f(st.head[1]), -6.0 - 0.25);
    assert!(run(&mut st, vel([0.0, 0.0, 0.0, 0.0, 0.0, 15.0])).is_ok());
    assert_eq!(f(st.head[5]), 0.75);
    let reply = run(&mut st, ProtoCmd::Status).unwrap();
    assert!(reply.contains("\"powered\":true"));
    assert!(run(&mut st, ProtoCmd::Reset).is_ok());
    assert_eq!(f(st.head[0]), -50.1);
}

#[test]
fn bad_lines_are_explained() {
    assert_eq!(parse(" \t ").unwrap_err(), "empty line");
    assert_eq!(parse("vel 1 2").unwrap_err(), "vel expects 6 numbers");
    assert_eq!(parse("vel 1 2 3 4 5 6 7").unwrap_err(), "vel expects 6 numbers");
    assert_eq!(parse("vel 1 2 3 4 5 x").unwrap_err(), "vel expects numeric arguments");
    for line in [
        "do",
        "do tool 0",
        "do cabinet 0 on",
        "do tool 0 up",
        "do tool -1 on",
        "do tool 4294967296 on",
        "do tool 0 on now",
    ] {
        assert_eq!(
            parse(line).unwrap_err(),
            "do expects tool, an output number and on or off",
            "{line}"
        );
    }
    assert_eq!(parse("VEL 1 2 3 4 5 6").unwrap_err(), "unknown command: VEL");
}

#[test]
fn extra_words_are_ignored_but_for_velocities() {
    assert_eq!(parse("  poweron  now "), Ok(ProtoCmd::PowerOn));
    assert_eq!(parse("status 1 2 3"), Ok(ProtoCmd::Status));
    assert_eq!(parse("vel\t1\u{a0}2 3 4 5 6e1"), Ok(vel([1.0, 2.0, 3.0, 4.0, 5.0, 60.0])));
}

#[test]
fn mock_starts_at_home_without_power() {
    let st = MockState::new();
    assert!(!st.powered && !st.enabled && !st.estop);
    assert_eq!(st.head.map(f), [-50.1, -6.0, 396.8, 0.0, 90.0, 0.0]);
    assert_eq!(st.joints.map(f), [0.0, 90.0, -90.0, 0.0, -90.0, 0.0]);
}

#[test]
fn mock_power_and_estop() {
    let mut st = MockState::new();
    st.estop = true;
    assert_eq!(run(&mut st, ProtoCmd::PowerOn), Ok("ok\n".to_string()));
    assert!(st.powered && st.enabled && st.estop);
    assert_eq!(run(&mut st, ProtoCmd::EstopClear), Ok("ok\n".to_string()));
    assert!(st.powered && st.enabled && !st.estop);
    assert_eq!(run(&mut st, ProtoCmd::PowerOff), Ok("ok\n".to_string()));
    assert!(!st.powered && !st.enabled);
    st.head[0] = d(1.0);
    st.estop = true;
    assert_eq!(run(&mut st, ProtoCmd::Reset), Ok("ok\n".to_string()));
    assert!(st.powered && st.enabled && !st.estop);
    assert_eq!(f(st.head[0]), -50.1);
}

#[test]
fn a_reset_state_is_a_new_one() {
    let mut st = MockState::new();
    st.powered = true;
    st.head[2] = d(5.0);
    st.reset();
    assert!(!st.powered);
    assert_eq!(f(st.head[2]), 396.8);
}

#[test]
fn status_is_one_json_line() {
    let st = MockState::new();
    let shown = rendered(&st);
    assert_eq!(
        st.status_json(&shown),
        "status {\"enabled\":false,\"estop\":false,\"head_pos\":[-50.1,-6.0,396.8],\
         \"joints\":[0.0,90.0,-90.0,0.0,-90.0,0.0],\"powered\":false}\n"
    );
}

#[test]
fn status_is_what_serde_json_writes() {
    let st = MockState::new();
    let joints: Vec<f64> = st.joints.iter().map(|v| f(*v)).collect();
    let head: Vec<f64> = st.head[..3].iter().map(|v| f(*v)).collect();
    let mut map = serde_json::Map::new();
    map.insert("estop".to_string(), serde_json::Value::from(true));
    map.insert("powered".to_string(), serde_json::Value::from(false));
    map.insert("enabled".to_string(), serde_json::Value::from(true));
    map.insert("joints".to_string(), serde_json::Value::from(joints));
    map.insert("head_pos".to_string(), serde_json::Value::from(head));
    let expected = format!("status {}\n", serde_json::Value::Object(map));
    assert_eq!(status_text(true, false, true, &rendered(&st)), expected);
}

#[test]
fn velocities_are_clamped() {
    let v = clamp_vel(&six([150.0, -150.0, 99.0, 31.0, -31.0, f64::NEG_INFINITY]));
    assert_eq!(v.map(f), [100.0, -100.0, 99.0, 30.0, -30.0, -30.0]);
    assert!(f(clamp_vel(&six([f64::NAN, 0.0, 0.0, 0.0, 0.0, 0.0]))[0]).is_nan());
}

#[test]
fn axes_that_fall_to_zero_are_stopped() {
    let last = six([10.0, 5.0, 0.0, 0.0, 0.0, 3.0]);
    let plan = jog_axes(&last, &six([0.0, 200.0, 0.0, -10.0, 0.0, 3.0]));
    assert_eq!(plan.velocities.map(f), [0.0, 100.0, 0.0, -10.0, 0.0, 3.0]);
    let labels: Vec<String> = plan.steps.iter().map(|s| s.label()).collect();
    assert_eq!(labels, ["Stop jog axis 0", "Jog axis 1", "Jog axis 3", "Jog axis 5"]);
    match plan.steps[2] {
        Step::Jog { axis, mode, coord, velocity, position, angular } => {
            assert_eq!(f(position), 0.0);
            assert_eq!((axis, mode, coord), (3, MoveMode::Continue, CoordType::Base));
            assert_eq!(f(velocity), -10.0);
            assert!(angular);
        }
        _ => panic!("expected a jog"),
    }
    assert!(matches!(plan.steps[1], Step::Jog { angular: false, .. }));
}

#[test]
fn stopping_stops_the_moving_axes() {
    let plan = stop_jog(&six([0.0, -1.0, 0.0, -0.0, 2.0, 0.0]));
    let labels: Vec<String> = plan.steps.iter().map(|s| s.label()).collect();
    assert_eq!(labels, ["Stop jog axis 1", "Stop jog axis 4"]);
    assert_eq!(plan.velocities.map(f), [0.0; 6]);
}

#[test]
fn a_velocity_is_remembered_once_all_calls_succeeded() {
    let (calls, reply, now) =
        run_real(vel([10.0, 0.0, 0.0, 0.0, 0.0, 5.0]), six([0.0; 6]), ready(), 0);
    assert_eq!(calls, ["Jog axis 0", "Jog axis 5"]);
    assert_eq!(reply, Ok("ok\n".to_string()));
    assert_eq!(now.map(f), [10.0, 0.0, 0.0, 0.0, 0.0, 5.0]);
}

#[test]
fn a_failed_jog_keeps_the_old_velocities() {
    let last = six([1.0, 0.0, 0.0, 0.0, 0.0, 0.0]);
    let cmd = vel([2.0, 3.0, 0.0, 0.0, 0.0, 0.0]);
    let mut exec = RealExec::exec_real(&cmd, &last, &home());
    assert_eq!(exec.record(&Outcome::Returned { code: 0 }, &ready(), 0), Ok(()));
    assert_eq!(
        exec.record(&Outcome::Returned { code: -7 }, &ready(), 0),
        Err("Jog axis 1 failed with error code -7: Not enabled".to_string())
    );
    assert_eq!(exec.axis_velocities().map(f), [1.0, 0.0, 0.0, 0.0, 0.0, 0.0]);
}

#[test]
fn an_axis_that_moves_is_not_forgotten_after_an_error() {
    let cmd = vel([10.0, 10.0, 0.0, 0.0, 0.0, 0.0]);
    let last = six([0.0, 0.0, 5.0, 0.0, 0.0, 0.0]);
    let mut exec = RealExec::exec_real(&cmd, &last, &home());
    exec.record(&Outcome::Returned { code: 0 }, &ready(), 0).unwrap();
    exec.record(&Outcome::Returned { code: -7 }, &ready(), 0).unwrap_err();
    let moving = exec.moving_velocities();
    assert_eq!(moving.map(f), [10.0, 10.0, 5.0, 0.0, 0.0, 0.0]);
    match handle_client(&ClientEvent::Closed, &moving, true) {
        ClientAction::Stop { stops } => {
            let labels: Vec<String> = stops.iter().map(|s| s.label()).collect();
            assert_eq!(labels, ["Stop jog axis 0", "Stop jog axis 1", "Stop jog axis 2"]);
        }
        _ => panic!("expected the end"),
    }
}

#[test]
fn after_a_settled_command_only_its_velocities_count() {
    let last = six([0.0, 0.0, 5.0, 0.0, 0.0, 0.0]);
    let mut exec = RealExec::exec_real(&ProtoCmd::PowerOn, &last, &home());
    exec.record(&Outcome::Returned { code: 0 }, &ready(), 0).unwrap();
    exec.record(&Outcome::Returned { code: -1 }, &ready(), 0).unwrap_err();
    assert_eq!(exec.moving_velocities().map(f), [0.0; 6]);
    assert_eq!(exec.axis_velocities().map(f), [0.0; 6]);
}

#[test]
fn power_on_stops_the_axes_first() {
    let last = six([0.0, 0.0, 7.0, 0.0, 0.0, 0.0]);
    let (calls, reply, now) = run_real(ProtoCmd::PowerOn, last, off(), 0);
    assert_eq!(calls, ["Stop jog axis 2", "Read state", "Power on", "Enable robot"]);
    assert_eq!(reply, Ok("ok\n".to_string()));
    assert_eq!(now.map(f), [0.0; 6]);
}

#[test]
fn power_off_takes_the_robot_down() {
    let (calls, reply, _) = run_real(ProtoCmd::PowerOff, six([0.0; 6]), pressed(), 0);
    assert_eq!(calls, ["Read state", "Disable servos", "Power off"]);
    assert_eq!(reply, Ok("ok\n".to_string()));
}

#[test]
fn reset_powers_up_and_goes_home() {
    let (calls, reply, _) = run_real(ProtoCmd::Reset, six([0.0; 6]), off(), 0);
    assert_eq!(
        calls,
        [
            "Read state",
            "Power on",
            "Enable robot",
            "Read joint position",
            "Motion",
            "Read final joint position"
        ]
    );
    assert_eq!(reply, Ok("ok\n".to_string()));
    let mut exec = RealExec::exec_real(&ProtoCmd::Reset, &six([0.0; 6]), &home());
    exec.record(&Outcome::Returned { code: 0 }, &ready(), 0).unwrap();
    exec.record(&Outcome::Returned { code: 0 }, &ready(), 0).unwrap();
    match exec.current() {
        Some(Step::JointMove { target, mode, speed, acc, tol, block }) => {
            assert_eq!((f(acc), f(tol), block), (1.0, 0.0, true));
            assert_eq!(target.j_val.map(f), home().j_val.map(f));
            assert_eq!(mode, MoveMode::Abs);
            assert_eq!(f(speed), 3.14);
        }
        _ => panic!("expected a joint move"),
    }
}

#[test]
fn the_estop_refuses_protocol_motion() {
    let message = "E-stop is pressed, release the button first".to_string();
    for cmd in [ProtoCmd::PowerOn, ProtoCmd::Reset] {
        let (calls, reply, _) = run_real(cmd, six([0.0; 6]), pressed(), 0);
        assert_eq!(calls, ["Read state"]);
        assert_eq!(reply, Err(message.clone()));
    }
}

#[test]
fn clearing_the_estop_reports_a_pressed_button() {
    let (calls, reply, _) = run_real(ProtoCmd::EstopClear, six([0.0; 6]), ready(), 0);
    assert_eq!(calls, ["Check e-stop state", "Clear error state", "Re-check e-stop state"]);
    assert_eq!(reply, Ok("ok\n".to_string()));
    let (_, reply, _) = run_real(ProtoCmd::EstopClear, six([0.0; 6]), ready(), 1);
    assert_eq!(
        reply,
        Err(
            "E-stop is still active. Release the physical button first, then run estop-clear again"
                .to_string()
        )
    );
}

#[test]
fn status_reads_and_leaves_the_axes_moving() {
    let last = six([4.0, 0.0, 0.0, 0.0, 0.0, 0.0]);
    let (calls, reply, now) = run_real(ProtoCmd::Status, last, pressed(), 0);
    assert_eq!(calls, ["Read state", "Read joint position", "Read TCP position"]);
    assert_eq!(
        reply,
        Ok(
            "status {\"enabled\":true,\"estop\":true,\"head_pos\":[2.0],\"joints\":[1.0],\"powered\":true}\n"
                .to_string()
        )
    );
    assert_eq!(now.map(f), [4.0, 0.0, 0.0, 0.0, 0.0, 0.0]);
}

#[test]
fn errors_are_answered_with_one_line() {
    assert_eq!(handle_proto(Ok("ok\n".to_string())), "ok\n");
    let reply = handle_proto(Err(parse("fly\naway").unwrap_err()));
    assert_eq!(reply, "err unknown command: fly\n");
    assert_eq!(reply.matches('\n').count(), 1);
}

#[test]
fn clients_are_read_line_by_line() {
    let blank = ClientEvent::Line { line: " \t\r".to_string() };
    let rest = six([0.0; 6]);
    assert!(matches!(handle_client(&blank, &rest, true), ClientAction::Wait));
    let line = ClientEvent::Line { line: "  status \r".to_string() };
    match handle_client(&line, &rest, true) {
        ClientAction::Run { line } => assert_eq!(line, "status"),
        _ => panic!("expected a command"),
    }
}

#[test]
fn however_a_client_leaves_its_axes_stop() {
    let last = six([0.0, 5.0, 0.0, 0.0, -1.0, 0.0]);
    let ends = vec![
        (ClientEvent::Closed, None),
        (
            ClientEvent::ReadFailed { reason: "reset".to_string() },
            Some("Read line failed: reset"),
        ),
        (
            ClientEvent::WriteFailed { reason: "gone".to_string() },
            Some("Write reply failed: gone"),
        ),
    ];
    for (event, expected) in ends {
        for robot in [true, false] {
            let (stops, message) = match handle_client(&event, &last, robot) {
                ClientAction::Stop { stops } => (stops, None),
                ClientAction::Fail { stops, message } => (stops, Some(message)),
                _ => panic!("expected the end"),
            };
            let labels: Vec<String> = stops.iter().map(|s| s.label()).collect();
            if robot {
                assert_eq!(labels, ["Stop jog axis 1", "Stop jog axis 4"]);
            } else {
                assert!(labels.is_empty());
            }
            assert_eq!(message.as_deref(), expected);
        }
    }
}

#[test]
fn tool_commands_switch_outputs() {
    assert_eq!(parse("do tool 0 on"), Ok(ProtoCmd::Tool { index: 0, on: true }));
    assert_eq!(parse(" do  tool 1 off "), Ok(ProtoCmd::Tool { index: 1, on: false }));
    let cmd = ProtoCmd::Tool { index: 1, on: true };
    let mut st = MockState::new();
    assert_eq!(run(&mut st, cmd), Ok("ok\n".to_string()));
    assert!(!st.powered);
    // The arm may be moving while an output is switched.
    let last = six([4.0, 0.0, 0.0, 0.0, 0.0, 0.0]);
    let (calls, reply, now) = run_real(cmd, last, ready(), 0);
    assert_eq!(calls, ["Set tool output 1"]);
    assert_eq!(reply, Ok("ok\n".to_string()));
    assert_eq!(now.map(f), [4.0, 0.0, 0.0, 0.0, 0.0, 0.0]);
}

#[test]
fn a_refused_command_makes_no_more_calls() {
    let mut exec = RealExec::exec_real(&ProtoCmd::PowerOn, &six([0.0; 6]), &home());
    assert!(exec.record(&Outcome::Returned { code: 0 }, &pressed(), 0).is_err());
    assert!(exec.current().is_none());
}

#[test]
fn the_server_aborts_motions_of_a_robot_on_shutdown() {
    assert_eq!(
        serve(ServeEvent::Interrupted, true),
        ServeAction::Shutdown { abort_motions: true }
    );
    assert_eq!(
        serve(ServeEvent::Interrupted, false),
        ServeAction::Shutdown { abort_motions: false }
    );
    assert_eq!(serve(ServeEvent::Accepted, true), ServeAction::Spawn);
    assert_eq!(serve(ServeEvent::AcceptFailed, true), ServeAction::Warn);
    assert_eq!(bind_failure(5533, "in use"), "Bind port 5533 failed: in use");
}

#[test]
fn failed_calls_are_answered_with_one_line() {
    let mut exec = RealExec::exec_real(&ProtoCmd::PowerOn, &six([0.0; 6]), &home());
    let e = exec.record(&Outcome::Returned { code: -5 }, &off(), 0).unwrap_err();
    let reply = handle_proto(Err(e));
    assert_eq!(reply, "err Read state failed with error code -5: E-stop pressed\n");
}

#[test]
fn an_interrupted_reset_goes_on_to_its_end() {
    let mut exec = RealExec::exec_real(&ProtoCmd::Reset, &six([0.0; 6]), &home());
    exec.record(&Outcome::Returned { code: 0 }, &ready(), 0).unwrap();
    exec.record(&Outcome::Returned { code: 0 }, &ready(), 0).unwrap();
    exec.record(&Outcome::Interrupted, &ready(), 0).unwrap();
    assert!(matches!(exec.current(), Some(Step::ReadFinalJoints)));
}
