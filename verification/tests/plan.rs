use jaka_cli::command::Command;
use jaka_cli::number::Double;
use jaka_cli::plan::{print_base_plan, print_dh, print_plan, print_state, Level, LogLine, Shown};
use jaka_cli::sdk::RobotState;

fn d(x: f64) -> Double {
    Double { bits: x.to_bits() }
}

fn shown() -> Shown {
    Shown {
        deg: "45".to_string(),
        speed: "0.50".to_string(),
        seconds: "1.6".to_string(),
        x: "1".to_string(),
        y: "2.5".to_string(),
        z: "-3".to_string(),
        rx: "10".to_string(),
        ry: "20".to_string(),
        rz: "30".to_string(),
    }
}

fn lines(out: Vec<LogLine>) -> Vec<String> {
    for line in &out {
        assert_eq!(line.level, Level::Info);
    }
    out.into_iter().map(|l| l.text).collect()
}

fn move_to(rel: bool, pose: Option<&str>, z: Option<f64>, ry: Option<f64>) -> Command {
    Command::MoveTo {
        x: Some(d(1.0)),
        y: Some(d(2.5)),
        z: z.map(d),
        speed: d(100.0),
        rx: None,
        ry: ry.map(d),
        rz: None,
        rel,
        pose: pose.map(|p| p.to_string()),
    }
}

#[test]
fn simple_commands_say_what_they_do() {
    let cases = vec![
        (Command::Status, " and read state"),
        (Command::PowerOn, " and power on and enable"),
        (Command::PowerOff, " and disable servos and power off"),
        (Command::EstopClear, " and clear the e-stop error state"),
        (Command::Inspect, " and print the joint angles as JSON"),
        (Command::InspectPos, " and print the TCP position as JSON"),
        (Command::Dh, " and print the DH parameters as JSON"),
        (Command::SetBase, " and save the current TCP as the base pose"),
        (Command::Tool { index: 0, on: true }, " and turn tool output 0 on"),
        (Command::Tool { index: 12, on: false }, " and turn tool output 12 off"),
        (Command::Serve { port: 5533, mock: false }, " and serve the gamepad protocol on port 5533"),
    ];
    for (command, what) in cases {
        let expected = format!("[dry-run] Will connect to controller 10.5.5.100{what}");
        assert_eq!(lines(print_plan("10.5.5.100", &command, &shown())), [expected]);
    }
}

#[test]
fn a_mock_server_connects_to_nothing() {
    let command = Command::Serve { port: 80, mock: true };
    assert_eq!(
        lines(print_plan("ip", &command, &shown())),
        ["[dry-run] Will serve the gamepad protocol on port 80 without a controller"]
    );
}

#[test]
fn rotations_say_how_long_they_take() {
    let command = Command::Rot { joint: 2, deg: d(45.0), speed: d(0.5) };
    assert_eq!(
        lines(print_plan("ip", &command, &shown())),
        [
            "[dry-run] Will connect to controller ip, rotate joint J2 by 45 degrees",
            "[dry-run] Speed 0.50 rad/s, about 1.6 seconds"
        ]
    );
}

#[test]
fn restoring_names_its_file() {
    let command = Command::Restore { file: None, speed: d(0.5) };
    assert_eq!(
        lines(print_plan("ip", &command, &shown())),
        [
            "[dry-run] Will connect to controller ip and restore joints from built-in default pose",
            "[dry-run] Speed 0.50 rad/s"
        ]
    );
    let command = Command::Restore { file: Some("j.json".to_string()), speed: d(0.5) };
    assert_eq!(
        lines(print_plan("ip", &command, &shown()))[0],
        "[dry-run] Will connect to controller ip and restore joints from j.json"
    );
}

#[test]
fn moves_say_where_they_go() {
    let speed = "[dry-run] Linear speed 0.50 mm/s, out-of-workspace targets get clamped";
    assert_eq!(
        lines(print_plan("ip", &move_to(false, None, Some(-3.0), None), &shown())),
        [
            "[dry-run] Will connect to controller ip and move the TCP to absolute position (1, 2.5, -3) mm",
            "[dry-run] Orientation: keep current",
            speed
        ]
    );
    assert_eq!(
        lines(print_plan("ip", &move_to(true, None, Some(-3.0), Some(20.0)), &shown())),
        [
            "[dry-run] Will connect to controller ip and move the TCP to base + offset position (1, 2.5, -3) mm",
            "[dry-run] Orientation: rx=NaN, ry=20, rz=NaN degrees",
            speed
        ]
    );
    assert_eq!(
        lines(print_plan("ip", &move_to(false, Some("p.json"), None, None), &shown())),
        [
            "[dry-run] Will connect to controller ip and move the TCP to the pose from p.json",
            speed
        ]
    );
}

#[test]
fn a_move_without_a_position_is_an_error() {
    let out = print_plan("ip", &move_to(false, None, None, None), &shown());
    assert_eq!(out.len(), 1);
    assert_eq!(out[0].level, Level::Error);
    assert_eq!(out[0].text, "x, y, z are required unless --pose is given");
}

#[test]
fn an_offset_move_without_a_position_is_an_error() {
    let out = print_base_plan("ip", &move_to(false, None, None, None), &shown());
    assert_eq!(out.len(), 1);
    assert_eq!(out[0].level, Level::Error);
    assert_eq!(out[0].text, "x, y, z are required unless --pose is given");
}

#[test]
fn offset_moves_say_so() {
    assert_eq!(
        lines(print_base_plan("ip", &move_to(false, None, Some(-3.0), None), &shown())),
        [
            "[dry-run] Will connect to controller ip and move the TCP to base + (1, 2.5, -3) mm",
            "[dry-run] Orientation: keep current",
            "[dry-run] Linear speed 0.50 mm/s, out-of-workspace targets get clamped"
        ]
    );
    assert_eq!(
        lines(print_base_plan("ip", &Command::Status, &shown())),
        ["[dry-run] Will connect to controller ip and read state"]
    );
}

#[test]
fn parameters_are_told_in_their_units() {
    let list = |v: [&str; 2]| v.iter().map(|x| x.to_string()).collect();
    assert_eq!(
        lines(print_dh(
            &list(["90.000", "0.000"]),
            &list(["210.000", "1.000"]),
            &list(["120.250", "2.000"]),
            &list(["180.000", "3.000"])
        )),
        [
            "DH alpha in degrees: 90.000, 0.000",
            "DH a in mm: 210.000, 1.000",
            "DH d in mm: 120.250, 2.000",
            "DH joint_homeoff in degrees: 180.000, 3.000"
        ]
    );
}

#[test]
fn the_state_is_told_in_three_lines() {
    let st = RobotState { estoped: 1, powered_on: 0, servo_enabled: 5 };
    assert_eq!(lines(print_state(&st)), ["E-stop: pressed", "Powered: no", "Enabled: yes"]);
    assert_eq!(
        lines(print_state(&RobotState::default())),
        ["E-stop: normal", "Powered: no", "Enabled: no"]
    );
}
