use jaka_cli::sdk::{
    check, err_name, CartesianPose, CoordType, JointValue, MoveMode, RobotState, ERR_SUCC,
};
use jaka_cli::steps::{run_blocking_motion, Outcome, Script, Step};

#[test]
fn error_codes_have_names() {
    let names = vec![
        (0, "Success"),
        (-1, "Invalid handler"),
        (-2, "Invalid parameter"),
        (-3, "Connection failed"),
        (-5, "E-stop pressed"),
        (-6, "Not powered on"),
        (-7, "Not enabled"),
        (-10, "Program running"),
        (-12, "Motion abnormal"),
        (-21, "Emergency stop"),
        (-22, "Soft limit reached"),
        (-41, "Joint move failed"),
        (-42, "Circular move failed"),
        (-999, "SDK exception"),
        (-4, "Unknown error"),
        (1, "Unknown error"),
    ];
    for (code, name) in names {
        assert_eq!(err_name(code), name);
    }
}

#[test]
fn failed_calls_are_described() {
    assert_eq!(check("Power on", ERR_SUCC), Ok(()));
    assert_eq!(
        check("Power on", -5),
        Err("Power on failed with error code -5: E-stop pressed".to_string())
    );
    assert_eq!(
        check("Motion", 17),
        Err("Motion failed with error code 17: Unknown error".to_string())
    );
}

#[test]
fn modes_have_their_codes() {
    assert_eq!(MoveMode::Abs.code(), 0);
    assert_eq!(MoveMode::Incr.code(), 1);
    assert_eq!(MoveMode::Continue.code(), 2);
    assert_eq!(CoordType::Base.code(), 0);
    assert_eq!(CoordType::Joint.code(), 1);
    assert_eq!(CoordType::Tool.code(), 2);
}

#[test]
fn zero_values_are_zero() {
    assert!(JointValue::zero().j_val.iter().all(|v| v.bits == 0));
    assert_eq!(CartesianPose::zero().tran.z.bits, 0);
    assert_eq!(CartesianPose::zero().rpy.rx.bits, 0);
    assert_eq!(
        RobotState::default(),
        RobotState { estoped: 0, powered_on: 0, servo_enabled: 0 }
    );
}

#[test]
fn calls_have_labels() {
    let names = vec![
        (Step::ReadState, "Read state"),
        (Step::ReadJoints, "Read joint position"),
        (Step::ReadFinalJoints, "Read final joint position"),
        (Step::ReadTcp, "Read TCP position"),
        (Step::ReadDh, "Read DH parameters"),
        (Step::PowerOn, "Power on"),
        (Step::EnableRobot, "Enable robot"),
        (Step::DisableServos, "Disable servos"),
        (Step::PowerOff, "Power off"),
        (Step::CheckEstop, "Check e-stop state"),
        (Step::ClearError, "Clear error state"),
        (Step::RecheckEstop, "Re-check e-stop state"),
        (Step::StopJog { axis: 4 }, "Stop jog axis 4"),
        (Step::SetTool { index: 1, on: true }, "Set tool output 1"),
    ];
    for (step, name) in names {
        assert_eq!(step.label(), name);
    }
}

#[test]
fn motions_end_well_when_interrupted() {
    assert_eq!(run_blocking_motion(&Outcome::Returned { code: 0 }), Ok(()));
    assert_eq!(run_blocking_motion(&Outcome::Interrupted), Ok(()));
    assert_eq!(
        run_blocking_motion(&Outcome::Returned { code: -12 }),
        Err("Motion failed with error code -12: Motion abnormal".to_string())
    );
    assert_eq!(
        run_blocking_motion(&Outcome::Panicked { report: "task 7 panicked".to_string() }),
        Err("Motion task panicked: task 7 panicked".to_string())
    );
}

#[test]
fn a_script_stops_at_the_first_failure() {
    let mut script = Script::new(vec![Step::PowerOn, Step::EnableRobot]);
    assert!(matches!(script.current(), Some(Step::PowerOn)));
    assert_eq!(script.record(&Outcome::Returned { code: 0 }), Ok(()));
    assert!(matches!(script.current(), Some(Step::EnableRobot)));
    assert_eq!(
        script.record(&Outcome::Returned { code: -6 }),
        Err("Enable robot failed with error code -6: Not powered on".to_string())
    );
    assert!(matches!(script.current(), Some(Step::EnableRobot)));
    assert_eq!(script.record(&Outcome::Returned { code: 0 }), Ok(()));
    assert!(script.current().is_none());
}
