//! Power, servos and the emergency stop.

use crate::sdk::{RobotState, BOOL};
use crate::steps::Step;
use vstd::prelude::*;

verus! {

/// The calls that bring the robot to power: those of power-on and enable that
/// are not done yet, in this order.
pub open spec fn power_up(st: RobotState) -> Seq<Step> {
    (if st.powered_on == 0 {
        seq![Step::PowerOn]
    } else {
        Seq::<Step>::empty()
    }) + (if st.servo_enabled == 0 {
        seq![Step::EnableRobot]
    } else {
        Seq::<Step>::empty()
    })
}

/// The calls that take the robot off power: those of disable and power-off that
/// are not done yet, in this order.
pub open spec fn power_down(st: RobotState) -> Seq<Step> {
    (if st.servo_enabled != 0 {
        seq![Step::DisableServos]
    } else {
        Seq::<Step>::empty()
    }) + (if st.powered_on != 0 {
        seq![Step::PowerOff]
    } else {
        Seq::<Step>::empty()
    })
}

/// The calls that clear the e-stop error state.
pub open spec fn estop_clearing() -> Seq<Step> {
    seq![Step::CheckEstop, Step::ClearError, Step::RecheckEstop]
}

/// Power on and enable the robot, skipping steps that are already done.
pub fn ensure_powered_enabled(st: &RobotState) -> (r: Vec<Step>)
    ensures
        r@ == power_up(*st),
{
    let mut steps: Vec<Step> = Vec::new();
    if st.powered_on == 0 {
        steps.push(Step::PowerOn);
    }
    if st.servo_enabled == 0 {
        steps.push(Step::EnableRobot);
    }
    assert(steps@ =~= power_up(*st));
    steps
}

/// Disable the servos and power off, skipping steps that are already done.
pub fn power_off(st: &RobotState) -> (r: Vec<Step>)
    ensures
        r@ == power_down(*st),
{
    let mut steps: Vec<Step> = Vec::new();
    if st.servo_enabled != 0 {
        steps.push(Step::DisableServos);
    }
    if st.powered_on != 0 {
        steps.push(Step::PowerOff);
    }
    assert(steps@ =~= power_down(*st));
    steps
}

/// Clear the e-stop error state. Whether it worked is for `estop_verdict` to
/// say, from what the last call reports.
pub fn estop_clear() -> (r: Vec<Step>)
    ensures
        r@ == estop_clearing(),
{
    let mut steps: Vec<Step> = Vec::new();
    steps.push(Step::CheckEstop);
    steps.push(Step::ClearError);
    steps.push(Step::RecheckEstop);
    assert(steps@ =~= estop_clearing());
    steps
}

/// Whether clearing the e-stop error state worked: the e-stop is not active any
/// more. The physical button must be released first.
pub fn estop_verdict(after: BOOL) -> (r: Result<(), String>)
    ensures
        r is Ok <==> after == 0,
        r matches Err(e) ==> e@
            == "E-stop is still active. Release the physical button first, then run estop-clear again"@,
{
    if after != 0 {
        Err(
            "E-stop is still active. Release the physical button first, then run estop-clear again".to_owned(),
        )
    } else {
        Ok(())
    }
}

/// The state that successful calls leave, seen from power and servos alone.
pub open spec fn power_after(powered: bool, enabled: bool, steps: Seq<Step>) -> (bool, bool)
    decreases steps.len(),
{
    if steps.len() == 0 {
        (powered, enabled)
    } else {
        let (p, e) = power_after(powered, enabled, steps.drop_last());
        match steps.last() {
            Step::PowerOn => (true, e),
            Step::PowerOff => (false, e),
            Step::EnableRobot => (p, true),
            Step::DisableServos => (p, false),
            _ => (p, e),
        }
    }
}

/// Powering up leaves the robot powered and enabled whatever it was before, and
/// makes no call when it already is; powering down likewise.
pub proof fn power_steps_reach_state(st: RobotState)
    ensures
        power_after(st.powered_on != 0, st.servo_enabled != 0, power_up(st)) == (true, true),
        power_after(st.powered_on != 0, st.servo_enabled != 0, power_down(st)) == (false, false),
        st.powered_on != 0 && st.servo_enabled != 0 ==> power_up(st).len() == 0,
        st.powered_on == 0 && st.servo_enabled == 0 ==> power_down(st).len() == 0,
{
    reveal_with_fuel(power_after, 3);
    let up = power_up(st);
    let down = power_down(st);
    if up.len() > 0 {
        assert(up.drop_last().len() == up.len() - 1);
    }
    if down.len() > 0 {
        assert(down.drop_last().len() == down.len() - 1);
    }
}

/// Power comes before the servos on the way up and after them on the way down,
/// and nothing else is called; clearing the e-stop error looks at it before and
/// after.
pub proof fn power_calls_are_ordered(st: RobotState)
    ensures
        power_up(st).contains(Step::PowerOn) <==> st.powered_on == 0,
        power_up(st).contains(Step::EnableRobot) <==> st.servo_enabled == 0,
        forall|i: int|
            0 <= i < power_up(st).len() ==> (#[trigger] power_up(st)[i] is PowerOn && i == 0) || (
            power_up(st)[i] is EnableRobot && i == power_up(st).len() - 1),
        power_down(st).contains(Step::PowerOff) <==> st.powered_on != 0,
        power_down(st).contains(Step::DisableServos) <==> st.servo_enabled != 0,
        forall|i: int|
            0 <= i < power_down(st).len() ==> (#[trigger] power_down(st)[i] is DisableServos && i
                == 0) || (power_down(st)[i] is PowerOff && i == power_down(st).len() - 1),
        power_up(st).len() <= 2,
        power_down(st).len() <= 2,
        estop_clearing().len() == 3,
        estop_clearing()[0] is CheckEstop,
        estop_clearing()[1] is ClearError,
        estop_clearing()[2] is RecheckEstop,
{
    let up = power_up(st);
    let down = power_down(st);
    if st.powered_on == 0 {
        assert(up[0] == Step::PowerOn);
    }
    if st.servo_enabled == 0 {
        assert(up[up.len() - 1] == Step::EnableRobot);
    }
    if st.servo_enabled != 0 {
        assert(down[0] == Step::DisableServos);
    }
    if st.powered_on != 0 {
        assert(down[down.len() - 1] == Step::PowerOff);
    }
}

} // verus!
