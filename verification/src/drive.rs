//! Running a command: which controller calls it makes, and the connection
//! around them.

use crate::command::{asked_position, move_request, Command};
use crate::move_to::Wanted;
use crate::number::{whole, Double};
use crate::power::{
    ensure_powered_enabled, estop_clear, estop_clearing, power_down, power_off, power_up,
};
use crate::sdk::{check, errno_t, failure, zero_number, JointValue, MoveMode, RobotState, ERR_SUCC};
use crate::steps::{joint_motion, Step};
use crate::text::{characters, concat2, decimal, decimal_text};
use vstd::prelude::*;

verus! {

/// 3.14, the fastest any joint can move, in rad/s.
pub const MAX_JOINT_SPEED: u64 = 0x4009_1eb8_51eb_851f;

/// 0.01, the slowest joint speed that makes sense, in rad/s.
pub const MIN_JOINT_SPEED: u64 = 0x3f84_7ae1_47ae_147b;

/// The joint speed brought into the controller's valid range.
pub open spec fn joint_speed(speed: Double) -> Double {
    speed.limited(Double { bits: MIN_JOINT_SPEED }, Double { bits: MAX_JOINT_SPEED })
}

/// Clamp the joint speed to the controller's valid range.
pub fn clamp_joint_speed(speed: Double) -> (r: Double)
    ensures
        r == joint_speed(speed),
        !speed.is_nan() && (Double { bits: MIN_JOINT_SPEED }).units() <= speed.units() <= (Double {
            bits: MAX_JOINT_SPEED,
        }).units() ==> r == speed,
        !speed.is_nan() ==> (Double { bits: MIN_JOINT_SPEED }).units() <= r.units() <= (Double {
            bits: MAX_JOINT_SPEED,
        }).units(),
{
    let max = Double { bits: MAX_JOINT_SPEED };
    let min = Double { bits: MIN_JOINT_SPEED };
    proof {
        crate::number::lemma_units_order(min.magnitude(), max.magnitude());
    }
    if max.less(speed) {
        max
    } else if speed.less(min) {
        min
    } else {
        speed
    }
}

/// Six angles, all zero but that of joint number `joint`.
pub open spec fn single_joint(joint: int, angle: Double) -> Seq<Double> {
    Seq::new(
        6,
        |i: int|
            if i == joint - 1 {
                angle
            } else {
                zero_number()
            },
    )
}

/// `step` is the motion of the joints to `angles`, in the given mode and at the
/// given speed, with the usual acceleration and blocking until it ends.
pub open spec fn is_joint_move(
    step: Step,
    angles: Seq<Double>,
    mode: MoveMode,
    speed: Double,
) -> bool {
    step matches Step::JointMove { target, .. } && target.j_val@ == angles && step == joint_motion(
        target,
        mode,
        speed,
    )
}

/// The calls of a joint motion: the joints before it, the motion, the joints
/// after it.
pub open spec fn is_joint_motion(
    steps: Seq<Step>,
    angles: Seq<Double>,
    mode: MoveMode,
    speed: Double,
) -> bool {
    &&& steps.len() == 3
    &&& steps[0] == Step::ReadJoints
    &&& is_joint_move(steps[1], angles, mode, speed)
    &&& steps[2] == Step::ReadFinalJoints
}

/// The calls of a rotation of one joint by an angle.
pub open spec fn is_rotation(steps: Seq<Step>, joint: int, angle: Double, speed: Double) -> bool {
    is_joint_motion(steps, single_joint(joint, angle), MoveMode::Incr, joint_speed(speed))
}

/// The calls that bring the joints to recorded angles.
pub open spec fn is_restoring(steps: Seq<Step>, angles: Seq<Double>, speed: Double) -> bool {
    is_joint_motion(steps, angles, MoveMode::Abs, joint_speed(speed))
}

/// Rotate one joint by an angle in radians using an incremental move: only that
/// joint gets a delta, the rest stay zero.
pub fn rot(joint: i32, angle: Double, speed: Double) -> (r: Vec<Step>)
    requires
        1 <= joint <= 6,
    ensures
        is_joint_motion(
            r@,
            single_joint(joint as int, angle),
            MoveMode::Incr,
            joint_speed(speed),
        ),
        is_rotation(r@, joint as int, angle, speed),
        r@[1] matches Step::JointMove { target, .. } && target.j_val@[joint - 1] == angle && forall|
            i: int,
        |
            0 <= i < 6 && i != joint - 1 ==> (#[trigger] target.j_val@[i]).bits == 0,
{
    let mut j_val = JointValue::zero().j_val;
    j_val[(joint - 1) as usize] = angle;
    assert(j_val@ =~= single_joint(joint as int, angle));
    let target = JointValue { j_val };
    let mut steps: Vec<Step> = Vec::new();
    steps.push(Step::ReadJoints);
    steps.push(Step::joint_move(&target, MoveMode::Incr, clamp_joint_speed(speed)));
    steps.push(Step::ReadFinalJoints);
    steps
}

/// The message for a record with the wrong number of joints.
pub open spec fn bad_joints_message(n: nat) -> Seq<char> {
    "joints must contain 6 values, got "@ + decimal(n)
}

/// Restore recorded joint angles, in radians, using an absolute move.
pub fn restore(angles: &Vec<Double>, speed: Double) -> (r: Result<Vec<Step>, String>)
    ensures
        r is Ok <==> angles@.len() == 6,
        r matches Ok(steps) ==> is_joint_motion(
            steps@,
            angles@,
            MoveMode::Abs,
            joint_speed(speed),
        ),
        r matches Ok(steps) ==> is_restoring(steps@, angles@, speed),
        r matches Ok(steps) ==> (steps@[1] matches Step::JointMove { target, .. } && forall|i: int|
            0 <= i < 6 ==> #[trigger] target.j_val@[i] == angles@[i]),
        r matches Err(e) ==> e@ == bad_joints_message(angles@.len()),
{
    if angles.len() != 6 {
        return Err(
            concat2(
                "joints must contain 6 values, got ",
                decimal_text(angles.len() as u64).as_str(),
            ),
        );
    }
    let target = JointValue {
        j_val: [angles[0], angles[1], angles[2], angles[3], angles[4], angles[5]],
    };
    assert(target.j_val@ =~= angles@);
    let mut steps: Vec<Step> = Vec::new();
    steps.push(Step::ReadJoints);
    steps.push(Step::joint_move(&target, MoveMode::Abs, clamp_joint_speed(speed)));
    steps.push(Step::ReadFinalJoints);
    Ok(steps)
}

/// What follows the calls of a command when they all succeed.
#[derive(Clone, Copy, Debug, PartialEq, Eq, Structural)]
pub enum FollowUp {
    /// Nothing.
    Finish,
    /// Report the robot state and the joints.
    ReportStatus,
    /// Print the joints.
    PrintJoints,
    /// Print the pose.
    PrintPose,
    /// Print the parameters.
    PrintDh,
    /// Save the position as the base pose.
    SaveBase,
    /// Judge whether the e-stop was cleared.
    JudgeEstop,
    /// Rotate a joint.
    Rotate,
    /// Restore recorded joints.
    Restore,
    /// Move the TCP.
    MoveTo { wanted: Wanted },
    /// Fail for want of a position to move to.
    MissingPosition,
}

/// The calls of a command and what follows them.
#[derive(Debug)]
pub struct DrivePlan {
    pub steps: Vec<Step>,
    pub follow_up: FollowUp,
}

/// The command needs the robot at power and the e-stop released.
pub open spec fn needs_power(command: Command) -> bool {
    match command {
        Command::PowerOn => true,
        Command::Rot { .. } => true,
        Command::Restore { .. } => true,
        Command::MoveTo { .. } => true,
        _ => false,
    }
}

/// Why a command is refused in a robot state, nothing when it is not.
pub open spec fn refusal(command: Command, st: RobotState) -> Option<Seq<char>> {
    if command is Serve {
        Some("serve is not a drive command"@)
    } else if needs_power(command) && st.estoped != 0 {
        Some("E-stop is pressed. Release the button physically, then run estop-clear"@)
    } else {
        None
    }
}

/// The calls of a command in a robot state.
pub open spec fn calls(command: Command, st: RobotState) -> Seq<Step> {
    match command {
        Command::Status => seq![Step::ReadJoints],
        Command::EstopClear => estop_clearing(),
        Command::SetBase => seq![Step::ReadTcp],
        Command::Inspect => seq![Step::ReadJoints],
        Command::InspectPos => seq![Step::ReadTcp],
        Command::Dh => seq![Step::ReadDh],
        Command::PowerOff => power_down(st),
        Command::Tool { index, on } => seq![Step::SetTool { index, on }],
        Command::Serve { .. } => Seq::empty(),
        _ => power_up(st),
    }
}

/// What follows the calls of a command.
pub open spec fn follow_up(command: Command) -> FollowUp {
    match command {
        Command::Status => FollowUp::ReportStatus,
        Command::EstopClear => FollowUp::JudgeEstop,
        Command::SetBase => FollowUp::SaveBase,
        Command::Inspect => FollowUp::PrintJoints,
        Command::InspectPos => FollowUp::PrintPose,
        Command::Dh => FollowUp::PrintDh,
        Command::Rot { .. } => FollowUp::Rotate,
        Command::Restore { .. } => FollowUp::Restore,
        Command::MoveTo { x, y, z, rx, ry, rz, pose, .. } => match asked_position(
            x,
            y,
            z,
            pose is Some,
        ) {
            Some(tran) => FollowUp::MoveTo { wanted: Wanted { tran, rx, ry, rz } },
            None => FollowUp::MissingPosition,
        },
        _ => FollowUp::Finish,
    }
}

/// Dispatch a command in the robot state that was read first.
pub fn drive(command: &Command, st: &RobotState) -> (r: Result<DrivePlan, String>)
    ensures
        r is Ok <==> refusal(*command, *st) is None,
        r matches Err(e) ==> Some(e@) == refusal(*command, *st),
        r matches Ok(plan) ==> plan.steps@ == calls(*command, *st) && plan.follow_up == follow_up(
            *command,
        ),
{
    let mut steps: Vec<Step> = Vec::new();
    let follow = match command {
        Command::Status => {
            steps.push(Step::ReadJoints);
            FollowUp::ReportStatus
        },
        Command::EstopClear => {
            steps = estop_clear();
            FollowUp::JudgeEstop
        },
        Command::SetBase => {
            steps.push(Step::ReadTcp);
            FollowUp::SaveBase
        },
        Command::Inspect => {
            steps.push(Step::ReadJoints);
            FollowUp::PrintJoints
        },
        Command::InspectPos => {
            steps.push(Step::ReadTcp);
            FollowUp::PrintPose
        },
        Command::Dh => {
            steps.push(Step::ReadDh);
            FollowUp::PrintDh
        },
        Command::PowerOff => {
            steps = power_off(st);
            FollowUp::Finish
        },
        Command::Tool { index, on } => {
            steps.push(Step::SetTool { index: *index, on: *on });
            FollowUp::Finish
        },
        Command::Serve { .. } => {
            return Err("serve is not a drive command".to_owned());
        },
        Command::PowerOn | Command::Rot { .. } | Command::Restore { .. } | Command::MoveTo {
            ..
        } => {
            if st.estoped != 0 {
                return Err(
                    "E-stop is pressed. Release the button physically, then run estop-clear".to_owned(),
                );
            }
            steps = ensure_powered_enabled(st);
            match command {
                Command::Rot { .. } => FollowUp::Rotate,
                Command::Restore { .. } => FollowUp::Restore,
                Command::MoveTo { x, y, z, rx, ry, rz, pose, .. } => match move_request(
                    *x,
                    *y,
                    *z,
                    *rx,
                    *ry,
                    *rz,
                    pose.is_some(),
                ) {
                    Ok(wanted) => FollowUp::MoveTo { wanted },
                    Err(_) => FollowUp::MissingPosition,
                },
                _ => FollowUp::Finish,
            }
        },
    };
    assert(steps@ =~= calls(*command, *st));
    Ok(DrivePlan { steps, follow_up: follow })
}

/// A call that moves the robot or brings it to power.
pub open spec fn energizes(step: Step) -> bool {
    step is PowerOn || step is EnableRobot || step is JointMove || step is Jog
}

/// Only a command that needs power brings the robot to power: status and
/// power-off never do.
pub proof fn reading_never_powers_on(command: Command, st: RobotState)
    ensures
        !needs_power(command) ==> forall|i: int|
            0 <= i < calls(command, st).len() ==> !energizes(#[trigger] calls(command, st)[i]),
        !needs_power(Command::Status),
        !needs_power(Command::PowerOff),
{
}

/// While the e-stop is pressed, every command that would bring the robot to
/// power or move it is refused, and status, power-off and estop-clear work.
pub proof fn estop_blocks_motion(command: Command, st: RobotState)
    requires
        st.estoped != 0,
    ensures
        refusal(command, st) is None ==> !needs_power(command) && forall|i: int|
            0 <= i < calls(command, st).len() ==> !energizes(#[trigger] calls(command, st)[i]),
        refusal(command, st) is None ==> !(follow_up(command) is Rotate || follow_up(
            command,
        ) is Restore || follow_up(command) is MoveTo),
        refusal(Command::Status, st) is None,
        refusal(Command::PowerOff, st) is None,
        refusal(Command::EstopClear, st) is None,
{
}

/// A command that moves the robot is run with the robot powered and enabled.
pub proof fn motion_runs_at_power(command: Command, st: RobotState)
    requires
        needs_power(command),
        refusal(command, st) is None,
    ensures
        st.estoped == 0,
        crate::power::power_after(st.powered_on != 0, st.servo_enabled != 0, calls(command, st)) == (
            true,
            true,
        ),
{
    crate::power::power_steps_reach_state(st);
}

/// How far the run of a command has come.
#[derive(Debug)]
pub enum Run {
    /// The command is to be run without a connection.
    Offline,
    /// The connection is to be made.
    Connect,
    /// The command is to be run on the connection.
    Operate,
    /// The connection is to be closed; this came of the command.
    Disconnect { result: Result<(), String> },
    /// The run is over; this came of it.
    Done { result: Result<(), String> },
}

/// The address can be handed to the controller: no character of it is the null
/// character.
pub open spec fn is_address(ip: Seq<char>) -> bool {
    forall|i: int| 0 <= i < ip.len() ==> #[trigger] ip[i] != '\0'
}

fn valid_address(ip: &str) -> (r: bool)
    ensures
        r == is_address(ip@),
{
    let cs = characters(ip);
    let mut i: usize = 0;
    while i < cs.len()
        invariant
            cs@ == ip@,
            i <= cs@.len(),
            forall|k: int| 0 <= k < i ==> #[trigger] ip@[k] != '\0',
        decreases cs@.len() - i,
    {
        if cs[i] == '\0' {
            return false;
        }
        i = i + 1;
    }
    true
}

impl Run {
    /// The run of a command on the controller at `ip`, before its first step.
    pub open spec fn begins(self, ip: Seq<char>, command: Command) -> bool {
        match command {
            Command::Serve { mock: true, .. } => self is Offline,
            _ => if is_address(ip) {
                self is Connect
            } else {
                self is Done && self->Done_result is Err && self->Done_result->Err_0@
                    == "IP contains invalid characters"@
            },
        }
    }

    /// The run once the attempt to connect has ended with this code.
    pub open spec fn opened(self, code: errno_t) -> bool {
        if code == ERR_SUCC {
            self is Operate
        } else {
            self is Done && self->Done_result is Err && self->Done_result->Err_0@ == failure(
                "Connect controller"@,
                code as int,
            )
        }
    }

    /// The run once this came of the command.
    pub open spec fn operated(self, result: Result<(), String>) -> Run {
        match self {
            Run::Offline => Run::Done { result },
            _ => Run::Disconnect { result },
        }
    }

    /// The run once the connection was closed.
    pub open spec fn disconnected(self) -> Run {
        Run::Done { result: self->Disconnect_result }
    }

    /// Start the run of a command on the controller at `ip`. Only the simulated
    /// server runs without a controller.
    pub fn run(ip: &str, command: &Command) -> (r: Run)
        ensures
            match *command {
                Command::Serve { mock: true, .. } => r is Offline,
                _ => if is_address(ip@) {
                    r is Connect
                } else {
                    r is Done && r->Done_result is Err && r->Done_result->Err_0@
                        == "IP contains invalid characters"@
                },
            },
            r.begins(ip@, *command),
    {
        if let Command::Serve { mock: true, .. } = command {
            return Run::Offline;
        }
        if valid_address(ip) {
            Run::Connect
        } else {
            Run::Done { result: Err("IP contains invalid characters".to_owned()) }
        }
    }

    /// Take the code of the attempt to connect.
    pub fn on_connect(self, code: errno_t) -> (r: Run)
        requires
            self is Connect,
        ensures
            code == ERR_SUCC ==> r is Operate,
            code != ERR_SUCC ==> r is Done && r->Done_result is Err && r->Done_result->Err_0@
                == failure("Connect controller"@, code as int),
            r.opened(code),
    {
        match check("Connect controller", code) {
            Ok(()) => Run::Operate,
            Err(e) => Run::Done { result: Err(e) },
        }
    }

    /// Take what came of the command. A connection is closed even when it
    /// failed.
    pub fn on_operated(self, result: Result<(), String>) -> (r: Run)
        requires
            self is Operate || self is Offline,
        ensures
            self is Operate ==> r == (Run::Disconnect { result }),
            self is Offline ==> r == (Run::Done { result }),
            r == self.operated(result),
    {
        match self {
            Run::Offline => Run::Done { result },
            _ => Run::Disconnect { result },
        }
    }

    /// Take that the connection was closed, with whatever code.
    pub fn on_disconnect(self) -> (r: Run)
        requires
            self is Disconnect,
        ensures
            r == (Run::Done { result: self->Disconnect_result }),
            r == self.disconnected(),
    {
        match self {
            Run::Disconnect { result } => Run::Done { result },
            other => other,
        }
    }
}

/// A rotation turns its joint by exactly the given angle, sign and all, and no
/// other joint; it is incremental, runs at an acceleration of 1 rad/s^2, and
/// blocks until it ends. The joints are read before it and after it.
pub proof fn rotation_turns_one_joint(steps: Seq<Step>, joint: int, angle: Double, speed: Double)
    requires
        1 <= joint <= 6,
        is_rotation(steps, joint, angle, speed),
    ensures
        steps.len() == 3,
        steps[0] is ReadJoints,
        steps[2] is ReadFinalJoints,
        match steps[1] {
            Step::JointMove { target, mode, speed: used, acc, tol, block } => {
                &&& target.j_val@[joint - 1] == angle
                &&& forall|i: int|
                    0 <= i < 6 && i != joint - 1 ==> (#[trigger] target.j_val@[i]).bits == 0
                &&& mode is Incr
                &&& acc.units() == whole(1)
                &&& tol.units() == 0
                &&& block
                &&& speed_in_range(speed, used)
            },
            _ => false,
        },
{
    lemma_joint_acc();
    joint_speed_is_kept_or_cut(speed);
}

/// `used` is the given speed where the joints can run at it, and the nearest
/// speed at which they can where not.
pub open spec fn speed_in_range(speed: Double, used: Double) -> bool {
    let max = (Double { bits: MAX_JOINT_SPEED }).units();
    let min = (Double { bits: MIN_JOINT_SPEED }).units();
    &&& speed.is_nan() ==> used == speed
    &&& !speed.is_nan() && min <= speed.units() <= max ==> used == speed
    &&& !speed.is_nan() && speed.units() > max ==> used.units() == max
    &&& !speed.is_nan() && speed.units() < min ==> used.units() == min
}

/// A joint speed is kept where the joints can run at it and cut to the nearest
/// one where not.
pub proof fn joint_speed_is_kept_or_cut(speed: Double)
    ensures
        speed_in_range(speed, joint_speed(speed)),
{
    crate::number::lemma_units_order(MIN_JOINT_SPEED as nat, MAX_JOINT_SPEED as nat);
}

proof fn lemma_joint_acc()
    ensures
        (Double { bits: crate::steps::JOINT_ACC }).units() == whole(1),
        (Double { bits: 0 }).units() == 0,
{
    vstd::arithmetic::power2::lemma2_to64();
    vstd::arithmetic::power2::lemma2_to64_rest();
    crate::number::lemma_whole_pattern(crate::steps::JOINT_ACC, 1);
}

/// Restoring brings every joint to the angle that was recorded for it, by an
/// absolute motion at an acceleration of 1 rad/s^2 that blocks until it ends.
pub proof fn restoring_reaches_record(steps: Seq<Step>, angles: Seq<Double>, speed: Double, i: int)
    requires
        angles.len() == 6,
        is_restoring(steps, angles, speed),
        0 <= i < 6,
    ensures
        steps.len() == 3,
        steps[0] is ReadJoints,
        steps[2] is ReadFinalJoints,
        match steps[1] {
            Step::JointMove { target, mode, speed: used, acc, tol, block } => {
                &&& target.j_val@[i] == angles[i]
                &&& mode is Abs
                &&& acc.units() == whole(1)
                &&& tol.units() == 0
                &&& block
                &&& speed_in_range(speed, used)
            },
            _ => false,
        },
{
    lemma_joint_acc();
    joint_speed_is_kept_or_cut(speed);
}

/// Switching a tool output is one call for that very output and that very
/// state, in any state of the robot.
pub proof fn tool_switches_its_output(index: u32, on: bool, st: RobotState)
    ensures
        refusal(Command::Tool { index, on }, st) is None,
        calls(Command::Tool { index, on }, st).len() == 1,
        calls(Command::Tool { index, on }, st)[0] matches Step::SetTool { index: i, on: o } && i
            == index && o == on,
        follow_up(Command::Tool { index, on }) is Finish,
{
}

/// What reads makes one call and no other, and is followed by what is done with
/// that reading.
pub proof fn reading_makes_one_call(st: RobotState)
    ensures
        calls(Command::Status, st) =~= seq![Step::ReadJoints],
        follow_up(Command::Status) is ReportStatus,
        calls(Command::Inspect, st) =~= seq![Step::ReadJoints],
        follow_up(Command::Inspect) is PrintJoints,
        calls(Command::InspectPos, st) =~= seq![Step::ReadTcp],
        follow_up(Command::InspectPos) is PrintPose,
        calls(Command::Dh, st) =~= seq![Step::ReadDh],
        follow_up(Command::Dh) is PrintDh,
        calls(Command::SetBase, st) =~= seq![Step::ReadTcp],
        follow_up(Command::SetBase) is SaveBase,
        follow_up(Command::EstopClear) is JudgeEstop,
        follow_up(Command::PowerOn) is Finish,
        follow_up(Command::PowerOff) is Finish,
{
}

/// A move goes where the command says, each coordinate and each angle in its
/// place, and fails after its calls when a coordinate is missing and there is no
/// pose file.
pub proof fn move_command_is_kept(
    x: Option<Double>,
    y: Option<Double>,
    z: Option<Double>,
    speed: Double,
    rx: Option<Double>,
    ry: Option<Double>,
    rz: Option<Double>,
    rel: bool,
    pose: Option<String>,
)
    ensures
        ({
            let command = Command::MoveTo { x, y, z, speed, rx, ry, rz, rel, pose };
            match follow_up(command) {
                FollowUp::MoveTo { wanted } => {
                    &&& wanted.rx == rx
                    &&& wanted.ry == ry
                    &&& wanted.rz == rz
                    &&& pose is None ==> x == Some(wanted.tran.x) && y == Some(wanted.tran.y) && z
                        == Some(wanted.tran.z)
                    &&& pose is Some ==> wanted.tran.x.bits == 0 && wanted.tran.y.bits == 0
                        && wanted.tran.z.bits == 0
                },
                FollowUp::MissingPosition => pose is None && (x is None || y is None || z is None),
                _ => false,
            }
        }),
{
}

/// The commands that move the robot or bring it to power need it at power, and
/// no other does. They are refused exactly while the e-stop is pressed, and
/// serving is refused always.
pub proof fn only_motion_needs_power(command: Command, st: RobotState)
    ensures
        needs_power(command) <==> command is PowerOn || command is Rot || command is Restore
            || command is MoveTo,
        refusal(command, st) is Some <==> command is Serve || (st.estoped != 0 && (
        command is PowerOn || command is Rot || command is Restore || command is MoveTo)),
        command is Rot <==> follow_up(command) is Rotate,
        command is Restore <==> follow_up(command) is Restore,
{
}

/// Only the simulated server runs without a connection, and no connection is
/// made to an address with a null character. A connection that was made is
/// closed whatever came of the command, and what came of it is what comes of the
/// run.
pub proof fn made_connections_are_closed(
    first: Run,
    ip: Seq<char>,
    command: Command,
    second: Run,
    code: errno_t,
    result: Result<(), String>,
    i: int,
)
    requires
        first.begins(ip, command),
        second.opened(code),
    ensures
        first is Offline <==> (command matches Command::Serve { mock, .. } && mock),
        first is Connect && 0 <= i < ip.len() ==> ip[i] != '\0',
        first is Done ==> first->Done_result is Err && exists|k: int|
            0 <= k < ip.len() && #[trigger] ip[k] == '\0',
        first is Offline || first is Connect || first is Done,
        code == 0 ==> second is Operate,
        code != 0 ==> second is Done && second->Done_result is Err,
        Run::Operate.operated(result) is Disconnect,
        Run::Operate.operated(result).disconnected() matches Run::Done { result: r } && r == result,
        Run::Offline.operated(result) matches Run::Done { result: r } && r == result,
{
}

} // verus!
