//! The controller calls that commands are made of, what they are called in
//! messages, how each can end, and lists of them under way.

use crate::number::{lemma_whole_pattern, whole, Double};
use crate::sdk::{check, errno_t, failure, CoordType, JointValue, MoveMode, ERR_SUCC};
use crate::text::{concat2, decimal_text, integer, integer_is_unbroken, integer_text, unbroken};
use vstd::prelude::*;

verus! {

/// 1, the acceleration of joint motions in rad/s^2.
pub const JOINT_ACC: u64 = 0x3ff0_0000_0000_0000;

/// 500, the acceleration of linear motions in mm/s^2.
pub const LINEAR_ACC: u64 = 0x407f_4000_0000_0000;

/// One controller call.
#[derive(Clone, Copy, Debug)]
pub enum Step {
    ReadState,
    ReadJoints,
    ReadFinalJoints,
    ReadTcp,
    ReadDh,
    PowerOn,
    EnableRobot,
    DisableServos,
    PowerOff,
    CheckEstop,
    ClearError,
    RecheckEstop,
    /// A joint motion, speed in rad/s and acceleration in rad/s^2, with the
    /// tolerance `tol` and blocking until it ends.
    JointMove {
        target: JointValue,
        mode: MoveMode,
        speed: Double,
        acc: Double,
        tol: Double,
        block: bool,
    },
    /// A continuous motion of one axis. The velocity is in mm/s, or in deg/s
    /// when it is angular; the controller takes angular velocities in rad/s.
    /// The position is always zero.
    Jog {
        axis: i32,
        mode: MoveMode,
        coord: CoordType,
        velocity: Double,
        position: Double,
        angular: bool,
    },
    /// The end of the motion of one axis.
    StopJog { axis: i32 },
    /// A tool output is switched on or off.
    SetTool { index: u32, on: bool },
}

/// How a controller call ended.
#[derive(Debug)]
pub enum Outcome {
    /// It returned a code.
    Returned { code: errno_t },
    /// The task that made the call panicked.
    Panicked { report: String },
    /// The user interrupted the motion and it was aborted.
    Interrupted,
}

/// A joint motion as every command makes it: with the usual acceleration,
/// without a tolerance, and blocking until it ends.
pub open spec fn joint_motion(target: JointValue, mode: MoveMode, speed: Double) -> Step {
    Step::JointMove {
        target,
        mode,
        speed,
        acc: Double { bits: JOINT_ACC },
        tol: Double { bits: 0 },
        block: true,
    }
}

impl Step {
    /// A joint motion as every command makes it.
    pub fn joint_move(target: &JointValue, mode: MoveMode, speed: Double) -> (r: Step)
        ensures
            r == joint_motion(*target, mode, speed),
    {
        Step::JointMove {
            target: *target,
            mode,
            speed,
            acc: Double { bits: JOINT_ACC },
            tol: Double { bits: 0 },
            block: true,
        }
    }

    /// What the call is called in messages.
    pub open spec fn name(self) -> Seq<char> {
        match self {
            Step::ReadState => "Read state"@,
            Step::ReadJoints => "Read joint position"@,
            Step::ReadFinalJoints => "Read final joint position"@,
            Step::ReadTcp => "Read TCP position"@,
            Step::ReadDh => "Read DH parameters"@,
            Step::PowerOn => "Power on"@,
            Step::EnableRobot => "Enable robot"@,
            Step::DisableServos => "Disable servos"@,
            Step::PowerOff => "Power off"@,
            Step::CheckEstop => "Check e-stop state"@,
            Step::ClearError => "Clear error state"@,
            Step::RecheckEstop => "Re-check e-stop state"@,
            Step::JointMove { .. } => "Motion"@,
            Step::Jog { axis, .. } => "Jog axis "@ + integer(axis as int),
            Step::StopJog { axis } => "Stop jog axis "@ + integer(axis as int),
            Step::SetTool { index, .. } => "Set tool output "@ + integer(index as int),
        }
    }

    /// What the call is called in messages.
    pub fn label(&self) -> (r: String)
        ensures
            r@ == self.name(),
    {
        match self {
            Step::ReadState => "Read state".to_owned(),
            Step::ReadJoints => "Read joint position".to_owned(),
            Step::ReadFinalJoints => "Read final joint position".to_owned(),
            Step::ReadTcp => "Read TCP position".to_owned(),
            Step::ReadDh => "Read DH parameters".to_owned(),
            Step::PowerOn => "Power on".to_owned(),
            Step::EnableRobot => "Enable robot".to_owned(),
            Step::DisableServos => "Disable servos".to_owned(),
            Step::PowerOff => "Power off".to_owned(),
            Step::CheckEstop => "Check e-stop state".to_owned(),
            Step::ClearError => "Clear error state".to_owned(),
            Step::RecheckEstop => "Re-check e-stop state".to_owned(),
            Step::JointMove { .. } => "Motion".to_owned(),
            Step::Jog { axis, .. } => concat2("Jog axis ", integer_text(*axis).as_str()),
            Step::StopJog { axis } => concat2("Stop jog axis ", integer_text(*axis).as_str()),
            Step::SetTool { index, .. } => concat2(
                "Set tool output ",
                decimal_text(*index as u64).as_str(),
            ),
        }
    }
}

/// The message of a call `label` that did not end well, nothing for one that
/// did. A motion that the user interrupted ended well.
pub open spec fn complaint(label: Seq<char>, outcome: Outcome) -> Option<Seq<char>> {
    match outcome {
        Outcome::Returned { code } => if code == ERR_SUCC {
            None
        } else {
            Some(failure(label, code as int))
        },
        Outcome::Panicked { report } => Some("Motion task panicked: "@ + report@),
        Outcome::Interrupted => None,
    }
}

fn judge(label: &str, outcome: &Outcome) -> (r: Result<(), String>)
    ensures
        r is Ok <==> complaint(label@, *outcome) is None,
        r matches Err(e) ==> Some(e@) == complaint(label@, *outcome),
{
    match outcome {
        Outcome::Returned { code } => check(label, *code),
        Outcome::Panicked { report } => Err(concat2("Motion task panicked: ", report.as_str())),
        Outcome::Interrupted => Ok(()),
    }
}

/// The result of a motion that ran on a task of its own and could be
/// interrupted.
pub fn run_blocking_motion(outcome: &Outcome) -> (r: Result<(), String>)
    ensures
        r is Ok <==> complaint("Motion"@, *outcome) is None,
        r matches Err(e) ==> Some(e@) == complaint("Motion"@, *outcome),
{
    judge("Motion", outcome)
}

/// A list of controller calls under way: the calls before `next` have ended
/// well.
#[derive(Debug)]
pub struct Script {
    pub steps: Vec<Step>,
    pub next: usize,
}

impl Script {
    /// The list has not been overrun.
    pub open spec fn valid(self) -> bool {
        self.next <= self.steps@.len()
    }

    /// The calls that are still to be made.
    pub open spec fn todo(self) -> Seq<Step> {
        self.steps@.skip(self.next as int)
    }

    /// A list with all calls still to be made.
    pub fn new(steps: Vec<Step>) -> (r: Script)
        ensures
            r.valid(),
            r.steps == steps,
            r.next == 0,
            r.todo() == steps@,
    {
        let r = Script { steps, next: 0 };
        assert(r.todo() =~= steps@);
        r
    }

    /// The call to make now, nothing at the end of the list.
    pub fn current(&self) -> (r: Option<Step>)
        requires
            self.valid(),
        ensures
            r == if self.todo().len() > 0 {
                Some(self.todo()[0])
            } else {
                None
            },
    {
        if self.next < self.steps.len() {
            Some(self.steps[self.next])
        } else {
            None
        }
    }

    /// Take how the call ended. After a failure the list stays where it is, and
    /// nothing of it is to be done any more.
    pub fn record(&mut self, outcome: &Outcome) -> (r: Result<(), String>)
        requires
            old(self).valid(),
            old(self).todo().len() > 0,
        ensures
            final(self).valid(),
            final(self).steps == old(self).steps,
            r is Ok <==> complaint(old(self).todo()[0].name(), *outcome) is None,
            r is Ok ==> final(self).next == old(self).next + 1,
            r is Ok ==> final(self).todo() == old(self).todo().skip(1),
            r matches Err(e) ==> Some(e@) == complaint(old(self).todo()[0].name(), *outcome),
            r is Err ==> final(self).next == old(self).next,
    {
        let label = self.steps[self.next].label();
        let r = judge(label.as_str(), outcome);
        if r.is_ok() && self.next < self.steps.len() {
            self.next = self.next + 1;
            assert(self.todo() =~= old(self).todo().skip(1));
        }
        r
    }
}

/// What a call is called holds no line break.
pub proof fn name_is_unbroken(step: Step)
    ensures
        unbroken(step.name()),
{
    reveal_strlit("Read state");
    reveal_strlit("Read joint position");
    reveal_strlit("Read final joint position");
    reveal_strlit("Read TCP position");
    reveal_strlit("Read DH parameters");
    reveal_strlit("Power on");
    reveal_strlit("Enable robot");
    reveal_strlit("Disable servos");
    reveal_strlit("Power off");
    reveal_strlit("Check e-stop state");
    reveal_strlit("Clear error state");
    reveal_strlit("Re-check e-stop state");
    reveal_strlit("Motion");
    reveal_strlit("Jog axis ");
    reveal_strlit("Stop jog axis ");
    reveal_strlit("Set tool output ");
    match step {
        Step::Jog { axis, .. } => integer_is_unbroken(axis as int),
        Step::StopJog { axis } => integer_is_unbroken(axis as int),
        Step::SetTool { index, .. } => integer_is_unbroken(index as int),
        _ => {},
    }
}

/// A call fails by a code other than zero or by a panic, and a motion that the
/// user interrupted has not failed, whatever the call is called.
pub proof fn calls_fail_by_their_code(label: Seq<char>, outcome: Outcome)
    ensures
        complaint(label, outcome) is None <==> outcome is Interrupted || (
        outcome matches Outcome::Returned { code } && code == 0),
        outcome matches Outcome::Returned { code } ==> code != 0 ==> complaint(label, outcome)
            == Some(failure(label, code as int)),
{
}

/// A joint motion goes to its target in its mode and at its speed, with 1
/// rad/s^2, without a tolerance, and blocks until it ends.
pub proof fn joint_motion_is_as_asked(target: JointValue, mode: MoveMode, speed: Double)
    ensures
        joint_motion(target, mode, speed) matches Step::JointMove {
            target: t,
            mode: m,
            speed: s,
            acc,
            tol,
            block,
        } && {
            &&& t == target
            &&& m == mode
            &&& s == speed
            &&& acc.units() == whole(1)
            &&& tol.units() == 0
            &&& block
        },
{
    vstd::arithmetic::power2::lemma2_to64();
    vstd::arithmetic::power2::lemma2_to64_rest();
    lemma_whole_pattern(JOINT_ACC, 1);
}

} // verus!
