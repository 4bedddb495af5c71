//! Moving the tool center point (TCP) to a pose.
//!
//! `Mover` says what to do next and decides from what came of it. Motions can
//! end anywhere between where they started and where they should go, so the
//! pose that was read back decides, never the code of the motion.

use crate::kinematics::{
    first_solution, gap_closed, ik_solution_verified, is_too_low, limits_are_exact, passable,
    path_clear_means_all, pose_close, too_low, IkAnswer, PathCheck, PathStage, PoseGap, LOW_Z,
    SAMPLES,
};
use crate::number::{lemma_whole_pattern, signs_change_values, whole, Double};
use crate::sdk::{
    check, errno_t, failure, zero_number, CartesianPose, CartesianTran, JointValue, MoveMode, Rpy,
    ERR_SUCC,
};
use crate::steps::{complaint, run_blocking_motion, Outcome, JOINT_ACC, LINEAR_ACC};
use crate::text::{concat2, concat3, decimal, decimal_text};
use vstd::arithmetic::power2::{
    lemma2_to64, lemma_pow2_adds, lemma_pow2_pos, lemma_pow2_unfold, pow2,
};
use vstd::prelude::*;

verus! {

/// 30 degrees in radians, the largest change of an angle that a linear motion
/// is tried with.
pub const BIG_TURN: u64 = 0x3fe0_c152_382d_7365;

/// A thousandth, the width of the search below which it ends.
pub const NARROW: u64 = 0x3f50_624d_d2f1_a9fc;

/// One, the far end of the search.
pub const FAR_END: u64 = 0x3ff0_0000_0000_0000;

/// 2, the position error in mm above which the robot should be looked at.
pub const LARGE_ERROR: u64 = 0x4000_0000_0000_0000;

/// 3, the speed in rad/s of the joint motions that try a pose.
pub const TRY_SPEED: u64 = 0x4008_0000_0000_0000;

/// The most points that the search for a reachable one tries.
pub const PROBES: u32 = 20;

/// Where to go: a position in mm and the angles in degrees that were given.
#[derive(Clone, Copy, Debug, PartialEq, Eq, Structural)]
pub struct Wanted {
    pub tran: CartesianTran,
    pub rx: Option<Double>,
    pub ry: Option<Double>,
    pub rz: Option<Double>,
}

/// Why a pose is tried.
#[derive(Clone, Copy, Debug, PartialEq, Eq, Structural)]
pub enum Purpose {
    /// It is the target.
    Direct,
    /// It is the target with its orientation mirrored.
    Mirrored,
    /// It lies on the way to the target, at `mid`.
    Probe { mid: Double },
}

/// How far a move has come.
#[derive(Clone, Copy, Debug)]
pub enum Stage {
    /// The current pose is wanted.
    ReadTcp,
    /// The pose file is wanted.
    ReadPoseFile,
    /// The base pose is wanted.
    LoadBase,
    /// The base position plus the wanted one is wanted, and the given angles in
    /// radians.
    Aim { base: CartesianTran },
    /// The changes of the three angles are wanted.
    Turn,
    /// The current joints are wanted.
    ReadJoints { jump: bool },
    /// The straight path to the target is being checked.
    CheckPath { check: PathCheck },
    /// The linear motion to the target is to be made.
    Linear,
    /// A joint solution of `aim` is wanted.
    Solve { aim: CartesianPose, purpose: Purpose },
    /// The joint motion to `aim` is to be made.
    Attempt { aim: CartesianPose, purpose: Purpose, joint: JointValue },
    /// The controller's error state is to be cleared after a failed motion.
    Clear { aim: CartesianPose, purpose: Purpose },
    /// The pose after the motion is wanted.
    Land { aim: CartesianPose, purpose: Purpose },
    /// The joints after the motion are wanted.
    Refresh { purpose: Purpose },
    /// The width of the search and its middle are wanted.
    Split,
    /// The final pose is wanted, for the report.
    Report { goal: CartesianPose },
    /// The move is over.
    Done,
}

/// What a move wants done or computed next.
#[derive(Clone, Copy, Debug)]
pub enum MoveCall {
    /// Read the current pose.
    ReadTcp,
    /// Read the pose file.
    ReadPoseFile,
    /// Load the base pose.
    LoadBase,
    /// Add the wanted position to the base position, and convert the given
    /// angles to radians.
    Aim { base: CartesianTran, wanted: Wanted },
    /// Compute how much each angle changes, without the sign.
    Turn { now: Rpy, later: Rpy },
    /// Read the current joints.
    ReadJoints,
    /// Compute the pose that lies this many of the equal parts of the way from
    /// one pose to another.
    Sample { from: CartesianPose, to: CartesianPose, index: u32 },
    /// Make a linear motion, speed in mm/s and acceleration in mm/s^2, with the
    /// tolerance `tol` and blocking until it ends.
    LinearMove {
        target: CartesianPose,
        mode: MoveMode,
        speed: Double,
        acc: Double,
        tol: Double,
        block: bool,
    },
    /// Solve for the joints of a pose.
    Solve { reference: JointValue, from: CartesianPose, pose: CartesianPose },
    /// Make a joint motion, speed in rad/s and acceleration in rad/s^2, with the
    /// tolerance `tol` and blocking until it ends.
    JointMove {
        joint: JointValue,
        mode: MoveMode,
        speed: Double,
        acc: Double,
        tol: Double,
        block: bool,
    },
    /// Clear the controller's error state.
    ClearError,
    /// Read the pose, compute its gap to the aim, and its projection onto the
    /// way from one pose to another.
    Land { aim: CartesianPose, from: CartesianPose, to: CartesianPose },
    /// Compute the width and the middle of the search, and the pose at the
    /// middle of the way from one pose to another.
    Split { lo: Double, hi: Double, from: CartesianPose, to: CartesianPose },
    /// Read the final pose and compute its distance to the goal.
    Report { goal: CartesianPose },
    /// Nothing more.
    Finished,
}

/// A pose file that was read: its position, and its angles when it has them.
#[derive(Debug)]
pub struct PoseDoc {
    pub head_pos: Vec<Double>,
    pub head_rpy: Option<Vec<Double>>,
}

/// A move of the TCP under way.
#[derive(Clone, Copy, Debug)]
pub struct Mover {
    pub wanted: Wanted,
    /// The speed of the linear motion in mm/s.
    pub speed: Double,
    /// The position is relative to the base pose.
    pub rel: bool,
    /// The pose comes from a file.
    pub from_file: bool,
    /// The orientation was given, by the file or by an angle.
    pub explicit: bool,
    /// The pose from which the current attempt starts.
    pub cur: CartesianPose,
    pub target: CartesianPose,
    pub ref_joint: JointValue,
    /// The search: a point of the way that was reached, one that was not, the
    /// points that may still be tried, and the last pose that was reached.
    pub lo: Double,
    pub hi: Double,
    pub rounds: u32,
    pub reached: Option<CartesianPose>,
    pub stage: Stage,
}

/// The pose with the first two angles negated.
pub open spec fn mirrored(p: CartesianPose) -> CartesianPose {
    CartesianPose { rpy: Rpy { rx: p.rpy.rx.negated(), ry: p.rpy.ry.negated(), ..p.rpy }, ..p }
}

/// The pose raised to the safe height when it is below.
pub open spec fn raised(p: CartesianPose) -> CartesianPose {
    if is_too_low(p) {
        CartesianPose { tran: CartesianTran { z: Double { bits: LOW_Z }, ..p.tran }, ..p }
    } else {
        p
    }
}

/// A position error in mm after which the robot should be looked at.
pub open spec fn is_large(error: Double) -> bool {
    (Double { bits: LARGE_ERROR }).below(error)
}

/// The given angle, the current one when none was given.
pub open spec fn given_or(given: Option<Double>, current: Double) -> Double {
    match given {
        Some(v) => v,
        None => current,
    }
}

/// The message for a pose file with the wrong number of coordinates.
pub open spec fn bad_pose_message(n: nat) -> Seq<char> {
    "head_pos must have 3 values, got "@ + decimal(n)
}

/// What a pose file asks for. Angles count when there are three of them.
pub open spec fn file_wants(head_pos: Seq<Double>, head_rpy: Option<Seq<Double>>) -> Wanted {
    let tran = CartesianTran { x: head_pos[0], y: head_pos[1], z: head_pos[2] };
    match head_rpy {
        Some(a) if a.len() == 3 => Wanted { tran, rx: Some(a[0]), ry: Some(a[1]), rz: Some(a[2]) },
        _ => Wanted { tran, rx: None, ry: None, rz: None },
    }
}

impl PoseDoc {
    /// The angles of the file.
    pub open spec fn angles(self) -> Option<Seq<Double>> {
        match self.head_rpy {
            Some(a) => Some(a@),
            None => None,
        }
    }
}

impl Mover {
    /// The move is in a state that it can be in. No pose below the safe height
    /// is ever solved for or moved to, whether linearly or with the joints, the
    /// mirrored orientation is tried only when none was given, and no more
    /// points are tried than allowed.
    pub open spec fn valid(self) -> bool {
        &&& self.rounds <= PROBES
        &&& self.stage is Split ==> self.rounds > 0
        &&& self.stage is ReadPoseFile ==> self.from_file
        &&& self.stage is LoadBase ==> self.rel
        &&& self.from_file ==> self.explicit
        &&& match self.stage {
            Stage::CheckPath { check } => check.valid() && check.guarded && check.stage !is Done,
            Stage::Linear => !is_too_low(self.target),
            Stage::Solve { aim, purpose } => self.may_try(aim, purpose),
            Stage::Attempt { aim, purpose, .. } => self.may_try(aim, purpose),
            Stage::Clear { aim, purpose } => self.may_try(aim, purpose),
            Stage::Land { aim, purpose } => self.may_try(aim, purpose),
            Stage::Refresh { purpose: Purpose::Probe { .. } } => self.rounds < PROBES,
            _ => true,
        }
    }

    /// A pose may be tried for the given purpose.
    pub open spec fn may_try(self, aim: CartesianPose, purpose: Purpose) -> bool {
        &&& !is_too_low(aim)
        &&& match purpose {
            Purpose::Direct => aim == self.target,
            Purpose::Mirrored => aim == mirrored(self.target) && !self.explicit,
            Purpose::Probe { .. } => self.rounds < PROBES,
        }
    }

    /// A bound on the number of answers that the move still takes.
    pub open spec fn left(self) -> int {
        match self.stage {
            Stage::ReadTcp => 264,
            Stage::ReadPoseFile => 263,
            Stage::LoadBase => 262,
            Stage::Aim { .. } => 261,
            Stage::Turn => 260,
            Stage::ReadJoints { .. } => 259,
            Stage::CheckPath { check } => 240 + check.left(),
            Stage::Linear => 240,
            Stage::Solve { purpose, .. } => self.left_for(purpose) + 9,
            Stage::Attempt { purpose, .. } => self.left_for(purpose) + 8,
            Stage::Clear { purpose, .. } => self.left_for(purpose) + 7,
            Stage::Land { purpose, .. } => self.left_for(purpose) + 6,
            Stage::Refresh { purpose } => self.left_for(purpose) + 5,
            Stage::Split => 10 * self.rounds + 3,
            Stage::Report { .. } => 2,
            Stage::Done => 0,
        }
    }

    /// The part of that bound that belongs to what follows an attempt.
    pub open spec fn left_for(self, purpose: Purpose) -> int {
        match purpose {
            Purpose::Direct => 230,
            Purpose::Mirrored => 210,
            Purpose::Probe { .. } => 10 * self.rounds,
        }
    }

    /// Trying the target itself, unless it is below the safe height.
    pub open spec fn trying_direct(self) -> Mover {
        if is_too_low(self.target) {
            self.searching()
        } else {
            Mover { stage: Stage::Solve { aim: self.target, purpose: Purpose::Direct }, ..self }
        }
    }

    /// Trying the mirrored orientation, unless one was given or the target is
    /// below the safe height.
    pub open spec fn trying_mirrored(self) -> Mover {
        if self.explicit || is_too_low(self.target) {
            self.searching()
        } else {
            Mover {
                stage: Stage::Solve { aim: mirrored(self.target), purpose: Purpose::Mirrored },
                ..self
            }
        }
    }

    /// Searching the way to the target for a reachable point, from its start.
    pub open spec fn searching(self) -> Mover {
        Mover {
            lo: Double { bits: 0 },
            hi: Double { bits: FAR_END },
            rounds: PROBES,
            reached: None,
            stage: Stage::Split,
            ..self
        }
    }

    /// Going on with the search, or ending it when no point may be tried.
    pub open spec fn searching_on(self) -> Mover {
        if self.rounds == 0 {
            self.settled()
        } else {
            Mover { stage: Stage::Split, ..self }
        }
    }

    /// The end of the search: at the last pose that was reached, or where the
    /// robot was all along.
    pub open spec fn settled(self) -> Mover {
        match self.reached {
            Some(goal) => Mover { stage: Stage::Report { goal }, ..self },
            None => Mover { stage: Stage::Done, ..self },
        }
    }

    /// Going on after an attempt that did not lead to its aim.
    pub open spec fn going_on(self, purpose: Purpose) -> Mover {
        match purpose {
            Purpose::Direct => self.trying_mirrored(),
            Purpose::Mirrored => self.searching(),
            Purpose::Probe { .. } => self.searching_on(),
        }
    }

    /// The stage after it is known what is wanted.
    pub open spec fn after_wanted(self) -> Mover {
        if self.rel {
            Mover { stage: Stage::LoadBase, ..self }
        } else {
            Mover { stage: Stage::Aim { base: CartesianPose::origin().tran }, ..self }
        }
    }

    /// The move once the current pose is known.
    pub open spec fn located(self, pose: CartesianPose) -> Mover {
        let here = Mover { cur: pose, ..self };
        if self.from_file {
            Mover { stage: Stage::ReadPoseFile, ..here }
        } else {
            here.after_wanted()
        }
    }

    /// The move once the pose file was read.
    pub open spec fn instructed(self, head_pos: Seq<Double>, angles: Option<Seq<Double>>) -> Mover {
        (Mover { wanted: file_wants(head_pos, angles), ..self }).after_wanted()
    }

    /// The move once the base pose is known.
    pub open spec fn based(self, base: CartesianPose) -> Mover {
        Mover { stage: Stage::Aim { base: base.tran }, ..self }
    }

    /// The move once its target is known.
    pub open spec fn aimed(
        self,
        sum: CartesianTran,
        rx: Option<Double>,
        ry: Option<Double>,
        rz: Option<Double>,
    ) -> Mover {
        Mover {
            target: CartesianPose {
                tran: if self.rel {
                    sum
                } else {
                    self.wanted.tran
                },
                rpy: Rpy {
                    rx: given_or(rx, self.cur.rpy.rx),
                    ry: given_or(ry, self.cur.rpy.ry),
                    rz: given_or(rz, self.cur.rpy.rz),
                },
            },
            stage: Stage::Turn,
            ..self
        }
    }

    /// Going on with the path check. A clear path is followed, but never to a
    /// target below the safe height.
    pub open spec fn following(self, next: PathCheck) -> Mover {
        match next.stage {
            PathStage::Done { clear } => if clear && !is_too_low(self.target) {
                Mover { stage: Stage::Linear, ..self }
            } else {
                self.trying_direct()
            },
            _ => Mover { stage: Stage::CheckPath { check: next }, ..self },
        }
    }

    /// The move once the pose of a sample is known.
    pub open spec fn sampled(self, probe: CartesianPose) -> Mover {
        self.following(self.stage->check.probed(probe))
    }

    /// The move once it is known whether a pose has a joint solution.
    pub open spec fn solved(self, solution: Option<JointValue>) -> Mover {
        match self.stage {
            Stage::CheckPath { check } => self.following(check.answered(solution is Some)),
            Stage::Solve { aim, purpose } => match solution {
                Some(joint) => Mover { stage: Stage::Attempt { aim, purpose, joint }, ..self },
                None => self.missed(purpose).going_on(purpose),
            },
            _ => self,
        }
    }

    /// A point of the search that was not reached is its new far end.
    pub open spec fn missed(self, purpose: Purpose) -> Mover {
        match purpose {
            Purpose::Probe { mid } => Mover { hi: mid, ..self },
            _ => self,
        }
    }

    /// The move once a joint motion ended.
    pub open spec fn attempted(self, outcome: Outcome) -> Mover {
        let aim = self.stage->Attempt_aim;
        let purpose = self.stage->Attempt_purpose;
        if complaint("Motion"@, outcome) is None {
            Mover { stage: Stage::Land { aim, purpose }, ..self }
        } else {
            Mover { stage: Stage::Clear { aim, purpose }, ..self }
        }
    }

    /// The move once the error state was cleared.
    pub open spec fn cleared(self) -> Mover {
        let aim = self.stage->Clear_aim;
        let purpose = self.stage->Clear_purpose;
        Mover { stage: Stage::Land { aim, purpose }, ..self }
    }

    /// The move once the pose after a motion is known.
    pub open spec fn landed(self, actual: CartesianPose, gap: PoseGap, along: Double) -> Mover {
        let aim = self.stage->Land_aim;
        let purpose = self.stage->Land_purpose;
        match purpose {
            Purpose::Probe { .. } => if self.lo.below(along) {
                Mover {
                    lo: along,
                    reached: Some(actual),
                    stage: Stage::Refresh { purpose },
                    ..self
                }
            } else {
                self.missed(purpose).going_on(purpose)
            },
            _ => if gap_closed(gap) {
                Mover { stage: Stage::Report { goal: aim }, ..self }
            } else {
                Mover { cur: actual, stage: Stage::Refresh { purpose }, ..self }
            },
        }
    }

    /// The move once the joints after a motion are known.
    pub open spec fn refreshed(self, joints: JointValue) -> Mover {
        (Mover { ref_joint: joints, ..self }).going_on(self.stage->Refresh_purpose)
    }

    /// The move once the middle of the search is known.
    pub open spec fn split(self, width: Double, mid: Double, probe: CartesianPose) -> Mover {
        let rest = Mover { rounds: (self.rounds - 1) as u32, ..self };
        let purpose = Purpose::Probe { mid };
        if width.below(Double { bits: NARROW }) {
            self.settled()
        } else if is_too_low(probe) {
            rest.missed(purpose).searching_on()
        } else {
            Mover { stage: Stage::Solve { aim: probe, purpose }, ..rest }
        }
    }

    /// The move once the changes of the angles are known.
    pub open spec fn turned(self, rx: Double, ry: Double, rz: Double) -> Mover {
        let big = Double { bits: BIG_TURN };
        let jump = big.below(rx) || big.below(ry) || big.below(rz);
        Mover { stage: Stage::ReadJoints { jump }, ..self }
    }

    /// The move once the joints before it are known.
    pub open spec fn prepared(self, joints: JointValue) -> Mover {
        let here = Mover { ref_joint: joints, ..self };
        if self.stage->jump {
            here.trying_direct()
        } else {
            Mover { stage: Stage::CheckPath { check: PathCheck::fresh(true) }, ..here }
        }
    }

    /// The move once the linear motion ended.
    pub open spec fn followed(self, outcome: Outcome) -> Mover {
        if complaint("Motion"@, outcome) is None {
            Mover { stage: Stage::Report { goal: self.target }, ..self }
        } else {
            self.trying_direct()
        }
    }

    /// The move before its first step.
    pub open spec fn begins(
        self,
        wanted: Wanted,
        speed: Double,
        rel: bool,
        from_file: bool,
    ) -> bool {
        &&& self.stage is ReadTcp
        &&& self.wanted == wanted
        &&& self.speed == speed
        &&& self.rel == rel
        &&& self.from_file == from_file
        &&& self.explicit == (from_file || wanted.rx is Some || wanted.ry is Some || wanted.rz is Some)
    }

    /// The move once its report was made.
    pub open spec fn told(self) -> Mover {
        Mover { stage: Stage::Done, ..self }
    }

    /// Start a move to `wanted`, or to the pose of a file. The speed of a linear
    /// motion is in mm/s.
    pub fn move_to(wanted: &Wanted, speed: Double, rel: bool, from_file: bool) -> (r: Mover)
        ensures
            r.valid(),
            r.stage is ReadTcp,
            r.wanted == *wanted,
            r.speed == speed,
            r.rel == rel,
            r.from_file == from_file,
            r.explicit == (from_file || wanted.rx is Some || wanted.ry is Some || wanted.rz is Some),
            r.begins(*wanted, speed, rel, from_file),
    {
        let zero = Double { bits: 0 };
        Mover {
            wanted: *wanted,
            speed,
            rel,
            from_file,
            explicit: from_file || wanted.rx.is_some() || wanted.ry.is_some()
                || wanted.rz.is_some(),
            cur: CartesianPose::zero(),
            target: CartesianPose::zero(),
            ref_joint: JointValue::zero(),
            lo: zero,
            hi: zero,
            rounds: 0,
            reached: None,
            stage: Stage::ReadTcp,
        }
    }

    /// What the move wants next.
    pub open spec fn wants(self) -> MoveCall {
        match self.stage {
            Stage::ReadTcp => MoveCall::ReadTcp,
            Stage::ReadPoseFile => MoveCall::ReadPoseFile,
            Stage::LoadBase => MoveCall::LoadBase,
            Stage::Aim { base } => MoveCall::Aim { base, wanted: self.wanted },
            Stage::Turn => MoveCall::Turn { now: self.cur.rpy, later: self.target.rpy },
            Stage::ReadJoints { .. } => MoveCall::ReadJoints,
            Stage::CheckPath { check } => match check.stage {
                PathStage::Sample { index } => MoveCall::Sample {
                    from: self.cur,
                    to: self.target,
                    index,
                },
                PathStage::Solve { probe, .. } => MoveCall::Solve {
                    reference: self.ref_joint,
                    from: self.cur,
                    pose: probe,
                },
                PathStage::Done { .. } => MoveCall::Finished,
            },
            Stage::Linear => MoveCall::LinearMove {
                target: self.target,
                mode: MoveMode::Abs,
                speed: self.speed,
                acc: Double { bits: LINEAR_ACC },
                tol: Double { bits: 0 },
                block: true,
            },
            Stage::Solve { aim, .. } => MoveCall::Solve {
                reference: self.ref_joint,
                from: self.cur,
                pose: aim,
            },
            Stage::Attempt { joint, .. } => MoveCall::JointMove {
                joint,
                mode: MoveMode::Abs,
                speed: Double { bits: TRY_SPEED },
                acc: Double { bits: JOINT_ACC },
                tol: Double { bits: 0 },
                block: true,
            },
            Stage::Clear { .. } => MoveCall::ClearError,
            Stage::Land { aim, .. } => MoveCall::Land {
                aim,
                from: self.cur,
                to: raised(self.target),
            },
            Stage::Refresh { .. } => MoveCall::ReadJoints,
            Stage::Split => MoveCall::Split {
                lo: self.lo,
                hi: self.hi,
                from: self.cur,
                to: raised(self.target),
            },
            Stage::Report { goal } => MoveCall::Report { goal },
            Stage::Done => MoveCall::Finished,
        }
    }

    /// What to do or compute next.
    pub fn request(&self) -> (r: MoveCall)
        requires
            self.valid(),
        ensures
            r == self.wants(),
    {
        match self.stage {
            Stage::ReadTcp => MoveCall::ReadTcp,
            Stage::ReadPoseFile => MoveCall::ReadPoseFile,
            Stage::LoadBase => MoveCall::LoadBase,
            Stage::Aim { base } => MoveCall::Aim { base, wanted: self.wanted },
            Stage::Turn => MoveCall::Turn { now: self.cur.rpy, later: self.target.rpy },
            Stage::ReadJoints { .. } => MoveCall::ReadJoints,
            Stage::CheckPath { check } => match check.stage {
                PathStage::Sample { index } => MoveCall::Sample {
                    from: self.cur,
                    to: self.target,
                    index,
                },
                PathStage::Solve { probe, .. } => MoveCall::Solve {
                    reference: self.ref_joint,
                    from: self.cur,
                    pose: probe,
                },
                PathStage::Done { .. } => MoveCall::Finished,
            },
            Stage::Linear => MoveCall::LinearMove {
                target: self.target,
                mode: MoveMode::Abs,
                speed: self.speed,
                acc: Double { bits: LINEAR_ACC },
                tol: Double { bits: 0 },
                block: true,
            },
            Stage::Solve { aim, .. } => MoveCall::Solve {
                reference: self.ref_joint,
                from: self.cur,
                pose: aim,
            },
            Stage::Attempt { joint, .. } => MoveCall::JointMove {
                joint,
                mode: MoveMode::Abs,
                speed: Double { bits: TRY_SPEED },
                acc: Double { bits: JOINT_ACC },
                tol: Double { bits: 0 },
                block: true,
            },
            Stage::Clear { .. } => MoveCall::ClearError,
            Stage::Land { aim, .. } => MoveCall::Land {
                aim,
                from: self.cur,
                to: self.safe_target(),
            },
            Stage::Refresh { .. } => MoveCall::ReadJoints,
            Stage::Split => MoveCall::Split {
                lo: self.lo,
                hi: self.hi,
                from: self.cur,
                to: self.safe_target(),
            },
            Stage::Report { goal } => MoveCall::Report { goal },
            Stage::Done => MoveCall::Finished,
        }
    }

    fn aim_stage(&mut self)
        ensures
            *final(self) == old(self).after_wanted(),
    {
        if self.rel {
            self.stage = Stage::LoadBase;
        } else {
            self.stage = Stage::Aim { base: CartesianPose::zero().tran };
        }
    }

    /// Take the current pose.
    pub fn on_tcp(&mut self, code: errno_t, pose: &CartesianPose) -> (r: Result<(), String>)
        requires
            old(self).valid(),
            old(self).stage is ReadTcp,
        ensures
            r is Ok <==> code == ERR_SUCC,
            r matches Err(e) ==> e@ == failure("Read TCP position"@, code as int),
            r is Ok ==> final(self).valid(),
            r is Ok ==> final(self).left() < old(self).left(),
            r is Ok ==> *final(self) == old(self).located(*pose),
    {
        check("Read TCP position", code)?;
        self.cur = *pose;
        if self.from_file {
            self.stage = Stage::ReadPoseFile;
        } else {
            self.aim_stage();
        }
        Ok(())
    }

    /// Take the pose file. It overrides position and orientation.
    pub fn on_pose_file(&mut self, doc: &PoseDoc) -> (r: Result<(), String>)
        requires
            old(self).valid(),
            old(self).stage is ReadPoseFile,
        ensures
            r is Ok <==> doc.head_pos@.len() == 3,
            r matches Err(e) ==> e@ == bad_pose_message(doc.head_pos@.len()),
            r is Ok ==> final(self).valid(),
            r is Ok ==> final(self).left() < old(self).left(),
            r is Ok ==> *final(self) == old(self).instructed(doc.head_pos@, doc.angles()),
    {
        if doc.head_pos.len() != 3 {
            return Err(
                concat2(
                    "head_pos must have 3 values, got ",
                    decimal_text(doc.head_pos.len() as u64).as_str(),
                ),
            );
        }
        let tran = CartesianTran { x: doc.head_pos[0], y: doc.head_pos[1], z: doc.head_pos[2] };
        let mut wanted = Wanted { tran, rx: None, ry: None, rz: None };
        if let Some(a) = &doc.head_rpy {
            if a.len() == 3 {
                wanted.rx = Some(a[0]);
                wanted.ry = Some(a[1]);
                wanted.rz = Some(a[2]);
            }
        }
        self.wanted = wanted;
        self.aim_stage();
        Ok(())
    }

    /// Take the base pose.
    pub fn on_base(&mut self, base: &CartesianPose)
        requires
            old(self).valid(),
            old(self).stage is LoadBase,
        ensures
            final(self).valid(),
            final(self).left() < old(self).left(),
            *final(self) == old(self).based(*base),
    {
        self.stage = Stage::Aim { base: base.tran };
    }

    /// Take the sum of the base position and the wanted one, and the given
    /// angles in radians. An absolute position is the wanted one as it is, and
    /// an angle that was not given stays the current one.
    pub fn on_aim(
        &mut self,
        sum: &CartesianTran,
        rx: Option<Double>,
        ry: Option<Double>,
        rz: Option<Double>,
    )
        requires
            old(self).valid(),
            old(self).stage is Aim,
        ensures
            final(self).valid(),
            final(self).left() < old(self).left(),
            *final(self) == old(self).aimed(*sum, rx, ry, rz),
    {
        let tran = if self.rel {
            *sum
        } else {
            self.wanted.tran
        };
        let rpy = Rpy {
            rx: rx.unwrap_or(self.cur.rpy.rx),
            ry: ry.unwrap_or(self.cur.rpy.ry),
            rz: rz.unwrap_or(self.cur.rpy.rz),
        };
        self.target = CartesianPose { tran, rpy };
        self.stage = Stage::Turn;
    }

    /// Take how much each angle changes, in radians without the sign. A large
    /// change makes the interpolated straight path unreachable almost always.
    pub fn on_turn(&mut self, rx: Double, ry: Double, rz: Double)
        requires
            old(self).valid(),
            old(self).stage is Turn,
        ensures
            final(self).valid(),
            final(self).left() < old(self).left(),
            *final(self) == ({
                let big = Double { bits: BIG_TURN };
                let jump = big.below(rx) || big.below(ry) || big.below(rz);
                Mover { stage: Stage::ReadJoints { jump }, ..*old(self) }
            }),
            *final(self) == old(self).turned(rx, ry, rz),
    {
        let big = Double { bits: BIG_TURN };
        let jump = big.less(rx) || big.less(ry) || big.less(rz);
        self.stage = Stage::ReadJoints { jump };
    }

    /// Take the current joints. After a large change of the orientation the
    /// straight path is not even looked at.
    pub fn on_joints(&mut self, code: errno_t, joints: &JointValue) -> (r: Result<(), String>)
        requires
            old(self).valid(),
            old(self).stage is ReadJoints,
        ensures
            r is Ok <==> code == ERR_SUCC,
            r matches Err(e) ==> e@ == failure("Read joint position"@, code as int),
            r is Ok ==> final(self).valid(),
            r is Ok ==> final(self).left() < old(self).left(),
            r is Ok ==> *final(self) == ({
                let here = Mover { ref_joint: *joints, ..*old(self) };
                if old(self).stage->ReadJoints_jump {
                    here.trying_direct()
                } else {
                    Mover { stage: Stage::CheckPath { check: PathCheck::fresh(true) }, ..here }
                }
            }),
            r is Ok ==> *final(self) == old(self).prepared(*joints),
    {
        check("Read joint position", code)?;
        self.ref_joint = *joints;
        let jump = match self.stage {
            Stage::ReadJoints { jump } => jump,
            _ => false,
        };
        if jump {
            self.try_direct();
        } else {
            self.stage = Stage::CheckPath { check: PathCheck::path_clear(true) };
        }
        Ok(())
    }

    /// Take the pose of the wanted sample of the straight path.
    pub fn on_sample(&mut self, probe: &CartesianPose)
        requires
            old(self).valid(),
            old(self).stage is CheckPath,
            old(self).stage->check.stage is Sample,
        ensures
            final(self).valid(),
            final(self).left() < old(self).left(),
            *final(self) == old(self).sampled(*probe),
    {
        if let Stage::CheckPath { check } = self.stage {
            let mut next = check;
            next.on_probe(probe);
            self.follow(next);
        }
    }

    /// Take a step of the path check. The straight path is followed when it is
    /// clear, and never to a target below the safe height.
    fn follow(&mut self, next: PathCheck)
        ensures
            *final(self) == old(self).following(next),
    {
        match next.stage {
            PathStage::Done { clear } => {
                if clear && !too_low(&self.target) {
                    self.stage = Stage::Linear;
                } else {
                    self.try_direct();
                }
            },
            _ => {
                self.stage = Stage::CheckPath { check: next };
            },
        }
    }

    /// Take how the linear motion ended.
    pub fn on_linear(&mut self, outcome: &Outcome)
        requires
            old(self).valid(),
            old(self).stage is Linear,
        ensures
            final(self).valid(),
            final(self).left() < old(self).left(),
            *final(self) == if complaint("Motion"@, *outcome) is None {
                Mover { stage: Stage::Report { goal: old(self).target }, ..*old(self) }
            } else {
                old(self).trying_direct()
            },
            *final(self) == old(self).followed(*outcome),
    {
        if run_blocking_motion(outcome).is_ok() {
            self.stage = Stage::Report { goal: self.target };
        } else {
            self.try_direct();
        }
    }

    /// Take the joint solution, if there is one, of the pose that is tried or of
    /// the sample of the straight path.
    pub fn on_solution(&mut self, solution: &Option<JointValue>)
        requires
            old(self).valid(),
            old(self).wants() is Solve,
        ensures
            final(self).valid(),
            final(self).left() < old(self).left(),
            *final(self) == old(self).solved(*solution),
    {
        if let Stage::CheckPath { check } = self.stage {
            let mut next = check;
            next.on_solution(solution.is_some());
            self.follow(next);
            return;
        }
        if let Stage::Solve { aim, purpose } = self.stage {
            match solution {
                Some(joint) => {
                    self.stage = Stage::Attempt { aim, purpose, joint: *joint };
                },
                None => {
                    self.miss(purpose);
                    self.go_on(purpose);
                },
            }
        }
    }

    /// Take how the joint motion ended. After a failure the controller may have
    /// entered an error state that blocks further motions.
    pub fn on_attempt(&mut self, outcome: &Outcome)
        requires
            old(self).valid(),
            old(self).stage is Attempt,
        ensures
            final(self).valid(),
            final(self).left() < old(self).left(),
            *final(self) == old(self).attempted(*outcome),
    {
        if let Stage::Attempt { aim, purpose, .. } = self.stage {
            if run_blocking_motion(outcome).is_ok() {
                self.stage = Stage::Land { aim, purpose };
            } else {
                self.stage = Stage::Clear { aim, purpose };
            }
        }
    }

    /// Take that the error state was cleared, with whatever code.
    pub fn on_cleared(&mut self)
        requires
            old(self).valid(),
            old(self).stage is Clear,
        ensures
            final(self).valid(),
            final(self).left() < old(self).left(),
            *final(self) == old(self).cleared(),
    {
        if let Stage::Clear { aim, purpose } = self.stage {
            self.stage = Stage::Land { aim, purpose };
        }
    }

    /// Take the pose after a motion, its gap to the aim, and how far along the
    /// way to the target it lies. Where the robot landed counts, whatever the
    /// motion returned: the aim itself ends the move, any other pose is where
    /// the next attempt starts, and in the search a pose farther along than
    /// before is the last one reached.
    pub fn on_landed(
        &mut self,
        code: errno_t,
        actual: &CartesianPose,
        gap: &PoseGap,
        along: Double,
    ) -> (r: Result<(), String>)
        requires
            old(self).valid(),
            old(self).stage is Land,
        ensures
            r is Ok <==> code == ERR_SUCC,
            r matches Err(e) ==> e@ == failure("Read TCP position"@, code as int),
            r is Ok ==> final(self).valid(),
            r is Ok ==> final(self).left() < old(self).left(),
            r is Ok ==> *final(self) == old(self).landed(*actual, *gap, along),
    {
        check("Read TCP position", code)?;
        if let Stage::Land { aim, purpose } = self.stage {
            match purpose {
                Purpose::Probe { .. } => {
                    if self.lo.less(along) {
                        self.lo = along;
                        self.reached = Some(*actual);
                        self.stage = Stage::Refresh { purpose };
                    } else {
                        self.miss(purpose);
                        self.go_on(purpose);
                    }
                },
                _ => {
                    if pose_close(gap) {
                        self.stage = Stage::Report { goal: aim };
                    } else {
                        self.cur = *actual;
                        self.stage = Stage::Refresh { purpose };
                    }
                },
            }
        }
        Ok(())
    }

    /// Take the joints after a motion that did not lead to its aim.
    pub fn on_refreshed(&mut self, code: errno_t, joints: &JointValue) -> (r: Result<(), String>)
        requires
            old(self).valid(),
            old(self).stage is Refresh,
        ensures
            r is Ok <==> code == ERR_SUCC,
            r matches Err(e) ==> e@ == failure("Read joint position"@, code as int),
            r is Ok ==> final(self).valid(),
            r is Ok ==> final(self).left() < old(self).left(),
            r is Ok ==> *final(self) == old(self).refreshed(*joints),
    {
        check("Read joint position", code)?;
        self.ref_joint = *joints;
        if let Stage::Refresh { purpose } = self.stage {
            self.go_on(purpose);
        }
        Ok(())
    }

    /// Take the width of the search, its middle, and the pose there. The search
    /// ends when it is narrow. A middle below the safe height is not tried.
    pub fn on_split(&mut self, width: Double, mid: Double, probe: &CartesianPose)
        requires
            old(self).valid(),
            old(self).stage is Split,
        ensures
            final(self).valid(),
            final(self).left() < old(self).left(),
            *final(self) == old(self).split(width, mid, *probe),
    {
        let purpose = Purpose::Probe { mid };
        if width.less(Double { bits: NARROW }) {
            self.settle();
        } else {
            self.rounds = self.rounds - 1;
            if too_low(probe) {
                self.miss(purpose);
                self.go_on(purpose);
            } else {
                self.stage = Stage::Solve { aim: *probe, purpose };
            }
        }
    }

    /// Take the final pose, by the code of the call and its distance in mm to
    /// the goal. The result says whether that distance is large.
    pub fn report_final(&mut self, code: errno_t, error: Double) -> (r: Result<bool, String>)
        requires
            old(self).valid(),
            old(self).stage is Report,
        ensures
            r is Ok <==> code == ERR_SUCC,
            r matches Err(e) ==> e@ == failure("Read final TCP position"@, code as int),
            r matches Ok(large) ==> large == (Double { bits: LARGE_ERROR }).below(error),
            r matches Ok(large) ==> large == is_large(error),
            r is Ok ==> final(self).valid(),
            r is Ok ==> *final(self) == (Mover { stage: Stage::Done, ..*old(self) }),
            r is Ok ==> *final(self) == old(self).told(),
    {
        check("Read final TCP position", code)?;
        self.stage = Stage::Done;
        Ok((Double { bits: LARGE_ERROR }).less(error))
    }

    /// The pose at which the search aims: the target, at the safe height when
    /// it is below.
    fn safe_target(&self) -> (r: CartesianPose)
        ensures
            r == raised(self.target),
    {
        let mut p = self.target;
        if too_low(&p) {
            p.tran.z = Double { bits: LOW_Z };
        }
        p
    }

    fn try_direct(&mut self)
        ensures
            *final(self) == old(self).trying_direct(),
    {
        if too_low(&self.target) {
            self.search();
        } else {
            self.stage = Stage::Solve { aim: self.target, purpose: Purpose::Direct };
        }
    }

    fn go_on(&mut self, purpose: Purpose)
        ensures
            *final(self) == old(self).going_on(purpose),
    {
        match purpose {
            Purpose::Direct => {
                if self.explicit || too_low(&self.target) {
                    self.search();
                } else {
                    let mut aim = self.target;
                    aim.rpy.rx = self.target.rpy.rx.negate();
                    aim.rpy.ry = self.target.rpy.ry.negate();
                    self.stage = Stage::Solve { aim, purpose: Purpose::Mirrored };
                }
            },
            Purpose::Mirrored => self.search(),
            Purpose::Probe { .. } => {
                if self.rounds == 0 {
                    self.settle();
                } else {
                    self.stage = Stage::Split;
                }
            },
        }
    }

    fn miss(&mut self, purpose: Purpose)
        ensures
            *final(self) == old(self).missed(purpose),
    {
        if let Purpose::Probe { mid } = purpose {
            self.hi = mid;
        }
    }

    fn search(&mut self)
        ensures
            *final(self) == old(self).searching(),
    {
        self.lo = Double { bits: 0 };
        self.hi = Double { bits: FAR_END };
        self.rounds = PROBES;
        self.reached = None;
        self.stage = Stage::Split;
    }

    fn settle(&mut self)
        ensures
            *final(self) == old(self).settled(),
    {
        match self.reached {
            Some(goal) => {
                self.stage = Stage::Report { goal };
            },
            None => {
                self.stage = Stage::Done;
            },
        }
    }
}

/// A pose below the safe height is never solved for and never moved to, be it
/// linearly or with the joints, and the way that is searched ends at the safe
/// height or above it.
pub proof fn move_stays_high(m: Mover)
    requires
        m.valid(),
    ensures
        m.wants() matches MoveCall::Solve { pose, .. } ==> !is_too_low(pose),
        m.wants() matches MoveCall::LinearMove { target, .. } ==> !is_too_low(target),
        m.stage matches Stage::Attempt { aim, .. } ==> !is_too_low(aim),
        m.wants() matches MoveCall::Split { to, .. } ==> !is_too_low(to),
{
    crate::number::lemma_units_order(LOW_Z as nat, LOW_Z as nat);
}

/// The orientation is mirrored only when none was given, and then the position
/// stays that of the target.
pub proof fn move_mirrors_only_unasked(m: Mover)
    requires
        m.valid(),
    ensures
        m.stage matches Stage::Solve { aim, purpose: Purpose::Mirrored } ==> !m.explicit
            && !m.from_file && aim.tran == m.target.tran && aim.rpy.rz == m.target.rpy.rz,
{
}

/// A move ends: it never takes more answers than this, since every answer that
/// does not end it lowers the bound.
pub proof fn move_is_bounded(m: Mover)
    requires
        m.valid(),
    ensures
        0 <= m.left() <= 264,
        m.left() == 0 <==> m.wants() is Finished,
{
}

impl Mover {
    /// The move goes straight to its target, when the samples of the path are
    /// `probes` and `solved` says which of them have a joint solution.
    pub open spec fn goes_straight(self, probes: Seq<CartesianPose>, solved: Seq<bool>) -> bool {
        match self.stage {
            Stage::CheckPath { check } => check.judges(probes, solved) && !is_too_low(self.target),
            Stage::Linear => true,
            _ => false,
        }
    }

    /// The move when it is about to compute its target, from the current pose,
    /// the pose file where there is one, and the base pose where it counts.
    pub open spec fn informed(
        self,
        cur: CartesianPose,
        head_pos: Seq<Double>,
        angles: Option<Seq<Double>>,
        base: CartesianPose,
    ) -> Mover {
        let here = self.located(cur);
        let told = if self.from_file {
            here.instructed(head_pos, angles)
        } else {
            here
        };
        if self.rel {
            told.based(base)
        } else {
            told
        }
    }

    /// The search has had these landings: none lies farther along than the
    /// point it has reached, and the pose it has reached is one of them.
    pub open spec fn tracks(self, landings: Seq<Landing>) -> bool {
        &&& forall|i: int| 0 <= i < landings.len() ==> !self.lo.below(#[trigger] landings[i].along)
        &&& match self.reached {
            Some(pose) => exists|i: int|
                0 <= i < landings.len() && (#[trigger] landings[i]) == (Landing {
                    pose,
                    along: self.lo,
                }),
            None => self.lo == zero_number(),
        }
    }
}

/// Where a motion of the search ended, and how far along the way that is.
pub struct Landing {
    pub pose: CartesianPose,
    pub along: Double,
}

/// The straight path is followed exactly when all its samples can be passed, the
/// heights among them, and the target is not below the safe height: a new check
/// starts with that verdict, and answering what the move asks never changes it.
pub proof fn move_goes_straight_when_clear(
    m: Mover,
    probes: Seq<CartesianPose>,
    solved: Seq<bool>,
    solution: Option<JointValue>,
)
    requires
        m.valid(),
        m.stage is CheckPath,
        probes.len() == SAMPLES + 1,
        solved.len() == SAMPLES + 1,
        m.stage->check.stage matches PathStage::Solve { index, probe } ==> probe
            == probes[index as int] && solution is Some == solved[index as int],
    ensures
        m.stage->check == PathCheck::fresh(true) ==> (m.goes_straight(probes, solved)
            <==> !is_too_low(m.target) && forall|k: int|
            0 <= k <= SAMPLES ==> passable(true, #[trigger] probes[k], solved[k])),
        m.stage->check.stage matches PathStage::Sample { index } ==> m.sampled(
            probes[index as int],
        ).goes_straight(probes, solved) == m.goes_straight(probes, solved),
        m.stage->check.stage is Solve ==> m.solved(solution).goes_straight(probes, solved)
            == m.goes_straight(probes, solved),
{
    path_clear_means_all(m.stage->check, probes, solved);
}

/// When the joint search finds the solutions, a path is followed straight only
/// if for every sample the controller gave joints that are within their limits
/// and lead to it. `answers` holds what the controller answers for each sample.
pub proof fn straight_path_is_solved(
    m: Mover,
    probes: Seq<CartesianPose>,
    answers: Seq<Seq<IkAnswer>>,
    k: int,
)
    requires
        m.valid(),
        m.stage == (Stage::CheckPath { check: PathCheck::fresh(true) }),
        probes.len() == SAMPLES + 1,
        answers.len() == SAMPLES + 1,
        m.goes_straight(
            probes,
            answers.map_values(|a: Seq<IkAnswer>| first_solution(a, 0) is Some),
        ),
        0 <= k <= SAMPLES,
    ensures
        !is_too_low(probes[k]),
        exists|i: int|
            0 <= i < answers[k].len() && (#[trigger] answers[k][i]).solved()
                && answers[k][i].confirmed(),
{
    let solved = answers.map_values(|a: Seq<IkAnswer>| first_solution(a, 0) is Some);
    path_clear_means_all(m.stage->check, probes, solved);
    assert(passable(true, probes[k], solved[k]));
    ik_solution_verified(answers[k], 0);
    let i = choose|i: int|
        0 <= i < answers[k].len() && answers[k][i].solved() && answers[k][i].confirmed()
            && #[trigger] answers[k][i].joint == first_solution(answers[k], 0)->0;
    assert(answers[k][i].solved());
}

/// When the joint search finds the solution, a joint motion is made only with
/// joints that the controller gave for the tried pose, that are within their
/// limits and that lead to it.
pub proof fn moved_joints_are_solved(m: Mover, answers: Seq<IkAnswer>)
    requires
        m.valid(),
        m.stage is Solve,
    ensures
        m.solved(first_solution(answers, 0)).wants() matches MoveCall::JointMove { joint, .. }
            ==> !is_too_low(m.stage->Solve_aim) && exists|i: int|
            0 <= i < answers.len() && answers[i].solved() && answers[i].confirmed()
                && #[trigger] answers[i].joint == joint,
{
    ik_solution_verified(answers, 0);
}

/// Repeating a move gives it the same target position, wherever the robot is
/// when it starts: the current pose plays no part in it. Where the orientation
/// is then that of the first target, the whole target is the same.
pub proof fn repeated_move_has_same_target(
    first: Mover,
    second: Mover,
    here: CartesianPose,
    there: CartesianPose,
    head_pos: Seq<Double>,
    angles: Option<Seq<Double>>,
    base: CartesianPose,
    sum: CartesianTran,
    rx: Option<Double>,
    ry: Option<Double>,
    rz: Option<Double>,
)
    requires
        first.stage is ReadTcp,
        second.stage is ReadTcp,
        first.wanted == second.wanted,
        first.rel == second.rel,
        first.from_file == second.from_file,
    ensures
        ({
            let a = first.informed(here, head_pos, angles, base);
            let b = second.informed(there, head_pos, angles, base);
            &&& a.wants() is Aim
            &&& a.wants() == b.wants()
            &&& a.aimed(sum, rx, ry, rz).target.tran == b.aimed(sum, rx, ry, rz).target.tran
            &&& there.rpy == a.aimed(sum, rx, ry, rz).target.rpy ==> a.aimed(sum, rx, ry, rz).target
                == b.aimed(sum, rx, ry, rz).target
        }),
{
}

/// The search starts without a landing. A landing never moves back the point
/// that it has reached, and that point is always the landing farthest along.
pub proof fn search_keeps_farthest(
    m: Mover,
    landings: Seq<Landing>,
    actual: CartesianPose,
    gap: PoseGap,
    along: Double,
)
    requires
        m.stage matches Stage::Land { purpose: Purpose::Probe { .. }, .. },
        m.tracks(landings),
    ensures
        m.searching().tracks(Seq::empty()),
        !m.landed(actual, gap, along).lo.below(m.lo),
        m.landed(actual, gap, along).tracks(landings.push(Landing { pose: actual, along })),
{
    let next = m.landed(actual, gap, along);
    let all = landings.push(Landing { pose: actual, along });
    assert forall|i: int| 0 <= i < all.len() implies !next.lo.below(#[trigger] all[i].along) by {
        if i < landings.len() {
            assert(all[i] == landings[i]);
            assert(!m.lo.below(landings[i].along));
        }
    }
    if m.lo.below(along) {
        assert(all[landings.len() as int] == (Landing { pose: actual, along: next.lo }));
    } else if m.reached is Some {
        let i = choose|i: int|
            0 <= i < landings.len() && (#[trigger] landings[i]) == (Landing {
                pose: m.reached->0,
                along: m.lo,
            });
        assert(all[i] == landings[i]);
    }
}

/// No other answer of the search changes what it has reached.
pub proof fn search_record_stands(
    m: Mover,
    landings: Seq<Landing>,
    width: Double,
    mid: Double,
    probe: CartesianPose,
    solution: Option<JointValue>,
    outcome: Outcome,
    joints: JointValue,
)
    requires
        m.tracks(landings),
    ensures
        m.stage is Split ==> m.split(width, mid, probe).tracks(landings),
        m.stage matches Stage::Solve { purpose: Purpose::Probe { .. }, .. } ==> m.solved(
            solution,
        ).tracks(landings),
        m.stage matches Stage::Attempt { purpose: Purpose::Probe { .. }, .. } ==> m.attempted(
            outcome,
        ).tracks(landings),
        m.stage matches Stage::Clear { purpose: Purpose::Probe { .. }, .. } ==> m.cleared().tracks(
            landings,
        ),
        m.stage matches Stage::Refresh { purpose: Purpose::Probe { .. } } ==> m.refreshed(
            joints,
        ).tracks(landings),
{
}

/// The search ends at the landing that lies farthest along the way to the
/// target, and where the robot was when no landing lies beyond its start.
pub proof fn search_ends_farthest(m: Mover, landings: Seq<Landing>)
    requires
        m.tracks(landings),
    ensures
        match m.settled().stage {
            Stage::Report { goal } => exists|i: int|
                0 <= i < landings.len() && (#[trigger] landings[i]).pose == goal && (forall|k: int|
                    0 <= k < landings.len() ==> !landings[i].along.below(
                        #[trigger] landings[k].along,
                    )),
            _ => forall|k: int|
                0 <= k < landings.len() ==> !zero_number().below(#[trigger] landings[k].along),
        },
{
}

/// What is known of the base pose file.
#[derive(Clone, Copy, Debug, PartialEq, Eq, Structural)]
pub enum BaseFile {
    /// There is none that can be read.
    Absent,
    /// It does not hold a base pose.
    Invalid,
    /// It holds this position.
    Saved { tran: CartesianTran },
}

/// What is saved of a pose as the base pose: its position.
pub open spec fn saved(cur: CartesianPose) -> BaseFile {
    BaseFile::Saved { tran: cur.tran }
}

/// The base pose of a file: the saved position without an orientation, and that
/// it comes from the file.
pub open spec fn loaded(file: BaseFile) -> Option<(CartesianPose, bool)> {
    match file {
        BaseFile::Saved { tran } => Some((CartesianPose { tran, ..CartesianPose::origin() }, true)),
        _ => None,
    }
}

/// Save the position of a pose as the base pose.
pub fn set_base(cur: &CartesianPose) -> (r: BaseFile)
    ensures
        r == saved(*cur),
{
    BaseFile::Saved { tran: cur.tran }
}

/// Load the base pose: the saved one, with true, if there is one. Without one
/// the robot home has to be computed.
pub fn load_base(file: &BaseFile) -> (r: Option<(CartesianPose, bool)>)
    ensures
        r == loaded(*file),
{
    match file {
        BaseFile::Saved { tran } => {
            let mut base = CartesianPose::zero();
            base.tran = *tran;
            Some((base, true))
        },
        _ => None,
    }
}

/// The base pose that is loaded has the position that was saved, whatever the
/// orientation was, and needs no controller call.
pub proof fn saved_base_is_loaded(cur: CartesianPose)
    ensures
        loaded(saved(cur)) == Some(
            (CartesianPose { tran: cur.tran, rpy: CartesianPose::origin().rpy }, true),
        ),
{
}

/// Take the robot home as the base pose, from the code and the result of the
/// forward kinematics with all joints at zero.
pub fn home_base(code: errno_t, home: &CartesianPose) -> (r: Result<(CartesianPose, bool), String>)
    ensures
        r is Ok <==> code == ERR_SUCC,
        r matches Ok(base) ==> base == (*home, false),
        r matches Err(e) ==> e@ == failure("Compute home pose"@, code as int),
{
    check("Compute home pose", code)?;
    Ok((*home, false))
}

/// The message for a file that could not be read.
pub fn read_failure(path: &str, reason: &str) -> (r: String)
    ensures
        r@ == "Failed to read "@ + path@ + ": "@ + reason@,
{
    let mut s = concat3("Failed to read ", path, ": ");
    s.append(reason);
    s
}

/// The message for a file that could not be written.
pub fn write_failure(path: &str, reason: &str) -> (r: String)
    ensures
        r@ == "Failed to write "@ + path@ + ": "@ + reason@,
{
    let mut s = concat3("Failed to write ", path, ": ");
    s.append(reason);
    s
}

/// The message for a pose file that is not one.
pub fn pose_json_failure(path: &str, reason: &str) -> (r: String)
    ensures
        r@ == "Invalid pose JSON in "@ + path@ + ": "@ + reason@,
{
    let mut s = concat3("Invalid pose JSON in ", path, ": ");
    s.append(reason);
    s
}

// ---------------------------------------------------------------------------
// What a move does, step by step

/// The numbers of a move are what they are called.
pub proof fn move_numbers_are_exact()
    ensures
        (Double { bits: FAR_END }).units() == whole(1),
        (Double { bits: LARGE_ERROR }).units() == whole(2),
        (Double { bits: TRY_SPEED }).units() == whole(3),
        (Double { bits: JOINT_ACC }).units() == whole(1),
        (Double { bits: LINEAR_ACC }).units() == whole(500),
        (Double { bits: 0 }).units() == 0,
        whole(1) == pow2(1074),
        whole(1) > 0,
{
    lemma2_to64();
    vstd::arithmetic::power2::lemma2_to64_rest();
    lemma_whole_pattern(FAR_END, 1);
    lemma_whole_pattern(LARGE_ERROR, 2);
    lemma_whole_pattern(TRY_SPEED, 3);
    lemma_whole_pattern(JOINT_ACC, 1);
    assert(500 * 0x1000_0000_0000 == 0x10_0000_0000_0000 + 0xf_4000_0000_0000);
    lemma_whole_pattern(LINEAR_ACC, 500);
    lemma_pow2_pos(1074);
}

/// An error is large exactly above 2 mm.
pub proof fn large_means_above_two(error: Double)
    ensures
        is_large(error) <==> !error.is_nan() && error.units() > whole(2),
{
    move_numbers_are_exact();
}

/// A move is aimed as it was asked: an absolute one at the wanted position, a
/// relative one at the sum of base and offset, one from a file at the position
/// and the three angles of the file. An angle that was given counts, one that
/// was not stays the current one.
pub proof fn move_is_aimed_as_asked(
    m: Mover,
    here: CartesianPose,
    head_pos: Seq<Double>,
    angles: Option<Seq<Double>>,
    base: CartesianPose,
    sum: CartesianTran,
    rx: Option<Double>,
    ry: Option<Double>,
    rz: Option<Double>,
)
    requires
        m.stage is ReadTcp,
    ensures
        m.wants() is ReadTcp,
        m.from_file ==> m.located(here).wants() is ReadPoseFile,
        !m.from_file && m.rel ==> m.located(here).wants() is LoadBase,
        ({
            let a = m.informed(here, head_pos, angles, base);
            let t = a.aimed(sum, rx, ry, rz).target;
            &&& a.cur == here
            &&& a.speed == m.speed
            &&& a.explicit == m.explicit
            &&& a.wants() matches MoveCall::Aim { base: b, wanted } && {
                &&& m.rel ==> b == base.tran && t.tran == sum
                &&& !m.rel ==> t.tran == wanted.tran
                &&& !m.from_file ==> wanted == m.wanted
                &&& m.from_file ==> wanted.tran.x == head_pos[0] && wanted.tran.y == head_pos[1]
                    && wanted.tran.z == head_pos[2]
                &&& m.from_file && (angles matches Some(r) && r.len() == 3) ==> wanted.rx == Some(
                    angles->0[0],
                ) && wanted.ry == Some(angles->0[1]) && wanted.rz == Some(angles->0[2])
                &&& m.from_file && !(angles matches Some(r) && r.len() == 3) ==> wanted.rx is None
                    && wanted.ry is None && wanted.rz is None
            }
            &&& rx matches Some(v) ==> t.rpy.rx == v
            &&& ry matches Some(v) ==> t.rpy.ry == v
            &&& rz matches Some(v) ==> t.rpy.rz == v
            &&& rx is None ==> t.rpy.rx == here.rpy.rx
            &&& ry is None ==> t.rpy.ry == here.rpy.ry
            &&& rz is None ==> t.rpy.rz == here.rpy.rz
            &&& a.aimed(sum, rx, ry, rz).cur == here
            &&& a.aimed(sum, rx, ry, rz).wants() matches MoveCall::Turn { now, later } && now
                == here.rpy && later == t.rpy
        }),
{
}

/// The straight path is looked at exactly when no angle changes by more than 30
/// degrees. It leads from the current pose to the target, and the joints that
/// were read are the reference from then on.
pub proof fn large_turn_skips_the_path(
    m: Mover,
    rx: Double,
    ry: Double,
    rz: Double,
    joints: JointValue,
)
    requires
        m.valid(),
        m.stage is Turn,
    ensures
        ({
            let far = (Double { bits: BIG_TURN }).units();
            let large = (!rx.is_nan() && rx.units() > far) || (!ry.is_nan() && ry.units() > far) || (
            !rz.is_nan() && rz.units() > far);
            let t = m.turned(rx, ry, rz);
            let p = t.prepared(joints);
            &&& t.wants() is ReadJoints
            &&& p.cur == m.cur && p.target == m.target && p.ref_joint == joints && p.speed
                == m.speed
            &&& !large ==> (p.wants() matches MoveCall::Sample { from, to, index } && from == m.cur
                && to == m.target && index == 0)
            &&& large && !is_too_low(m.target) ==> (p.wants() matches MoveCall::Solve {
                reference,
                from,
                pose,
            } && reference == joints && from == m.cur && pose == m.target)
            &&& large && is_too_low(m.target) ==> p.wants() is Split
        }),
{
}

/// The samples of the straight path are asked for in order, on the way from the
/// current pose to the target, and each is solved for from the joints that were
/// read. After the last, a linear motion goes to the target itself, absolute,
/// at the speed that was asked for and 500 mm/s^2, and blocks until it ends.
pub proof fn straight_path_leads_to_target(m: Mover, probe: CartesianPose, joint: JointValue)
    requires
        m.valid(),
        m.stage is CheckPath,
    ensures
        m.stage->check.stage matches PathStage::Sample { index } ==> {
            &&& m.wants() matches MoveCall::Sample { from, to, index: i } && from == m.cur && to
                == m.target && i == index
            &&& !is_too_low(probe) ==> (m.sampled(probe).wants() matches MoveCall::Solve {
                reference,
                from,
                pose,
            } && reference == m.ref_joint && from == m.cur && pose == probe)
            &&& is_too_low(probe) ==> m.sampled(probe).wants() !is LinearMove
                && m.sampled(probe).wants() !is Sample
        },
        m.stage->check.stage matches PathStage::Solve { index, .. } ==> {
            let next = m.solved(Some(joint));
            &&& index < 8 ==> (next.wants() matches MoveCall::Sample { from, to, index: i } && from
                == m.cur && to == m.target && i == index + 1)
            &&& index == 8 && !is_too_low(m.target) ==> (next.wants() matches MoveCall::LinearMove {
                target,
                mode,
                speed,
                acc,
                tol,
                block,
            } && {
                &&& target == m.target
                &&& mode is Abs
                &&& speed == m.speed
                &&& acc.units() == whole(500)
                &&& tol.units() == 0
                &&& block
            })
            &&& m.solved(None).wants() !is LinearMove && m.solved(None).wants() !is Sample
        },
{
    move_numbers_are_exact();
}

/// A linear motion that ended well ends the move at the target; after one that
/// did not, the target is tried with the joints, from where they were read, or
/// searched for when it is too low.
pub proof fn failed_line_is_tried_with_joints(m: Mover, outcome: Outcome)
    requires
        m.valid(),
        m.stage is Linear,
    ensures
        outcome is Interrupted || (outcome matches Outcome::Returned { code } && code == 0) ==> (
        m.followed(outcome).wants() matches MoveCall::Report { goal } && goal == m.target),
        outcome is Panicked || (outcome matches Outcome::Returned { code } && code != 0) ==> (
        m.followed(outcome).wants() matches MoveCall::Solve { reference, from, pose } && reference
            == m.ref_joint && from == m.cur && pose == m.target),
{
}

/// A pose that is tried is solved for from the current pose and joints. Its
/// solution is moved to, absolute, at 3 rad/s and 1 rad/s^2, and blocking until
/// it ends. Whatever the motion returns, the pose after it is looked at, against
/// the same pose that was tried; an error state is cleared first.
pub proof fn tried_pose_is_moved_to(m: Mover, joint: JointValue, outcome: Outcome)
    requires
        m.valid(),
        m.stage is Solve,
    ensures
        ({
            let tried = m.solved(Some(joint));
            let ended = tried.attempted(outcome);
            let fine = outcome is Interrupted || (outcome matches Outcome::Returned { code } && code
                == 0);
            let looked = if fine {
                ended
            } else {
                ended.cleared()
            };
            &&& m.wants() matches MoveCall::Solve { reference, from, pose } && reference
                == m.ref_joint && from == m.cur && pose == m.stage->Solve_aim
            &&& tried.wants() matches MoveCall::JointMove { joint: j, mode, speed, acc, tol, block }
                && {
                &&& j == joint
                &&& mode is Abs
                &&& speed.units() == whole(3)
                &&& acc.units() == whole(1)
                &&& tol.units() == 0
                &&& block
            }
            &&& !fine ==> ended.wants() is ClearError
            &&& looked.wants() matches MoveCall::Land { aim, from, to } && aim
                == m.stage->Solve_aim && from == m.cur && to == raised(m.target)
            &&& looked.stage->Land_purpose == m.stage->Solve_purpose
            &&& looked.cur == m.cur && looked.target == m.target && looked.ref_joint == m.ref_joint
                && looked.lo == m.lo && looked.hi == m.hi && looked.reached == m.reached
                && looked.rounds == m.rounds
        }),
{
    move_numbers_are_exact();
}

/// What comes after the target was tried: the mirrored orientation when none was
/// given, else the search; and after the mirrored orientation the search. It
/// starts with all of the way before it and twenty points to try.
pub proof fn attempts_come_in_order(m: Mover)
    requires
        m.valid(),
        m.stage is Solve,
        !(m.stage->Solve_purpose is Probe),
    ensures
        ({
            let next = m.solved(None);
            let mirrors = m.stage->Solve_purpose is Direct && !m.explicit;
            &&& next.cur == m.cur && next.target == m.target && next.ref_joint == m.ref_joint
            &&& mirrors ==> (next.wants() matches MoveCall::Solve { reference, from, pose } && {
                &&& reference == m.ref_joint
                &&& from == m.cur
                &&& pose.tran == m.target.tran
                &&& pose.rpy.rx.units() == -m.target.rpy.rx.units()
                &&& pose.rpy.ry.units() == -m.target.rpy.ry.units()
                &&& pose.rpy.rz == m.target.rpy.rz
            })
            &&& !mirrors ==> (next.wants() matches MoveCall::Split { lo, hi, from, .. } && {
                &&& lo.units() == 0
                &&& hi.units() == whole(1)
                &&& from == m.cur
                &&& next.rounds == 20
                &&& next.reached is None
            })
        }),
{
    move_numbers_are_exact();
    signs_change_values(m.target.rpy.rx);
    signs_change_values(m.target.rpy.ry);
}

/// A pose that was reached within the tolerances ends the move there. Otherwise
/// the robot may be anywhere, so what follows starts from the pose and the joints
/// that were read after the motion.
pub proof fn attempts_start_where_the_last_ended(
    m: Mover,
    actual: CartesianPose,
    gap: PoseGap,
    along: Double,
    joints: JointValue,
)
    requires
        m.valid(),
        m.stage is Land,
        !(m.stage->Land_purpose is Probe),
    ensures
        gap_closed(gap) ==> (m.landed(actual, gap, along).wants() matches MoveCall::Report { goal }
            && goal == m.stage->Land_aim),
        !gap_closed(gap) ==> ({
            let landed = m.landed(actual, gap, along);
            let next = landed.refreshed(joints);
            &&& landed.wants() is ReadJoints
            &&& next.cur == actual
            &&& next.ref_joint == joints
            &&& next.target == m.target
            &&& match next.wants() {
                MoveCall::Solve { reference, from, .. } => reference == joints && from == actual
                    && m.stage->Land_purpose is Direct && !m.explicit,
                MoveCall::Split { from, lo, hi, .. } => from == actual && lo.units() == 0
                    && hi.units() == whole(1) && (m.stage->Land_purpose is Mirrored || m.explicit),
                _ => false,
            }
        }),
{
    move_numbers_are_exact();
}

/// The search leads from the current pose to the target, or where the target is
/// below 100 mm to the point at that height above it, and a landing is measured
/// on that same way.
pub proof fn search_keeps_its_way(m: Mover)
    ensures
        m.stage is Split ==> (m.wants() matches MoveCall::Split { lo, hi, from, to } && lo == m.lo
            && hi == m.hi && from == m.cur && to == raised(m.target)),
        m.stage is Land ==> (m.wants() matches MoveCall::Land { from, to, .. } && from == m.cur
            && to == raised(m.target)),
        raised(m.target).tran.x == m.target.tran.x,
        raised(m.target).tran.y == m.target.tran.y,
        raised(m.target).rpy == m.target.rpy,
        is_too_low(m.target) ==> raised(m.target).tran.z.units() == whole(100),
        !is_too_low(m.target) ==> raised(m.target) == m.target,
{
    limits_are_exact();
}

/// The search narrows with every answer. A point that brought the robot no
/// farther, for want of a solution, for its height, or by where it landed, is
/// the new far end. A point that did is the new near end. Either way the other
/// end stays, and the way and its start stay too.
pub proof fn search_narrows(
    m: Mover,
    width: Double,
    mid: Double,
    probe: CartesianPose,
    actual: CartesianPose,
    gap: PoseGap,
    along: Double,
    joints: JointValue,
)
    requires
        m.valid(),
    ensures
        m.stage is Split && !width.below(Double { bits: NARROW }) ==> ({
            let next = m.split(width, mid, probe);
            &&& next.rounds == m.rounds - 1
            &&& next.lo == m.lo && next.reached == m.reached && next.cur == m.cur && next.target
                == m.target
            &&& is_too_low(probe) ==> next.hi == mid
            &&& !is_too_low(probe) ==> next.hi == m.hi && (next.wants() matches MoveCall::Solve {
                reference,
                from,
                pose,
            } && reference == m.ref_joint && from == m.cur && pose == probe)
            &&& !is_too_low(probe) ==> next.stage->Solve_purpose == (Purpose::Probe { mid })
            &&& is_too_low(probe) && m.rounds > 1 ==> (next.wants() matches MoveCall::Split {
                lo,
                hi,
                ..
            } && lo == m.lo && hi == mid)
        }),
        m.stage is Split && width.below(Double { bits: NARROW }) ==> m.split(
            width,
            mid,
            probe,
        ).wants() == (match m.reached {
            Some(goal) => MoveCall::Report { goal },
            None => MoveCall::Finished,
        }),
        (m.stage matches Stage::Solve { purpose: Purpose::Probe { mid: p }, .. } && p == mid) ==> ({
            let next = m.solved(None);
            &&& next.hi == mid
            &&& next.lo == m.lo && next.reached == m.reached && next.cur == m.cur && next.target
                == m.target
            &&& m.rounds > 0 ==> (next.wants() matches MoveCall::Split { lo, hi, .. } && lo == m.lo
                && hi == mid)
            &&& m.rounds == 0 ==> next.wants() == (match m.reached {
                Some(goal) => MoveCall::Report { goal },
                None => MoveCall::Finished,
            })
        }),
        (m.stage matches Stage::Land { purpose: Purpose::Probe { mid: p }, .. } && p == mid)
            && !m.lo.below(along) ==> ({
            let next = m.landed(actual, gap, along);
            &&& next.hi == mid
            &&& next.lo == m.lo && next.reached == m.reached && next.cur == m.cur && next.target
                == m.target
            &&& m.rounds > 0 ==> (next.wants() matches MoveCall::Split { lo, hi, .. } && lo == m.lo
                && hi == mid)
            &&& m.rounds == 0 ==> next.wants() == (match m.reached {
                Some(goal) => MoveCall::Report { goal },
                None => MoveCall::Finished,
            })
        }),
        (m.stage matches Stage::Land { purpose: Purpose::Probe { .. }, .. }) && m.lo.below(along)
            ==> ({
            let landed = m.landed(actual, gap, along);
            let next = landed.refreshed(joints);
            &&& landed.wants() is ReadJoints
            &&& next.lo == along
            &&& next.hi == m.hi
            &&& next.reached == Some(actual)
            &&& next.cur == m.cur && next.target == m.target
            &&& next.ref_joint == joints
            &&& m.rounds > 0 ==> (next.wants() matches MoveCall::Split { lo, hi, .. } && lo
                == along && hi == m.hi)
            &&& m.rounds == 0 ==> next.wants() == (MoveCall::Report { goal: actual })
        }),
{
}

/// What is answered to one point of the search: its width, its middle, the pose
/// there, the solution of that pose, how the motion ended, where it landed, how
/// far that is from the aim and along the way, and the joints after it.
pub struct ProbeAnswer {
    pub width: Double,
    pub mid: Double,
    pub probe: CartesianPose,
    pub solution: Option<JointValue>,
    pub outcome: Outcome,
    pub actual: CartesianPose,
    pub gap: PoseGap,
    pub along: Double,
    pub joints: JointValue,
}

impl Mover {
    /// The move after one point of the search.
    pub open spec fn after_point(self, a: ProbeAnswer) -> Mover {
        let at_middle = self.split(a.width, a.mid, a.probe);
        if at_middle.stage !is Solve {
            at_middle
        } else {
            let tried = at_middle.solved(a.solution);
            if tried.stage !is Attempt {
                tried
            } else {
                let ended = tried.attempted(a.outcome);
                let looked = if ended.stage is Clear {
                    ended.cleared()
                } else {
                    ended
                };
                let landed = looked.landed(a.actual, a.gap, a.along);
                if landed.stage is Refresh {
                    landed.refreshed(a.joints)
                } else {
                    landed
                }
            }
        }
    }

    /// The move after its search, of at most `points` points.
    pub open spec fn after_search(
        self,
        answer: spec_fn(Mover) -> ProbeAnswer,
        points: nat,
    ) -> Mover
        decreases points,
    {
        if points == 0 || self.stage !is Split {
            self
        } else {
            self.after_point(answer(self)).after_search(answer, (points - 1) as nat)
        }
    }

    /// The search is between two neighbours of a grid that cuts the way into
    /// equal parts, `p` of them before it, each two to the power `j` of the
    /// finest parts, of which there are two to the power 20.
    pub open spec fn on_grid(self, j: nat, p: int) -> bool {
        &&& self.stage is Split
        &&& 0 <= p
        &&& !self.lo.is_nan()
        &&& !self.hi.is_nan()
        &&& self.lo.units() == p * pow2(1054 + j)
        &&& self.hi.units() == (p + 1) * pow2(1054 + j)
        &&& self.hi.units() <= whole(1)
    }
}

/// The answers of a way that can be followed up to `last` and not beyond: the
/// width and the middle are those of the search, and the robot lands at a middle
/// up to `last`. One beyond it is too low, has no solution, or brings the robot
/// no farther. `at` tells the poses of the way.
pub open spec fn answers_up_to(
    m: Mover,
    a: ProbeAnswer,
    last: int,
    at: spec_fn(Double) -> CartesianPose,
) -> bool {
    &&& !a.width.is_nan()
    &&& a.width.units() == m.hi.units() - m.lo.units()
    &&& !a.mid.is_nan()
    &&& 2 * a.mid.units() == m.lo.units() + m.hi.units()
    &&& a.mid.units() <= last ==> {
        &&& !is_too_low(a.probe)
        &&& a.solution is Some
        &&& a.along == a.mid
        &&& a.actual == at(a.mid)
    }
    &&& a.mid.units() > last ==> {
        ||| is_too_low(a.probe)
        ||| a.solution is None
        ||| !m.lo.below(a.along)
    }
}

proof fn lemma_narrow_is_a_thousandth()
    ensures
        pow2(1064) < (Double { bits: NARROW }).units() < pow2(1065),
        !(Double { bits: NARROW }).is_nan(),
        1000 * pow2(1064) < whole(1),
        pow2(1064) > 0,
{
    lemma2_to64();
    vstd::arithmetic::power2::lemma2_to64_rest();
    lemma_pow2_adds(52, 1012);
    lemma_pow2_adds(10, 1064);
    lemma_pow2_unfold(1065);
    lemma_pow2_pos(1064);
    lemma_pow2_pos(1012);
    let q = pow2(1012) as int;
    let f = 0x10_0000_0000_0000int;
    let x = 0x624d_d2f1_a9fcint;
    assert(NARROW / 0x10_0000_0000_0000 == 1013 && NARROW % 0x10_0000_0000_0000 == x);
    assert((f + x) * q == f * q + x * q) by (nonlinear_arith);
    assert(0 < x * q < f * q) by (nonlinear_arith)
        requires
            0 < x < f,
            q > 0,
    ;
    assert(pow2(10) == 1024);
    assert(pow2(52) == f);
}

proof fn lemma_search_from(
    m: Mover,
    answer: spec_fn(Mover) -> ProbeAnswer,
    at: spec_fn(Double) -> CartesianPose,
    last: int,
    j: nat,
    p: int,
    points: nat,
)
    requires
        10 <= j <= 20,
        m.valid(),
        m.on_grid(j, p),
        m.rounds == j,
        points >= j,
        0 <= last,
        m.lo.units() <= last,
        last < m.hi.units() || m.hi.units() == whole(1),
        m.reached is None <==> m.lo.units() == 0,
        m.reached matches Some(g) ==> g == at(m.lo),
        forall|s: Mover, k: nat, q: int|
            10 <= k <= 20 && #[trigger] s.on_grid(k, q) ==> answers_up_to(s, answer(s), last, at),
    ensures
        ({
            let end = m.after_search(answer, points);
            let reach = if last < whole(1) {
                last
            } else {
                whole(1)
            };
            &&& 0 <= end.lo.units() <= reach
            &&& 1000 * (reach - end.lo.units()) < whole(1)
            &&& end.lo.units() > 0 ==> (end.wants() matches MoveCall::Report { goal } && goal == at(
                end.lo,
            ))
            &&& end.lo.units() == 0 ==> end.wants() is Finished
        }),
    decreases j,
{
    let a = answer(m);
    let w = pow2(1054 + j) as int;
    lemma_pow2_pos(1054 + j);
    assert(m.on_grid(j, p));
    assert(answers_up_to(m, a, last, at));
    assert((p + 1) * w == p * w + w) by (nonlinear_arith);
    assert(a.width.units() == w);
    lemma_narrow_is_a_thousandth();
    move_numbers_are_exact();
    assert(p * w >= 0) by (nonlinear_arith)
        requires
            p >= 0,
            w > 0,
    ;
    let next = m.after_point(a);
    assert(m.after_search(answer, points) == next.after_search(answer, (points - 1) as nat));
    if j == 10 {
        assert(w == pow2(1064));
        assert(a.width.below(Double { bits: NARROW }));
        assert(next == m.settled());
        assert(next.stage !is Split);
        assert(next.after_search(answer, (points - 1) as nat) == next);
    } else {
        if j > 11 {
            vstd::arithmetic::power2::lemma_pow2_strictly_increases(1065, 1054 + j);
        }
        assert(w >= pow2(1065));
        assert(!a.width.below(Double { bits: NARROW }));
        lemma_pow2_unfold(1054 + j);
        let h = pow2((1053 + j) as nat) as int;
        assert(w == 2 * h);
        lemma_pow2_pos((1053 + j) as nat);
        assert(p * w == (2 * p) * h) by (nonlinear_arith)
            requires
                w == 2 * h,
        ;
        assert((2 * p + 1) * h == (2 * p) * h + h) by (nonlinear_arith);
        assert((2 * p + 2) * h == (2 * p) * h + 2 * h) by (nonlinear_arith);
        assert((2 * p) * h >= 0) by (nonlinear_arith)
            requires
                p >= 0,
                h > 0,
        ;
        assert(a.mid.units() == (2 * p + 1) * h);
        let k = (j - 1) as nat;
        assert(1054 + k == 1053 + j);
        if a.mid.units() <= last {
            assert(m.lo.below(a.along));
            assert(next.stage is Split);
            assert(next.lo == a.mid && next.hi == m.hi && next.rounds == j - 1);
            assert(next.on_grid(k, 2 * p + 1));
            assert(next.valid());
            lemma_search_from(next, answer, at, last, k, 2 * p + 1, (points - 1) as nat);
        } else {
            assert(next.stage is Split);
            assert(next.lo == m.lo && next.hi == a.mid && next.rounds == j - 1);
            assert(next.on_grid(k, 2 * p));
            assert(next.valid());
            lemma_search_from(next, answer, at, last, k, 2 * p, (points - 1) as nat);
        }
    }
}

/// When the way can be followed up to one point and not beyond, the search ends
/// within a thousandth of the way of that point, and the move reports the pose
/// it landed at there. Nothing is moved only when that point is less than a
/// thousandth of the way off.
pub proof fn search_finds_the_nearest(
    m: Mover,
    answer: spec_fn(Mover) -> ProbeAnswer,
    at: spec_fn(Double) -> CartesianPose,
    last: int,
)
    requires
        m.valid(),
        0 <= last,
        forall|s: Mover, k: nat, q: int|
            10 <= k <= 20 && #[trigger] s.on_grid(k, q) ==> answers_up_to(s, answer(s), last, at),
    ensures
        ({
            let end = m.searching().after_search(answer, 20);
            let reach = if last < whole(1) {
                last
            } else {
                whole(1)
            };
            &&& 0 <= end.lo.units() <= reach
            &&& 1000 * (reach - end.lo.units()) < whole(1)
            &&& 1000 * reach >= whole(1) ==> (end.wants() matches MoveCall::Report { goal } && goal
                == at(end.lo))
            &&& end.wants() matches MoveCall::Report { goal } ==> goal == at(end.lo)
        }),
{
    let s = m.searching();
    move_numbers_are_exact();
    assert(0 * pow2(1074) == 0 && 1 * pow2(1074) == pow2(1074));
    assert(s.on_grid(20, 0));
    lemma_search_from(s, answer, at, last, 20, 0, 20);
}

/// A move starts by reading the pose. Its orientation counts as given exactly
/// when it comes from a file or an angle was given, and a move ends with its
/// report.
pub proof fn move_starts_and_ends(
    m: Mover,
    wanted: Wanted,
    speed: Double,
    rel: bool,
    from_file: bool,
)
    requires
        m.begins(wanted, speed, rel, from_file),
    ensures
        m.wants() is ReadTcp,
        m.speed == speed,
        m.wanted.tran == wanted.tran,
        m.rel <==> rel,
        m.from_file <==> from_file,
        !m.explicit <==> !from_file && wanted.rx is None && wanted.ry is None && wanted.rz is None,
        m.told().wants() is Finished,
{
}

} // verus!
