//! Moving the tool center point (TCP) by an offset from the base pose, in a
//! straight line only.
//!
//! A target that can not be reached is clamped to the farthest point of the line
//! that can, and the line is followed only when all of it was found clear.

use crate::kinematics::{
    clamp_is_nearest, clamp_keeps_bracket, lemma_narrowed_valid, ClampSearch, Goal, ROUNDS,
};
use crate::move_to::{given_or, Wanted};
use crate::number::{lemma_whole_pattern, whole, Double};
use crate::sdk::{check, errno_t, failure, CartesianPose, CartesianTran, JointValue, MoveMode, Rpy, ERR_SUCC};
use crate::steps::{complaint, run_blocking_motion, Outcome, LINEAR_ACC};
use vstd::prelude::*;

verus! {

/// 1, the distance in mm below which a clamped motion is not worth making.
pub const BOUNDARY: u64 = 0x3ff0_0000_0000_0000;

/// How far a move has come.
#[derive(Clone, Copy, Debug)]
pub enum BaseStage {
    /// The current pose is wanted.
    ReadTcp,
    /// The base pose is wanted.
    LoadBase,
    /// The base position plus the wanted one is wanted, and the given angles in
    /// radians.
    Aim { base: CartesianTran },
    /// The current joints are wanted.
    ReadJoints,
    /// Whether the path to a point of the line is clear is wanted.
    Search,
    /// The pose of the goal and its distance are wanted.
    Measure { goal: Goal },
    /// The linear motion to the goal is to be made.
    Linear { target: CartesianPose },
    /// The final pose is wanted.
    ReadFinal,
    /// The move is over.
    Done,
}

/// What a move wants done or computed next.
#[derive(Clone, Copy, Debug)]
pub enum BaseCall {
    /// Read the current pose.
    ReadTcp,
    /// Load the base pose.
    LoadBase,
    /// Add the wanted position to the base position, and convert the given
    /// angles to radians.
    Aim { base: CartesianTran, wanted: Wanted },
    /// Read the current joints.
    ReadJoints,
    /// Check the straight path to the point that lies this many parts of the
    /// way from one pose to another.
    CheckPath { from: CartesianPose, to: CartesianPose, parts: u32, reference: JointValue },
    /// Compute the pose of the goal on the way from one pose to another, and
    /// how far it is from the first.
    Measure { goal: Goal, from: CartesianPose, to: CartesianPose },
    /// Make a linear motion, speed in mm/s and acceleration in mm/s^2, with the
    /// tolerance `tol` and blocking until it ends.
    LinearMove {
        target: CartesianPose,
        mode: MoveMode,
        speed: Double,
        acc: Double,
        tol: Double,
        block: bool,
    },
    /// Read the final pose.
    ReadFinal,
    /// Nothing more.
    Finished,
}

/// A move of the TCP under way.
#[derive(Clone, Copy, Debug)]
pub struct BaseMover {
    pub wanted: Wanted,
    /// The speed of the linear motion in mm/s.
    pub speed: Double,
    /// The pose from which the move starts.
    pub cur: CartesianPose,
    pub target: CartesianPose,
    pub ref_joint: JointValue,
    pub search: ClampSearch,
    pub stage: BaseStage,
}

/// A motion is not worth making: its goal was clamped and lies less than a
/// millimetre away.
pub open spec fn is_at_boundary(goal: Goal, distance: Double) -> bool {
    goal != Goal::Target && distance.below(Double { bits: BOUNDARY })
}

impl BaseMover {
    /// The move is in a state that it can be in.
    pub open spec fn valid(self) -> bool {
        match self.stage {
            BaseStage::Search => self.search.valid() && self.search.found is None,
            BaseStage::Measure { goal } => self.search.valid() && self.search.found == Some(goal),
            _ => true,
        }
    }

    /// A bound on the number of answers that the move still takes.
    pub open spec fn left(self) -> int {
        match self.stage {
            BaseStage::ReadTcp => ROUNDS + 9,
            BaseStage::LoadBase => ROUNDS + 8,
            BaseStage::Aim { .. } => ROUNDS + 7,
            BaseStage::ReadJoints => ROUNDS + 6,
            BaseStage::Search => self.search.rounds + 4,
            BaseStage::Measure { .. } => 3,
            BaseStage::Linear { .. } => 2,
            BaseStage::ReadFinal => 1,
            BaseStage::Done => 0,
        }
    }

    /// What the move wants next.
    pub open spec fn wants(self) -> BaseCall {
        match self.stage {
            BaseStage::ReadTcp => BaseCall::ReadTcp,
            BaseStage::LoadBase => BaseCall::LoadBase,
            BaseStage::Aim { base } => BaseCall::Aim { base, wanted: self.wanted },
            BaseStage::ReadJoints => BaseCall::ReadJoints,
            BaseStage::Search => BaseCall::CheckPath {
                from: self.cur,
                to: self.target,
                parts: self.search.next_probe() as u32,
                reference: self.ref_joint,
            },
            BaseStage::Measure { goal } => BaseCall::Measure {
                goal,
                from: self.cur,
                to: self.target,
            },
            BaseStage::Linear { target } => BaseCall::LinearMove {
                target,
                mode: MoveMode::Abs,
                speed: self.speed,
                acc: Double { bits: LINEAR_ACC },
                tol: Double { bits: 0 },
                block: true,
            },
            BaseStage::ReadFinal => BaseCall::ReadFinal,
            BaseStage::Done => BaseCall::Finished,
        }
    }

    /// The move once the current pose is known.
    pub open spec fn located(self, pose: CartesianPose) -> BaseMover {
        BaseMover { cur: pose, stage: BaseStage::LoadBase, ..self }
    }

    /// The move once the base pose is known.
    pub open spec fn based(self, base: CartesianPose) -> BaseMover {
        BaseMover { stage: BaseStage::Aim { base: base.tran }, ..self }
    }

    /// The move once its target is known.
    pub open spec fn aimed(
        self,
        sum: CartesianTran,
        rx: Option<Double>,
        ry: Option<Double>,
        rz: Option<Double>,
    ) -> BaseMover {
        BaseMover {
            target: CartesianPose {
                tran: sum,
                rpy: Rpy {
                    rx: given_or(rx, self.cur.rpy.rx),
                    ry: given_or(ry, self.cur.rpy.ry),
                    rz: given_or(rz, self.cur.rpy.rz),
                },
            },
            stage: BaseStage::ReadJoints,
            ..self
        }
    }

    /// The move once the joints are known.
    pub open spec fn starting(self, joints: JointValue) -> BaseMover {
        BaseMover {
            ref_joint: joints,
            search: ClampSearch::fresh(),
            stage: BaseStage::Search,
            ..self
        }
    }

    /// The move once it is known whether the path to the tried point is clear.
    pub open spec fn tried(self, clear: bool) -> BaseMover {
        let search = self.search.narrowed(clear);
        let stage = match search.found {
            Some(goal) => BaseStage::Measure { goal },
            None => BaseStage::Search,
        };
        BaseMover { search, stage, ..self }
    }

    /// The move once the pose of the goal and its distance are known.
    pub open spec fn measured(self, pose: CartesianPose, distance: Double) -> BaseMover {
        let stage = if is_at_boundary(self.stage->goal, distance) {
            BaseStage::Done
        } else {
            BaseStage::Linear {
                target: match self.stage->goal {
                    Goal::Target => self.target,
                    Goal::Stay => self.cur,
                    Goal::Part { .. } => pose,
                },
            }
        };
        BaseMover { stage, ..self }
    }

    /// The move once its search has ended, when a point can be reached according
    /// to `clear`, which is asked about the parts of the requests.
    pub open spec fn searched(self, clear: spec_fn(int) -> bool) -> BaseMover
        decreases self.search.rounds,
    {
        if self.stage is Search && self.search.rounds > 0 {
            self.tried(clear(self.wants()->parts as int)).searched(clear)
        } else {
            self
        }
    }

    /// The move before its first step.
    pub open spec fn begins(self, wanted: Wanted, speed: Double) -> bool {
        self.stage is ReadTcp && self.wanted == wanted && self.speed == speed
    }

    /// The move once its motion has ended well.
    pub open spec fn moved(self) -> BaseMover {
        BaseMover { stage: BaseStage::ReadFinal, ..self }
    }

    /// The move once the final pose was read.
    pub open spec fn finished(self) -> BaseMover {
        BaseMover { stage: BaseStage::Done, ..self }
    }

    /// Start a move by the offset `wanted`, speed in mm/s.
    pub fn move_to(wanted: &Wanted, speed: Double) -> (r: BaseMover)
        ensures
            r.valid(),
            r.stage is ReadTcp,
            r.wanted == *wanted,
            r.speed == speed,
            r.begins(*wanted, speed),
    {
        BaseMover {
            wanted: *wanted,
            speed,
            cur: CartesianPose::zero(),
            target: CartesianPose::zero(),
            ref_joint: JointValue::zero(),
            search: ClampSearch::resolve_with_clamp(),
            stage: BaseStage::ReadTcp,
        }
    }

    /// What to do or compute next.
    pub fn request(&self) -> (r: BaseCall)
        requires
            self.valid(),
        ensures
            r == self.wants(),
    {
        match self.stage {
            BaseStage::ReadTcp => BaseCall::ReadTcp,
            BaseStage::LoadBase => BaseCall::LoadBase,
            BaseStage::Aim { base } => BaseCall::Aim { base, wanted: self.wanted },
            BaseStage::ReadJoints => BaseCall::ReadJoints,
            BaseStage::Search => BaseCall::CheckPath {
                from: self.cur,
                to: self.target,
                parts: self.search.probe(),
                reference: self.ref_joint,
            },
            BaseStage::Measure { goal } => BaseCall::Measure {
                goal,
                from: self.cur,
                to: self.target,
            },
            BaseStage::Linear { target } => BaseCall::LinearMove {
                target,
                mode: MoveMode::Abs,
                speed: self.speed,
                acc: Double { bits: LINEAR_ACC },
                tol: Double { bits: 0 },
                block: true,
            },
            BaseStage::ReadFinal => BaseCall::ReadFinal,
            BaseStage::Done => BaseCall::Finished,
        }
    }

    /// Take the current pose.
    pub fn on_tcp(&mut self, code: errno_t, pose: &CartesianPose) -> (r: Result<(), String>)
        requires
            old(self).valid(),
            old(self).stage is ReadTcp,
        ensures
            r is Ok <==> code == ERR_SUCC,
            r matches Err(e) ==> e@ == failure("Read TCP position"@, code as int),
            r is Ok ==> final(self).valid(),
            r is Ok ==> final(self).left() < old(self).left(),
            r is Ok ==> *final(self) == old(self).located(*pose),
    {
        check("Read TCP position", code)?;
        self.cur = *pose;
        self.stage = BaseStage::LoadBase;
        Ok(())
    }

    /// Take the base pose. Only its position counts.
    pub fn on_base(&mut self, base: &CartesianPose)
        requires
            old(self).valid(),
            old(self).stage is LoadBase,
        ensures
            final(self).valid(),
            final(self).left() < old(self).left(),
            *final(self) == old(self).based(*base),
    {
        self.stage = BaseStage::Aim { base: base.tran };
    }

    /// Take the sum of the base position and the wanted one, and the given
    /// angles in radians. An angle that was not given stays the current one.
    pub fn on_aim(
        &mut self,
        sum: &CartesianTran,
        rx: Option<Double>,
        ry: Option<Double>,
        rz: Option<Double>,
    )
        requires
            old(self).valid(),
            old(self).stage is Aim,
        ensures
            final(self).valid(),
            final(self).left() < old(self).left(),
            *final(self) == old(self).aimed(*sum, rx, ry, rz),
    {
        let rpy = Rpy {
            rx: rx.unwrap_or(self.cur.rpy.rx),
            ry: ry.unwrap_or(self.cur.rpy.ry),
            rz: rz.unwrap_or(self.cur.rpy.rz),
        };
        self.target = CartesianPose { tran: *sum, rpy };
        self.stage = BaseStage::ReadJoints;
    }

    /// Take the current joints. The search for a point that can be reached
    /// starts with the target.
    pub fn on_joints(&mut self, code: errno_t, joints: &JointValue) -> (r: Result<(), String>)
        requires
            old(self).valid(),
            old(self).stage is ReadJoints,
        ensures
            r is Ok <==> code == ERR_SUCC,
            r matches Err(e) ==> e@ == failure("Read joint position"@, code as int),
            r is Ok ==> final(self).valid(),
            r is Ok ==> final(self).left() < old(self).left(),
            r is Ok ==> *final(self) == (BaseMover {
                ref_joint: *joints,
                search: ClampSearch::fresh(),
                stage: BaseStage::Search,
                ..*old(self)
            }),
            r is Ok ==> *final(self) == old(self).starting(*joints),
    {
        check("Read joint position", code)?;
        self.ref_joint = *joints;
        self.search = ClampSearch::resolve_with_clamp();
        self.stage = BaseStage::Search;
        Ok(())
    }

    /// Take whether the straight path to the tried point is clear.
    pub fn on_path(&mut self, clear: bool)
        requires
            old(self).valid(),
            old(self).stage is Search,
        ensures
            final(self).valid(),
            final(self).left() < old(self).left(),
            *final(self) == ({
                let search = old(self).search.narrowed(clear);
                let stage = match search.found {
                    Some(goal) => BaseStage::Measure { goal },
                    None => BaseStage::Search,
                };
                BaseMover { search, stage, ..*old(self) }
            }),
            *final(self) == old(self).tried(clear),
    {
        self.search.record(clear);
        if let Some(goal) = self.search.found {
            self.stage = BaseStage::Measure { goal };
        }
    }

    /// Take the pose of the goal and its distance in mm. At the boundary of the
    /// workspace there is nothing to move. The result says whether that is so.
    pub fn on_measured(&mut self, pose: &CartesianPose, distance: Double) -> (r: bool)
        requires
            old(self).valid(),
            old(self).stage is Measure,
        ensures
            final(self).valid(),
            final(self).left() < old(self).left(),
            r == is_at_boundary(old(self).stage->goal, distance),
            *final(self) == ({
                let target = match old(self).stage->goal {
                    Goal::Target => old(self).target,
                    Goal::Stay => old(self).cur,
                    Goal::Part { .. } => *pose,
                };
                let stage = if r {
                    BaseStage::Done
                } else {
                    BaseStage::Linear { target }
                };
                BaseMover { stage, ..*old(self) }
            }),
            *final(self) == old(self).measured(*pose, distance),
    {
        let mut clamped = true;
        let mut target = *pose;
        if let BaseStage::Measure { goal } = self.stage {
            match goal {
                Goal::Target => {
                    clamped = false;
                    target = self.target;
                },
                Goal::Stay => {
                    target = self.cur;
                },
                Goal::Part { .. } => {},
            }
        }
        if clamped && distance.less(Double { bits: BOUNDARY }) {
            self.stage = BaseStage::Done;
            true
        } else {
            self.stage = BaseStage::Linear { target };
            false
        }
    }

    /// Take how the linear motion ended.
    pub fn on_linear(&mut self, outcome: &Outcome) -> (r: Result<(), String>)
        requires
            old(self).valid(),
            old(self).stage is Linear,
        ensures
            r is Ok <==> complaint("Motion"@, *outcome) is None,
            r matches Err(e) ==> Some(e@) == complaint("Motion"@, *outcome),
            r is Ok ==> final(self).valid(),
            r is Ok ==> final(self).left() < old(self).left(),
            r is Ok ==> *final(self) == (BaseMover { stage: BaseStage::ReadFinal, ..*old(self) }),
            r is Ok ==> *final(self) == old(self).moved(),
    {
        run_blocking_motion(outcome)?;
        self.stage = BaseStage::ReadFinal;
        Ok(())
    }

    /// Take the code with which the final pose was read.
    pub fn on_final(&mut self, code: errno_t) -> (r: Result<(), String>)
        requires
            old(self).valid(),
            old(self).stage is ReadFinal,
        ensures
            r is Ok <==> code == ERR_SUCC,
            r matches Err(e) ==> e@ == failure("Read final TCP position"@, code as int),
            r is Ok ==> final(self).valid(),
            r is Ok ==> *final(self) == (BaseMover { stage: BaseStage::Done, ..*old(self) }),
            r is Ok ==> *final(self) == old(self).finished(),
    {
        check("Read final TCP position", code)?;
        self.stage = BaseStage::Done;
        Ok(())
    }
}

/// A point of the line at which the search ends was found clear: the target
/// itself, or the point that the goal names. Staying needs nothing.
pub proof fn base_move_goes_where_clear(m: BaseMover, reachable: spec_fn(int) -> bool)
    requires
        m.valid(),
        m.stage is Measure,
        m.search.agrees(reachable),
    ensures
        match m.stage->goal {
            Goal::Target => reachable(crate::kinematics::UNIT as int),
            Goal::Stay => true,
            Goal::Part { parts } => reachable(parts as int) && !reachable(parts + 1),
        },
{
    vstd::arithmetic::power2::lemma2_to64();
}

/// Repeating a move gives it the same target position, wherever the robot is
/// when it starts. Where the orientation is then that of the first target, the
/// whole target is the same.
pub proof fn repeated_base_move_has_same_target(
    first: BaseMover,
    second: BaseMover,
    here: CartesianPose,
    there: CartesianPose,
    base: CartesianPose,
    sum: CartesianTran,
    rx: Option<Double>,
    ry: Option<Double>,
    rz: Option<Double>,
)
    requires
        first.wanted == second.wanted,
    ensures
        ({
            let a = first.located(here).based(base);
            let b = second.located(there).based(base);
            &&& a.wants() == b.wants()
            &&& a.aimed(sum, rx, ry, rz).target.tran == b.aimed(sum, rx, ry, rz).target.tran
            &&& there.rpy == a.aimed(sum, rx, ry, rz).target.rpy ==> a.aimed(sum, rx, ry, rz).target
                == b.aimed(sum, rx, ry, rz).target
        }),
{
}

/// A move ends: every answer that does not end it lowers the bound.
pub proof fn base_move_is_bounded(m: BaseMover)
    requires
        m.valid(),
    ensures
        0 <= m.left() <= ROUNDS + 9,
        m.left() == 0 <==> m.wants() is Finished,
{
}

/// Every point of a move lies on the same way: the one from the pose that was
/// read first to the target. Whatever is answered, the goal is measured on the
/// very way on which its path was checked, and with the joints that were read.
pub proof fn base_move_keeps_its_way(m: BaseMover, clear: bool)
    requires
        m.stage is Search,
    ensures
        match (m.wants(), m.tried(clear).wants()) {
            (
                BaseCall::CheckPath { from, to, reference, .. },
                BaseCall::CheckPath { from: from_next, to: to_next, reference: same, .. },
            ) => from_next == from && to_next == to && same == reference,
            (
                BaseCall::CheckPath { from, to, .. },
                BaseCall::Measure { goal, from: from_next, to: to_next },
            ) => from_next == from && to_next == to && m.tried(clear).search.found == Some(goal),
            _ => false,
        },
        m.wants() matches BaseCall::CheckPath { from, to, reference, .. } && from == m.cur && to
            == m.target && reference == m.ref_joint,
        m.tried(clear).cur == m.cur,
        m.tried(clear).target == m.target,
        m.tried(clear).ref_joint == m.ref_joint,
        m.tried(clear).speed == m.speed,
{
}

/// A move starts with the way from the pose that was read to the sum of base and
/// offset, the whole of it first, and with the joints that were read. An angle
/// that was given counts, one that was not stays the current one.
pub proof fn base_move_starts_on_its_way(
    m: BaseMover,
    here: CartesianPose,
    base: CartesianPose,
    sum: CartesianTran,
    rx: Option<Double>,
    ry: Option<Double>,
    rz: Option<Double>,
    joints: JointValue,
)
    requires
        m.stage is ReadTcp,
    ensures
        ({
            let told = m.located(here);
            let aiming = told.based(base);
            &&& m.wants() is ReadTcp
            &&& told.wants() is LoadBase
            &&& aiming.wants() matches BaseCall::Aim { base: b, wanted } && b == base.tran && wanted
                == m.wanted
            &&& aiming.aimed(sum, rx, ry, rz).wants() is ReadJoints
            &&& aiming.aimed(sum, rx, ry, rz).starting(joints).wants() matches BaseCall::CheckPath {
                from,
                to,
                parts,
                reference,
            } && {
                &&& from == here
                &&& to.tran == sum
                &&& parts == 0x10_0000
                &&& reference == joints
                &&& rx matches Some(a) ==> to.rpy.rx == a
                &&& ry matches Some(a) ==> to.rpy.ry == a
                &&& rz matches Some(a) ==> to.rpy.rz == a
                &&& rx is None ==> to.rpy.rx == here.rpy.rx
                &&& ry is None ==> to.rpy.ry == here.rpy.ry
                &&& rz is None ==> to.rpy.rz == here.rpy.rz
            }
            &&& aiming.aimed(sum, rx, ry, rz).starting(joints).speed == m.speed
        }),
{
}

/// When the way can be followed up to one point and not beyond, that point is
/// what is measured, on the way from the first pose to the target: the target
/// itself, the last part that can be reached, or staying when that is less than
/// a thousandth of the way.
pub proof fn base_move_measures_nearest(m: BaseMover, clear: spec_fn(int) -> bool, last: int)
    requires
        m.valid(),
        m.stage is Search,
        m.search.agrees(clear),
        0 <= last <= 0x10_0000,
        forall|k: int| 0 <= k <= 0x10_0000 ==> (#[trigger] clear(k) <==> k <= last),
    ensures
        ({
            let goal = if last == 0x10_0000 {
                Goal::Target
            } else if last * 1000 < 0x10_0000 {
                Goal::Stay
            } else {
                Goal::Part { parts: last as u32 }
            };
            m.searched(clear).wants() == (BaseCall::Measure { goal, from: m.cur, to: m.target })
        }),
    decreases m.search.rounds,
{
    let probe = m.search.next_probe();
    vstd::arithmetic::power2::lemma2_to64();
    assert(0 < probe <= 0x10_0000);
    assert(m.wants()->parts as int == probe);
    let next = m.tried(clear(probe));
    lemma_narrowed_valid(m.search, clear(probe));
    clamp_keeps_bracket(m.search, clear);
    assert(m.searched(clear) == next.searched(clear));
    if next.stage is Search {
        base_move_measures_nearest(next, clear, last);
    } else {
        clamp_is_nearest(next.search, clear, last);
        assert(next.search.settles(clear) == next.search.found);
    }
}

/// The motion goes to what was measured: the target when all of the way is
/// clear, and otherwise the pose of the point that was found. It is left out
/// exactly when that point is less than a millimetre away. It is linear and
/// absolute, at the speed that was asked for and 500 mm/s^2, and blocks until it
/// ends.
pub proof fn base_move_goes_to_measured(m: BaseMover, pose: CartesianPose, distance: Double)
    requires
        m.stage is Measure,
    ensures
        m.measured(pose, distance).wants() is Finished <==> m.stage->goal != Goal::Target
            && !distance.is_nan() && distance.units() < whole(1),
        m.measured(pose, distance).wants() !is Finished ==> (m.measured(
            pose,
            distance,
        ).wants() matches BaseCall::LinearMove { target, mode, speed, acc, tol, block } && {
            &&& m.stage->goal is Part ==> target == pose
            &&& m.stage->goal is Target ==> target == m.target
            &&& m.stage->goal is Stay ==> target == m.cur
            &&& mode is Abs
            &&& speed == m.speed
            &&& acc.units() == whole(500)
            &&& tol.units() == 0
            &&& block
        }),
{
    vstd::arithmetic::power2::lemma2_to64();
    vstd::arithmetic::power2::lemma2_to64_rest();
    lemma_whole_pattern(BOUNDARY, 1);
    assert(500 * 0x1000_0000_0000 == 0x10_0000_0000_0000 + 0xf_4000_0000_0000);
    lemma_whole_pattern(LINEAR_ACC, 500);
}

/// A move starts by reading the pose, for the offset and the speed that were
/// asked for. After its motion the final pose is read, and that ends it.
pub proof fn base_move_starts_and_ends(m: BaseMover, wanted: Wanted, speed: Double)
    requires
        m.begins(wanted, speed),
    ensures
        m.wants() is ReadTcp,
        m.wanted == wanted,
        m.speed == speed,
        m.moved().wants() is ReadFinal,
        m.finished().wants() is Finished,
{
}

} // verus!
