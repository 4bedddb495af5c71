//! Where the arm may go: joint limits, pose tolerances, the safe height, the
//! search for a joint solution, and the checks of a straight path.
//!
//! The controller computes kinematics and the caller does the arithmetic on
//! angles and distances; the searches here say what to ask for next and decide
//! from the answers.

use crate::number::{lemma_whole_pattern, signs_change_values, whole, Double};
use crate::sdk::{errno_t, zero_number, CartesianPose, JointValue, ERR_SUCC};
use vstd::arithmetic::power2::{lemma2_to64, lemma_pow2_unfold, pow2};
use vstd::prelude::*;

verus! {

/// 100, the lowest height in mm that probing may explore.
pub const LOW_Z: u64 = 0x4059_0000_0000_0000;

/// 360, the travel of J1, J3, J4 and J6 in degrees, to either side.
pub const WIDE_LIMIT: u64 = 0x4076_8000_0000_0000;

/// 120, the travel of J2 and J5 in degrees, to either side.
pub const NARROW_LIMIT: u64 = 0x405e_0000_0000_0000;

/// 1, the distance in mm below which two positions count as one.
pub const POS_TOL: u64 = 0x3ff0_0000_0000_0000;

/// 5, the angle in degrees below which two orientations count as one.
pub const ORI_TOL: u64 = 0x4014_0000_0000_0000;

/// A quarter turn in radians.
pub const FRAC_PI_2: u64 = 0x3ff9_21fb_5444_2d18;

/// The number of equal parts into which a straight path is cut.
pub const SAMPLES: u32 = 8;

/// The number of parts of a path that the clamping search can tell apart, two
/// to the power 20.
pub const UNIT: u32 = 0x10_0000;

/// The rounds of the clamping search.
pub const ROUNDS: u32 = 20;

/// The largest number of parts that is less than a thousandth of the path.
pub const NOTHING: u32 = 1048;

/// How far two poses are apart: the distance in mm and the angles in degrees,
/// each without its sign.
#[derive(Clone, Copy, Debug, PartialEq, Eq, Structural)]
pub struct PoseGap {
    pub pos: Double,
    pub rx: Double,
    pub ry: Double,
    pub rz: Double,
}

/// A pose below the safe probing height.
pub open spec fn is_too_low(p: CartesianPose) -> bool {
    p.tran.z.below(Double { bits: LOW_Z })
}

/// Check whether a pose is below the safe probing height.
pub fn too_low(p: &CartesianPose) -> (r: bool)
    ensures
        r == is_too_low(*p),
{
    p.tran.z.less(Double { bits: LOW_Z })
}

/// The travel limit in degrees of the joint with index `i`.
pub open spec fn joint_limit(i: int) -> Double {
    if i == 1 || i == 4 {
        Double { bits: NARROW_LIMIT }
    } else {
        Double { bits: WIDE_LIMIT }
    }
}

/// `deg` is a number from minus `limit` to `limit`.
pub open spec fn within(deg: Double, limit: Double) -> bool {
    &&& !deg.is_nan()
    &&& -limit.units() <= deg.units() <= limit.units()
}

/// All joints are within their travel limits.
pub open spec fn joints_within(degrees: Seq<Double>) -> bool {
    forall|i: int| 0 <= i < 6 ==> within(#[trigger] degrees[i], joint_limit(i))
}

fn within_limit(deg: Double, limit: Double) -> (r: bool)
    requires
        !limit.is_nan(),
        !limit.negative(),
    ensures
        r == within(deg, limit),
{
    let low = limit.negate();
    deg.same(deg) && !deg.less(low) && !limit.less(deg)
}

/// Check joint angles in degrees against the JAKA Mini travel limits.
pub fn joint_ok(degrees: &[Double; 6]) -> (r: bool)
    ensures
        r == joints_within(degrees@),
{
    let wide = Double { bits: WIDE_LIMIT };
    let narrow = Double { bits: NARROW_LIMIT };
    let mut i: usize = 0;
    while i < 6
        invariant
            i <= 6,
            wide == (Double { bits: WIDE_LIMIT }),
            narrow == (Double { bits: NARROW_LIMIT }),
            forall|k: int| 0 <= k < i ==> within(#[trigger] degrees@[k], joint_limit(k)),
        decreases 6 - i,
    {
        let limit = if i == 1 || i == 4 {
            narrow
        } else {
            wide
        };
        if !within_limit(degrees[i], limit) {
            return false;
        }
        i = i + 1;
    }
    true
}

/// The gap is within the tolerances.
pub open spec fn gap_closed(gap: PoseGap) -> bool {
    &&& gap.pos.below(Double { bits: POS_TOL })
    &&& gap.rx.below(Double { bits: ORI_TOL })
    &&& gap.ry.below(Double { bits: ORI_TOL })
    &&& gap.rz.below(Double { bits: ORI_TOL })
}

/// Whether two poses this far apart count as one.
pub fn pose_close(gap: &PoseGap) -> (r: bool)
    ensures
        r == gap_closed(*gap),
{
    let pos = Double { bits: POS_TOL };
    let ori = Double { bits: ORI_TOL };
    gap.pos.less(pos) && gap.rx.less(ori) && gap.ry.less(ori) && gap.rz.less(ori)
}

/// The joints of the default home pose in radians: J2 a quarter turn up, J3 and
/// J5 a quarter turn down.
pub open spec fn home_angles() -> Seq<Double> {
    let z = zero_number();
    let up = Double { bits: FRAC_PI_2 };
    seq![z, up, up.negated(), z, up.negated(), z]
}

/// The default home pose in radians.
pub fn home_joints() -> (r: JointValue)
    ensures
        r.j_val@ == home_angles(),
{
    let z = Double { bits: 0 };
    let up = Double { bits: FRAC_PI_2 };
    let down = up.negate();
    let r = JointValue { j_val: [z, up, down, z, down, z] };
    assert(r.j_val@ =~= home_angles());
    r
}

// ---------------------------------------------------------------------------
// Inverse kinematics

/// What the search for a joint solution wants to know.
#[derive(Clone, Copy, Debug)]
pub enum IkRequest {
    /// A joint position for `pose`, from the reference joints.
    Inverse { reference: JointValue, pose: CartesianPose },
    /// The pose of a joint position.
    Forward { joint: JointValue },
    /// Nothing more; this is the solution, if there is one.
    Finished { solution: Option<JointValue> },
}

/// How far the search for a joint solution has come.
#[derive(Clone, Copy, Debug)]
pub enum IkStage {
    Inverse,
    Forward { joint: JointValue },
    Done { solution: Option<JointValue> },
}

/// The search for a joint solution of a pose. The controller's solver depends
/// on its reference joints and can return solutions outside the joint limits or
/// with another orientation, so it is asked with several references and every
/// answer is verified.
#[derive(Clone, Copy, Debug)]
pub struct IkSearch {
    pub pose: CartesianPose,
    pub refs: [JointValue; 4],
    pub index: usize,
    pub stage: IkStage,
}

/// What the controller answers for one reference: the solver's code and joints,
/// those joints in degrees, and the code and gap of the pose they lead to.
pub struct IkAnswer {
    pub inverse_code: errno_t,
    pub joint: JointValue,
    pub degrees: Seq<Double>,
    pub forward_code: errno_t,
    pub gap: PoseGap,
}

impl IkAnswer {
    /// The solver succeeded within the joint limits.
    pub open spec fn solved(self) -> bool {
        self.inverse_code == ERR_SUCC && joints_within(self.degrees)
    }

    /// The solution leads to the wanted pose.
    pub open spec fn confirmed(self) -> bool {
        self.forward_code == ERR_SUCC && gap_closed(self.gap)
    }
}

/// The joints of the first answer, from index `i` on, that is solved and
/// confirmed.
pub open spec fn first_solution(answers: Seq<IkAnswer>, i: int) -> Option<JointValue>
    decreases answers.len() - i,
{
    if i < 0 || i >= answers.len() {
        None
    } else if answers[i].solved() && answers[i].confirmed() {
        Some(answers[i].joint)
    } else {
        first_solution(answers, i + 1)
    }
}

impl IkSearch {
    /// The search is in a state that it can be in.
    pub open spec fn valid(self) -> bool {
        self.stage !is Done ==> self.index < 4
    }

    /// What the search finds from here on, when the controller gives `answers`.
    pub open spec fn finds(self, answers: Seq<IkAnswer>) -> Option<JointValue> {
        match self.stage {
            IkStage::Inverse => first_solution(answers, self.index as int),
            IkStage::Forward { joint } => if answers[self.index as int].confirmed() {
                Some(joint)
            } else {
                first_solution(answers, self.index + 1)
            },
            IkStage::Done { solution } => solution,
        }
    }

    /// The number of questions that can still follow.
    pub open spec fn left(self) -> int {
        match self.stage {
            IkStage::Inverse => 8 - 2 * self.index,
            IkStage::Forward { .. } => 7 - 2 * self.index,
            IkStage::Done { .. } => 0,
        }
    }

    /// The search with the next reference, or without a solution after the last.
    pub open spec fn skipped(self) -> IkSearch {
        if self.index >= 3 {
            IkSearch { stage: IkStage::Done { solution: None }, ..self }
        } else {
            IkSearch { index: (self.index + 1) as usize, stage: IkStage::Inverse, ..self }
        }
    }

    /// The search before its first question.
    pub open spec fn begins(
        self,
        current: JointValue,
        aimed: JointValue,
        pose: CartesianPose,
    ) -> bool {
        &&& self.pose == pose
        &&& self.refs@[0] == current
        &&& forall|i: int| 0 <= i < 6 ==> (#[trigger] self.refs@[1].j_val@[i]) == zero_number()
        &&& self.refs@[2].j_val@ == home_angles()
        &&& self.refs@[3] == aimed
        &&& self.index == 0
        &&& self.stage is Inverse
    }

    /// Start the search. The references are the current joints, all joints at
    /// zero, the home pose, and the current joints turned toward the pose.
    pub fn ik_solve(current: &JointValue, aimed: &JointValue, pose: &CartesianPose) -> (r: IkSearch)
        ensures
            r.valid(),
            r.pose == *pose,
            r.refs@[0] == *current,
            forall|i: int| 0 <= i < 6 ==> r.refs@[1].j_val@[i] == zero_number(),
            r.refs@[2].j_val@ == home_angles(),
            r.refs@[3] == *aimed,
            r.index == 0,
            r.stage is Inverse,
            r.begins(*current, *aimed, *pose),
    {
        IkSearch {
            pose: *pose,
            refs: [*current, JointValue::zero(), home_joints(), *aimed],
            index: 0,
            stage: IkStage::Inverse,
        }
    }

    /// What to ask the controller next.
    pub fn request(&self) -> (r: IkRequest)
        requires
            self.valid(),
        ensures
            r == match self.stage {
                IkStage::Inverse => IkRequest::Inverse {
                    reference: self.refs@[self.index as int],
                    pose: self.pose,
                },
                IkStage::Forward { joint } => IkRequest::Forward { joint },
                IkStage::Done { solution } => IkRequest::Finished { solution },
            },
            r == self.wants(),
    {
        match self.stage {
            IkStage::Inverse => IkRequest::Inverse {
                reference: self.refs[self.index],
                pose: self.pose,
            },
            IkStage::Forward { joint } => IkRequest::Forward { joint },
            IkStage::Done { solution } => IkRequest::Finished { solution },
        }
    }

    fn skip(&mut self)
        requires
            old(self).index < 4,
        ensures
            *final(self) == old(self).skipped(),
    {
        if self.index >= 3 {
            self.stage = IkStage::Done { solution: None };
        } else {
            self.index = self.index + 1;
            self.stage = IkStage::Inverse;
        }
    }

    /// Take the solver's answer: its code, the joints and those in degrees. An
    /// answer that failed or lies outside the limits is dropped, any other is
    /// verified next.
    pub fn on_inverse(&mut self, code: errno_t, joint: &JointValue, degrees: &[Double; 6])
        requires
            old(self).valid(),
            old(self).stage is Inverse,
        ensures
            final(self).valid(),
            final(self).left() < old(self).left(),
            *final(self) == if code == ERR_SUCC && joints_within(degrees@) {
                IkSearch { stage: IkStage::Forward { joint: *joint }, ..*old(self) }
            } else {
                old(self).skipped()
            },
            *final(self) == old(self).inverted(code, *joint, degrees@),
    {
        if code == ERR_SUCC && joint_ok(degrees) {
            self.stage = IkStage::Forward { joint: *joint };
        } else {
            self.skip();
        }
    }

    /// Take the pose of the solution, by its code and its gap to the wanted
    /// pose. A solution that leads elsewhere is dropped.
    pub fn on_forward(&mut self, code: errno_t, gap: &PoseGap)
        requires
            old(self).valid(),
            old(self).stage is Forward,
        ensures
            final(self).valid(),
            final(self).left() < old(self).left(),
            *final(self) == if code == ERR_SUCC && gap_closed(*gap) {
                IkSearch {
                    stage: IkStage::Done { solution: Some(old(self).stage->Forward_joint) },
                    ..*old(self)
                }
            } else {
                old(self).skipped()
            },
            *final(self) == old(self).confirmed(code, *gap),
    {
        if code == ERR_SUCC && pose_close(gap) {
            match self.stage {
                IkStage::Forward { joint } => {
                    self.stage = IkStage::Done { solution: Some(joint) };
                },
                _ => {},
            }
        } else {
            self.skip();
        }
    }
}

/// The search returns the first answer that is within the joint limits and
/// leads to the wanted pose: an answer to the question that it asks never
/// changes what it finds, and a new search finds the first such answer of all.
pub proof fn ik_finds_first(s: IkSearch, answers: Seq<IkAnswer>)
    requires
        s.valid(),
        answers.len() == 4,
    ensures
        s.index == 0 && s.stage is Inverse ==> s.finds(answers) == first_solution(answers, 0),
        s.stage is Inverse ==> ({
            let a = answers[s.index as int];
            let next = if a.solved() {
                IkSearch { stage: IkStage::Forward { joint: a.joint }, ..s }
            } else {
                s.skipped()
            };
            next.finds(answers) == s.finds(answers)
        }),
        s.stage is Forward ==> ({
            let a = answers[s.index as int];
            let next = if a.confirmed() {
                IkSearch { stage: IkStage::Done { solution: Some(s.stage->Forward_joint) }, ..s }
            } else {
                s.skipped()
            };
            next.finds(answers) == s.finds(answers)
        }),
{
    reveal_with_fuel(first_solution, 3);
}

/// A solution that is returned was within the joint limits and led to the
/// wanted pose.
pub proof fn ik_solution_verified(answers: Seq<IkAnswer>, i: int)
    requires
        0 <= i <= answers.len(),
    ensures
        match first_solution(answers, i) {
            Some(joint) => exists|k: int|
                i <= k < answers.len() && answers[k].solved() && answers[k].confirmed()
                    && #[trigger] answers[k].joint == joint,
            None => forall|k: int|
                i <= k < answers.len() ==> !((#[trigger] answers[k]).solved()
                    && answers[k].confirmed()),
        },
    decreases answers.len() - i,
{
    if i < answers.len() {
        if answers[i].solved() && answers[i].confirmed() {
            assert(answers[i].joint == answers[i].joint);
        } else {
            ik_solution_verified(answers, i + 1);
        }
    }
}

// ---------------------------------------------------------------------------
// Straight paths

/// How far the check of a straight path has come.
#[derive(Clone, Copy, Debug, PartialEq, Eq, Structural)]
pub enum PathStage {
    /// The pose of a sample is wanted, `index` parts of the way.
    Sample { index: u32 },
    /// A joint solution of the sample is wanted.
    Solve { index: u32, probe: CartesianPose },
    Done { clear: bool },
}

/// The check that a straight path can be followed: every sample of it has a
/// joint solution and, when heights are `guarded`, none is below the safe
/// height.
#[derive(Clone, Copy, Debug, PartialEq, Eq, Structural)]
pub struct PathCheck {
    pub guarded: bool,
    pub stage: PathStage,
}

/// A sample can be passed: it is high enough where that matters, and solved.
pub open spec fn passable(guarded: bool, probe: CartesianPose, solved: bool) -> bool {
    !(guarded && is_too_low(probe)) && solved
}

/// Every sample from index `i` on can be passed.
pub open spec fn passable_from(
    guarded: bool,
    probes: Seq<CartesianPose>,
    solved: Seq<bool>,
    i: int,
) -> bool {
    forall|k: int| i <= k <= SAMPLES ==> passable(guarded, #[trigger] probes[k], solved[k])
}

impl PathCheck {
    /// The check is in a state that it can be in.
    pub open spec fn valid(self) -> bool {
        match self.stage {
            PathStage::Sample { index } => index <= SAMPLES,
            PathStage::Solve { index, probe } => index <= SAMPLES && !(self.guarded && is_too_low(
                probe,
            )),
            PathStage::Done { .. } => true,
        }
    }

    /// The verdict from here on, when the samples are `probes` and `solved`
    /// says which of them have a joint solution.
    pub open spec fn judges(self, probes: Seq<CartesianPose>, solved: Seq<bool>) -> bool {
        match self.stage {
            PathStage::Sample { index } => passable_from(
                self.guarded,
                probes,
                solved,
                index as int,
            ),
            PathStage::Solve { index, .. } => solved[index as int] && passable_from(
                self.guarded,
                probes,
                solved,
                index + 1,
            ),
            PathStage::Done { clear } => clear,
        }
    }

    /// The number of answers that can still follow.
    pub open spec fn left(self) -> int {
        match self.stage {
            PathStage::Sample { index } => 2 * (SAMPLES + 1 - index),
            PathStage::Solve { index, .. } => 2 * (SAMPLES + 1 - index) - 1,
            PathStage::Done { .. } => 0,
        }
    }

    /// The check before its first sample.
    pub open spec fn fresh(guarded: bool) -> PathCheck {
        PathCheck { guarded, stage: PathStage::Sample { index: 0 } }
    }

    /// The check once the pose of the wanted sample is known.
    pub open spec fn probed(self, probe: CartesianPose) -> PathCheck {
        let stage = if self.guarded && is_too_low(probe) {
            PathStage::Done { clear: false }
        } else {
            PathStage::Solve { index: self.stage->Sample_index, probe }
        };
        PathCheck { stage, ..self }
    }

    /// The check once it is known whether the sample has a joint solution.
    pub open spec fn answered(self, solved: bool) -> PathCheck {
        let index = self.stage->Solve_index;
        let stage = if !solved {
            PathStage::Done { clear: false }
        } else if index == SAMPLES {
            PathStage::Done { clear: true }
        } else {
            PathStage::Sample { index: (index + 1) as u32 }
        };
        PathCheck { stage, ..self }
    }

    /// Start the check of a straight path.
    pub fn path_clear(guarded: bool) -> (r: PathCheck)
        ensures
            r.valid(),
            r == PathCheck::fresh(guarded),
    {
        PathCheck { guarded, stage: PathStage::Sample { index: 0 } }
    }

    /// Take the pose of the wanted sample.
    pub fn on_probe(&mut self, probe: &CartesianPose)
        requires
            old(self).valid(),
            old(self).stage is Sample,
        ensures
            final(self).valid(),
            final(self).left() < old(self).left(),
            *final(self) == old(self).probed(*probe),
    {
        match self.stage {
            PathStage::Sample { index } => {
                if self.guarded && too_low(probe) {
                    self.stage = PathStage::Done { clear: false };
                } else {
                    self.stage = PathStage::Solve { index, probe: *probe };
                }
            },
            _ => {},
        }
    }

    /// Take whether the sample has a joint solution.
    pub fn on_solution(&mut self, solved: bool)
        requires
            old(self).valid(),
            old(self).stage is Solve,
        ensures
            final(self).valid(),
            final(self).left() < old(self).left(),
            *final(self) == old(self).answered(solved),
    {
        match self.stage {
            PathStage::Solve { index, .. } => {
                if !solved {
                    self.stage = PathStage::Done { clear: false };
                } else if index == SAMPLES {
                    self.stage = PathStage::Done { clear: true };
                } else {
                    self.stage = PathStage::Sample { index: index + 1 };
                }
            },
            _ => {},
        }
    }
}

/// A path is clear exactly when every sample of it can be passed: the check
/// starts with that verdict, and answering what it asks never changes it.
pub proof fn path_clear_means_all(c: PathCheck, probes: Seq<CartesianPose>, solved: Seq<bool>)
    requires
        c.valid(),
        probes.len() == SAMPLES + 1,
        solved.len() == SAMPLES + 1,
        c.stage matches PathStage::Solve { index, probe } ==> probe == probes[index as int],
    ensures
        c == PathCheck::fresh(c.guarded) ==> (c.judges(probes, solved) <==> forall|k: int|
            0 <= k <= SAMPLES ==> passable(c.guarded, #[trigger] probes[k], solved[k])),
        c.stage matches PathStage::Sample { index } ==> c.probed(probes[index as int]).judges(
            probes,
            solved,
        ) == c.judges(probes, solved),
        c.stage matches PathStage::Solve { index, .. } ==> c.answered(solved[index as int]).judges(
            probes,
            solved,
        ) == c.judges(probes, solved),
{
    match c.stage {
        PathStage::Sample { index } => {
            let p = probes[index as int];
            assert(passable_from(c.guarded, probes, solved, index as int) <==> passable(
                c.guarded,
                p,
                solved[index as int],
            ) && passable_from(c.guarded, probes, solved, index + 1)) by {
                if passable(c.guarded, p, solved[index as int]) && passable_from(
                    c.guarded,
                    probes,
                    solved,
                    index + 1,
                ) {
                    assert forall|k: int| index <= k <= SAMPLES implies passable(
                        c.guarded,
                        #[trigger] probes[k],
                        solved[k],
                    ) by {}
                }
            }
        },
        _ => {},
    }
}

// ---------------------------------------------------------------------------
// Clamping

/// Where a clamped motion goes.
#[derive(Clone, Copy, Debug, PartialEq, Eq, Structural)]
pub enum Goal {
    /// The target itself.
    Target,
    /// The current pose: nothing beyond it can be reached.
    Stay,
    /// A point of the path, `parts` of its parts away from the current pose.
    Part { parts: u32 },
}

/// The search for the farthest point of the path to a target that can be
/// reached. Points are counted in parts of the whole path.
#[derive(Clone, Copy, Debug, PartialEq, Eq, Structural)]
pub struct ClampSearch {
    /// A point that can be reached.
    pub lo: u32,
    /// A point that can not.
    pub hi: u32,
    /// The rounds that are left, one more before the target itself was tried.
    pub rounds: u32,
    pub found: Option<Goal>,
}

impl ClampSearch {
    /// The search is in a state that it can be in: between the two points lie
    /// as many parts as the remaining rounds can halve.
    pub open spec fn valid(self) -> bool {
        &&& self.rounds <= ROUNDS + 1
        &&& self.rounds == ROUNDS + 1 ==> self.lo == 0 && self.hi == UNIT
        &&& self.rounds <= ROUNDS && self.found != Some(Goal::Target) ==> {
            &&& self.lo < self.hi <= UNIT
            &&& self.hi - self.lo == pow2(self.rounds as nat)
        }
        &&& self.found is None <==> self.rounds > 0
        &&& self.found == Some(Goal::Stay) ==> self.lo <= NOTHING
        &&& self.found matches Some(Goal::Part { parts }) ==> parts == self.lo && parts > NOTHING
    }

    /// What is known agrees with which points are reachable.
    pub open spec fn agrees(self, reachable: spec_fn(int) -> bool) -> bool {
        &&& self.found == Some(Goal::Target) ==> reachable(UNIT as int)
        &&& self.rounds <= ROUNDS && self.found != Some(Goal::Target) ==> {
            &&& self.lo == 0 || reachable(self.lo as int)
            &&& !reachable(self.hi as int)
        }
    }

    /// The point to try next.
    pub open spec fn next_probe(self) -> int {
        if self.rounds > ROUNDS {
            UNIT as int
        } else {
            (self.lo + self.hi) / 2
        }
    }

    /// Where the search ends from here on, when these points are reachable.
    pub open spec fn settles(self, reachable: spec_fn(int) -> bool) -> Option<Goal>
        decreases self.rounds,
    {
        if self.found is Some || self.rounds == 0 {
            self.found
        } else {
            self.narrowed(reachable(self.next_probe())).settles(reachable)
        }
    }

    /// The search before its first round.
    pub open spec fn fresh() -> ClampSearch {
        ClampSearch { lo: 0, hi: UNIT, rounds: (ROUNDS + 1) as u32, found: None }
    }

    /// Start the search.
    pub fn resolve_with_clamp() -> (r: ClampSearch)
        ensures
            r.valid(),
            r == ClampSearch::fresh(),
    {
        ClampSearch { lo: 0, hi: UNIT, rounds: ROUNDS + 1, found: None }
    }

    /// The point to try next, in parts of the path; the first one is the target.
    pub fn probe(&self) -> (r: u32)
        requires
            self.valid(),
            self.found is None,
        ensures
            r == self.next_probe(),
            0 < r <= UNIT,
            self.rounds <= ROUNDS ==> self.lo < r < self.hi,
    {
        proof {
            lemma_half(self.rounds as nat);
            lemma2_to64();
        }
        if self.rounds > ROUNDS {
            UNIT
        } else {
            (self.lo + self.hi) / 2
        }
    }

    /// Take whether the whole path to the tried point is clear.
    pub fn record(&mut self, clear: bool)
        requires
            old(self).valid(),
            old(self).found is None,
        ensures
            final(self).valid(),
            final(self).rounds < old(self).rounds,
            *final(self) == old(self).narrowed(clear),
    {
        proof {
            lemma_half(self.rounds as nat);
            lemma2_to64();
        }
        if self.rounds > ROUNDS {
            if clear {
                self.rounds = 0;
                self.found = Some(Goal::Target);
            } else {
                self.rounds = ROUNDS;
            }
        } else {
            let mid: u32 = (self.lo + self.hi) / 2;
            if clear {
                self.lo = mid;
            } else {
                self.hi = mid;
            }
            self.rounds = self.rounds - 1;
            if self.rounds == 0 {
                self.found = if self.lo <= NOTHING {
                    Some(Goal::Stay)
                } else {
                    Some(Goal::Part { parts: self.lo })
                };
            }
        }
    }

    /// The search after the tried point was found clear or not.
    pub open spec fn narrowed(self, clear: bool) -> ClampSearch {
        if self.rounds > ROUNDS {
            if clear {
                ClampSearch { rounds: 0, found: Some(Goal::Target), ..self }
            } else {
                ClampSearch { rounds: ROUNDS, ..self }
            }
        } else {
            let mid = self.next_probe() as u32;
            let lo = if clear {
                mid
            } else {
                self.lo
            };
            let hi = if clear {
                self.hi
            } else {
                mid
            };
            let rounds = (self.rounds - 1) as u32;
            let found = if rounds > 0 {
                None
            } else if lo <= NOTHING {
                Some(Goal::Stay)
            } else {
                Some(Goal::Part { parts: lo })
            };
            ClampSearch { lo, hi, rounds, found }
        }
    }
}

proof fn lemma_half(rounds: nat)
    ensures
        rounds > 0 ==> pow2(rounds) == 2 * pow2((rounds - 1) as nat),
        rounds > 0 ==> pow2((rounds - 1) as nat) > 0,
{
    if rounds > 0 {
        lemma_pow2_unfold(rounds);
        vstd::arithmetic::power2::lemma_pow2_pos((rounds - 1) as nat);
    }
}

/// The lower point is always reachable and the upper one never is.
pub proof fn clamp_keeps_bracket(s: ClampSearch, reachable: spec_fn(int) -> bool)
    requires
        s.valid(),
        s.found is None,
        s.agrees(reachable),
    ensures
        s.narrowed(reachable(s.next_probe())).agrees(reachable),
{
    lemma_half(s.rounds as nat);
    lemma2_to64();
}

/// Every round keeps the search in a state that it can be in, and is one less.
pub proof fn lemma_narrowed_valid(s: ClampSearch, clear: bool)
    requires
        s.valid(),
        s.found is None,
    ensures
        s.narrowed(clear).valid(),
        s.narrowed(clear).rounds < s.rounds,
{
    lemma_half(s.rounds as nat);
    lemma2_to64();
}

/// When reachability ends at one point of the path, the search ends at that
/// point: at the target when that is reachable, and otherwise at the last part
/// before the first one out of reach, or nowhere when that is less than a
/// thousandth of the path. A new search agrees with whatever can be reached.
pub proof fn clamp_is_nearest(s: ClampSearch, reachable: spec_fn(int) -> bool, last: int)
    requires
        s.valid(),
        s.agrees(reachable),
        0 <= last <= UNIT,
        forall|k: int| 0 <= k <= UNIT ==> (#[trigger] reachable(k) <==> k <= last),
    ensures
        ClampSearch::fresh().valid(),
        ClampSearch::fresh().agrees(reachable),
        last == UNIT ==> s.settles(reachable) == Some(Goal::Target),
        NOTHING < last < UNIT ==> s.settles(reachable) == Some(Goal::Part { parts: last as u32 }),
        last <= NOTHING ==> s.settles(reachable) == Some(Goal::Stay),
    decreases s.rounds,
{
    lemma2_to64();
    if s.found is None {
        let clear = reachable(s.next_probe());
        lemma_narrowed_valid(s, clear);
        clamp_keeps_bracket(s, reachable);
        clamp_is_nearest(s.narrowed(clear), reachable, last);
    } else if s.found != Some(Goal::Target) {
        assert(s.hi == s.lo + 1);
        assert(!reachable(s.hi as int));
        if s.lo > 0 {
            assert(reachable(s.lo as int));
        }
    } else {
        assert(reachable(UNIT as int));
    }
}

/// The limits and tolerances are what they are called.
pub proof fn limits_are_exact()
    ensures
        (Double { bits: LOW_Z }).units() == whole(100),
        (Double { bits: WIDE_LIMIT }).units() == whole(360),
        (Double { bits: NARROW_LIMIT }).units() == whole(120),
        (Double { bits: POS_TOL }).units() == whole(1),
        (Double { bits: ORI_TOL }).units() == whole(5),
{
    lemma2_to64();
    vstd::arithmetic::power2::lemma2_to64_rest();
    assert(25 * 0x1_0000_0000_0000 == 0x10_0000_0000_0000 + 0x9_0000_0000_0000);
    lemma_whole_pattern(LOW_Z, 100);
    lemma_whole_pattern(WIDE_LIMIT, 360);
    lemma_whole_pattern(NARROW_LIMIT, 120);
    lemma_whole_pattern(POS_TOL, 1);
    lemma_whole_pattern(ORI_TOL, 5);
}

/// A pose is too low exactly below 100 mm.
pub proof fn low_means_below_a_hundred(p: CartesianPose)
    ensures
        is_too_low(p) <==> !p.tran.z.is_nan() && p.tran.z.units() < whole(100),
{
    limits_are_exact();
}

/// Joints are within their limits exactly when the second and the fifth are
/// between -120 and 120 degrees and the others between -360 and 360.
pub proof fn joints_have_their_limits(degrees: Seq<Double>)
    ensures
        joints_within(degrees) <==> {
            &&& !degrees[0].is_nan() && -whole(360) <= degrees[0].units() <= whole(360)
            &&& !degrees[1].is_nan() && -whole(120) <= degrees[1].units() <= whole(120)
            &&& !degrees[2].is_nan() && -whole(360) <= degrees[2].units() <= whole(360)
            &&& !degrees[3].is_nan() && -whole(360) <= degrees[3].units() <= whole(360)
            &&& !degrees[4].is_nan() && -whole(120) <= degrees[4].units() <= whole(120)
            &&& !degrees[5].is_nan() && -whole(360) <= degrees[5].units() <= whole(360)
        },
{
    limits_are_exact();
    if joints_within(degrees) {
        assert(within(degrees[0], joint_limit(0)));
        assert(within(degrees[1], joint_limit(1)));
        assert(within(degrees[2], joint_limit(2)));
        assert(within(degrees[3], joint_limit(3)));
        assert(within(degrees[4], joint_limit(4)));
        assert(within(degrees[5], joint_limit(5)));
    }
}

/// Two poses count as one exactly when they are less than 1 mm and in each angle
/// less than 5 degrees apart.
pub proof fn close_means_within_tolerances(gap: PoseGap)
    ensures
        gap_closed(gap) <==> {
            &&& !gap.pos.is_nan() && gap.pos.units() < whole(1)
            &&& !gap.rx.is_nan() && gap.rx.units() < whole(5)
            &&& !gap.ry.is_nan() && gap.ry.units() < whole(5)
            &&& !gap.rz.is_nan() && gap.rz.units() < whole(5)
        },
{
    limits_are_exact();
}

/// In the home pose the second joint is a quarter turn up, the third and the
/// fifth are as far down, and the others are at zero.
pub proof fn home_bends_three_joints()
    ensures
        home_angles().len() == 6,
        home_angles()[0].bits == 0,
        home_angles()[1].bits == FRAC_PI_2,
        home_angles()[2].units() == -home_angles()[1].units(),
        home_angles()[3].bits == 0,
        home_angles()[4].units() == -home_angles()[1].units(),
        home_angles()[5].bits == 0,
        home_angles()[1].units() > 0,
{
    signs_change_values(Double { bits: FRAC_PI_2 });
    crate::number::lemma_units_order(0, FRAC_PI_2 as nat);
    crate::number::lemma_units_zero();
}

impl IkSearch {
    /// What the search asks for.
    pub open spec fn wants(self) -> IkRequest {
        match self.stage {
            IkStage::Inverse => IkRequest::Inverse {
                reference: self.refs@[self.index as int],
                pose: self.pose,
            },
            IkStage::Forward { joint } => IkRequest::Forward { joint },
            IkStage::Done { solution } => IkRequest::Finished { solution },
        }
    }

    /// The search once the solver has answered.
    pub open spec fn inverted(self, code: errno_t, joint: JointValue, degrees: Seq<Double>) -> IkSearch {
        if code == ERR_SUCC && joints_within(degrees) {
            IkSearch { stage: IkStage::Forward { joint }, ..self }
        } else {
            self.skipped()
        }
    }

    /// The search once the pose of the solution is known.
    pub open spec fn confirmed(self, code: errno_t, gap: PoseGap) -> IkSearch {
        if code == ERR_SUCC && gap_closed(gap) {
            IkSearch { stage: IkStage::Done { solution: Some(self.stage->Forward_joint) }, ..self }
        } else {
            self.skipped()
        }
    }
}

/// The solver is asked for the wanted pose each time, with one reference after
/// the other; an answer is verified by its own joints, and those joints are the
/// solution when that holds. After the last reference there is none.
pub proof fn ik_asks_reference_by_reference(
    s: IkSearch,
    code: errno_t,
    joint: JointValue,
    degrees: Seq<Double>,
    gap: PoseGap,
)
    requires
        s.valid(),
    ensures
        s.stage is Inverse ==> (s.wants() matches IkRequest::Inverse { reference, pose } && pose
            == s.pose && reference == s.refs@[s.index as int]),
        s.stage is Inverse && code == ERR_SUCC && joints_within(degrees) ==> (s.inverted(
            code,
            joint,
            degrees,
        ).wants() matches IkRequest::Forward { joint: j } && j == joint),
        s.stage is Inverse && !(code == ERR_SUCC && joints_within(degrees)) ==> (if s.index < 3 {
            s.inverted(code, joint, degrees).wants() matches IkRequest::Inverse { reference, pose }
                && pose == s.pose && reference == s.refs@[s.index + 1]
        } else {
            s.inverted(code, joint, degrees).wants() matches IkRequest::Finished { solution }
                && solution is None
        }),
        s.stage is Forward && code == ERR_SUCC && gap_closed(gap) ==> (s.confirmed(
            code,
            gap,
        ).wants() matches IkRequest::Finished { solution } && solution == Some(
            s.wants()->Forward_joint,
        )),
        s.stage is Forward && !(code == ERR_SUCC && gap_closed(gap)) ==> (if s.index < 3 {
            s.confirmed(code, gap).wants() matches IkRequest::Inverse { reference, pose } && pose
                == s.pose && reference == s.refs@[s.index + 1]
        } else {
            s.confirmed(code, gap).wants() matches IkRequest::Finished { solution }
                && solution is None
        }),
{
}

/// A path is sampled at its start, after each eighth of it, and at its end, one
/// after the other, until a sample can not be passed.
pub proof fn path_is_sampled_in_order(c: PathCheck, probe: CartesianPose, solved: bool)
    requires
        c.valid(),
    ensures
        PathCheck::fresh(c.guarded).stage == (PathStage::Sample { index: 0 }),
        c.stage matches PathStage::Sample { index } ==> ({
            let next = c.probed(probe);
            &&& next.guarded == c.guarded
            &&& c.guarded && !probe.tran.z.is_nan() && probe.tran.z.units() < whole(100)
                ==> next.stage == (PathStage::Done { clear: false })
            &&& !(c.guarded && !probe.tran.z.is_nan() && probe.tran.z.units() < whole(100))
                ==> next.stage == (PathStage::Solve { index, probe })
        }),
        c.stage matches PathStage::Solve { index, .. } ==> ({
            let next = c.answered(solved);
            &&& next.guarded == c.guarded
            &&& !solved ==> next.stage == (PathStage::Done { clear: false })
            &&& solved && index < 8 ==> (next.stage matches PathStage::Sample { index: i } && i
                == index + 1)
            &&& solved && index == 8 ==> next.stage == (PathStage::Done { clear: true })
        }),
{
    limits_are_exact();
}

/// The solver is asked for the pose from the current joints first, from all
/// joints at zero next, from the home pose, and last from the joints turned
/// toward the pose; there is no fifth question.
pub proof fn ik_references_come_in_order(
    s: IkSearch,
    current: JointValue,
    aimed: JointValue,
    pose: CartesianPose,
    i: int,
)
    requires
        s.begins(current, aimed, pose),
        0 <= i < 6,
    ensures
        s.wants() matches IkRequest::Inverse { reference, pose: p } && reference == current && p
            == pose,
        s.skipped().wants() matches IkRequest::Inverse { reference, pose: p }
            && reference.j_val@[i].bits == 0 && p == pose,
        s.skipped().skipped().wants() matches IkRequest::Inverse { reference, pose: p }
            && reference.j_val@ == home_angles() && p == pose,
        s.skipped().skipped().skipped().wants() matches IkRequest::Inverse { reference, pose: p }
            && reference == aimed && p == pose,
        s.skipped().skipped().skipped().skipped().wants() matches IkRequest::Finished { solution }
            && solution is None,
{
}

} // verus!
