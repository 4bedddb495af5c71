//! Continuous motion of single axes. The first three axes are translations in
//! mm/s, the last three are rotations in deg/s.

use crate::number::{lemma_whole_pattern, whole, Double};
use crate::sdk::{zero_number, CoordType, MoveMode};
use crate::steps::Step;
use vstd::prelude::*;

verus! {

/// 100, the safe limit of translations in mm/s.
pub const MAX_LIN_VEL: u64 = 0x4059_0000_0000_0000;

/// 30, the safe limit of rotations in deg/s.
pub const MAX_ROT_VEL: u64 = 0x403e_0000_0000_0000;

/// The safe limit of the axis with index `i`.
pub open spec fn velocity_limit(i: int) -> Double {
    if i < 3 {
        Double { bits: MAX_LIN_VEL }
    } else {
        Double { bits: MAX_ROT_VEL }
    }
}

/// The velocities brought into the safe limits.
pub open spec fn safe_velocities(v: Seq<Double>) -> Seq<Double> {
    Seq::new(6, |i: int| v[i].limited(velocity_limit(i).negated(), velocity_limit(i)))
}

/// The call that gives axis `i` the velocity `v` when its last one was `last`:
/// an axis that fell to zero is stopped, one that stays at zero is left alone.
pub open spec fn axis_steps(i: int, last: Double, v: Double) -> Seq<Step> {
    if !v.is_zero() {
        seq![
            Step::Jog {
                axis: i as i32,
                mode: MoveMode::Continue,
                coord: CoordType::Base,
                velocity: v,
                position: zero_number(),
                angular: i >= 3,
            },
        ]
    } else if !last.is_zero() {
        seq![Step::StopJog { axis: i as i32 }]
    } else {
        Seq::empty()
    }
}

/// The calls that change the velocities of the first `n` axes from `last` to
/// `v`, in the order of the axes.
pub open spec fn jog_steps(last: Seq<Double>, v: Seq<Double>, n: int) -> Seq<Step>
    decreases n,
{
    if n <= 0 {
        Seq::empty()
    } else {
        jog_steps(last, v, n - 1) + axis_steps(n - 1, last[n - 1], v[n - 1])
    }
}

/// Six times zero.
pub open spec fn at_rest() -> Seq<Double> {
    Seq::new(6, |i: int| zero_number())
}

/// The velocity limits are what they are called.
pub proof fn velocity_limits_are_whole()
    ensures
        (Double { bits: MAX_LIN_VEL }).units() == whole(100),
        (Double { bits: MAX_ROT_VEL }).units() == whole(30),
{
    vstd::arithmetic::power2::lemma2_to64();
    vstd::arithmetic::power2::lemma2_to64_rest();
    assert(25 * 0x1_0000_0000_0000 == 0x10_0000_0000_0000 + 0x9_0000_0000_0000);
    lemma_whole_pattern(MAX_LIN_VEL, 100);
    lemma_whole_pattern(MAX_ROT_VEL, 30);
}

/// Clamp the requested velocities to the safe limits.
pub fn clamp_vel(v: &[Double; 6]) -> (r: [Double; 6])
    ensures
        r@ == safe_velocities(v@),
{
    let lin = Double { bits: MAX_LIN_VEL };
    let rot = Double { bits: MAX_ROT_VEL };
    let back = lin.negate();
    let turn = rot.negate();
    let r = [
        v[0].clamp(back, lin),
        v[1].clamp(back, lin),
        v[2].clamp(back, lin),
        v[3].clamp(turn, rot),
        v[4].clamp(turn, rot),
        v[5].clamp(turn, rot),
    ];
    assert(r@ =~= safe_velocities(v@));
    r
}

/// The calls of a change of the axis velocities, and the velocities once they
/// have all succeeded.
#[derive(Debug)]
pub struct JogPlan {
    pub steps: Vec<Step>,
    pub velocities: [Double; 6],
}

fn change(last: &[Double; 6], v: &[Double; 6]) -> (r: Vec<Step>)
    ensures
        r@ == jog_steps(last@, v@, 6),
{
    let mut steps: Vec<Step> = Vec::new();
    let mut i: usize = 0;
    while i < 6
        invariant
            i <= 6,
            steps@ == jog_steps(last@, v@, i as int),
        decreases 6 - i,
    {
        let ghost before = steps@;
        if v[i].zero() {
            if !last[i].zero() {
                steps.push(Step::StopJog { axis: i as i32 });
            }
        } else {
            steps.push(
                Step::Jog {
                    axis: i as i32,
                    mode: MoveMode::Continue,
                    coord: CoordType::Base,
                    velocity: v[i],
                    position: Double { bits: 0 },
                    angular: i >= 3,
                },
            );
        }
        assert(steps@ =~= before + axis_steps(i as int, last@[i as int], v@[i as int]));
        i = i + 1;
    }
    steps
}

/// Apply new axis velocities, stopping the axes that fell to zero.
pub fn jog_axes(last: &[Double; 6], v: &[Double; 6]) -> (r: JogPlan)
    ensures
        r.velocities@ == safe_velocities(v@),
        r.steps@ == jog_steps(last@, safe_velocities(v@), 6),
        forall|k: int|
            0 <= k < r.steps@.len() ==> (#[trigger] r.steps@[k] matches Step::Jog { axis, velocity, .. }
                ==> 0 <= axis < 6 && velocity == r.velocities@[axis as int]),
{
    proof {
        lemma_jog_calls(last@, safe_velocities(v@), 6);
    }
    let velocities = clamp_vel(v);
    let steps = change(last, &velocities);
    JogPlan { steps, velocities }
}

/// Stop every axis that moves.
pub fn stop_jog(last: &[Double; 6]) -> (r: JogPlan)
    ensures
        r.velocities@ == at_rest(),
        r.steps@ == jog_steps(last@, at_rest(), 6),
{
    let z = Double { bits: 0 };
    let velocities = [z, z, z, z, z, z];
    assert(velocities@ =~= at_rest());
    let steps = change(last, &velocities);
    JogPlan { steps, velocities }
}

/// Whether each axis moves after successful calls, from whether it did before.
pub open spec fn moving_after(moving: Seq<bool>, steps: Seq<Step>) -> Seq<bool>
    decreases steps.len(),
{
    if steps.len() == 0 {
        moving
    } else {
        let before = moving_after(moving, steps.drop_last());
        match steps.last() {
            Step::Jog { axis, .. } => before.update(axis as int, true),
            Step::StopJog { axis } => before.update(axis as int, false),
            _ => before,
        }
    }
}

/// An axis moves exactly when its velocity is not zero.
pub open spec fn moving_as(moving: Seq<bool>, v: Seq<Double>) -> bool {
    &&& moving.len() == 6
    &&& forall|i: int| 0 <= i < 6 ==> (#[trigger] moving[i] <==> !v[i].is_zero())
}

/// Every axis that moves has a velocity that is not zero.
pub open spec fn covers(v: Seq<Double>, moving: Seq<bool>) -> bool {
    &&& moving.len() == 6
    &&& forall|i: int| 0 <= i < 6 && #[trigger] moving[i] ==> !v[i].is_zero()
}

proof fn lemma_moving_upto(moving: Seq<bool>, last: Seq<Double>, v: Seq<Double>, n: int)
    requires
        0 <= n <= 6,
        covers(last, moving),
    ensures
        ({
            let after = moving_after(moving, jog_steps(last, v, n));
            &&& after.len() == 6
            &&& forall|i: int| 0 <= i < n ==> (#[trigger] after[i] <==> !v[i].is_zero())
            &&& forall|i: int| n <= i < 6 ==> #[trigger] after[i] == moving[i]
        }),
    decreases n,
{
    if n > 0 {
        lemma_moving_upto(moving, last, v, n - 1);
        let before = jog_steps(last, v, n - 1);
        let one = axis_steps(n - 1, last[n - 1], v[n - 1]);
        let steps = jog_steps(last, v, n);
        if one.len() == 1 {
            assert(steps.drop_last() =~= before);
            assert(steps.last() == one[0]);
        } else {
            assert(steps =~= before);
        }
    }
}

/// When the calls of a change succeed, an axis moves exactly when its new
/// velocity is not zero, if no axis moved before whose velocity was zero.
pub proof fn jog_reaches_velocities(moving: Seq<bool>, last: Seq<Double>, v: Seq<Double>)
    requires
        covers(last, moving),
    ensures
        moving_as(moving_after(moving, jog_steps(last, v, 6)), v),
{
    lemma_moving_upto(moving, last, v, 6);
}

/// When the calls of stopping succeed, no axis moves, if none moved before whose
/// velocity was zero.
pub proof fn stop_leaves_at_rest(moving: Seq<bool>, last: Seq<Double>)
    requires
        covers(last, moving),
    ensures
        forall|i: int|
            0 <= i < 6 ==> !#[trigger] moving_after(moving, jog_steps(last, at_rest(), 6))[i],
{
    jog_reaches_velocities(moving, last, at_rest());
    let after = moving_after(moving, jog_steps(last, at_rest(), 6));
    assert forall|i: int| 0 <= i < 6 implies !#[trigger] after[i] by {
        assert(at_rest()[i] == zero_number());
    }
}

proof fn lemma_jogs_have_velocity(last: Seq<Double>, v: Seq<Double>, n: int)
    requires
        0 <= n <= 6,
    ensures
        forall|i: int|
            0 <= i < jog_steps(last, v, n).len() ==> match #[trigger] jog_steps(last, v, n)[i] {
                Step::Jog { axis, .. } => 0 <= axis < n && !v[axis as int].is_zero(),
                Step::StopJog { axis } => 0 <= axis < n,
                _ => false,
            },
    decreases n,
{
    if n > 0 {
        lemma_jogs_have_velocity(last, v, n - 1);
        let before = jog_steps(last, v, n - 1);
        let all = jog_steps(last, v, n);
        assert forall|i: int| 0 <= i < all.len() implies match #[trigger] all[i] {
            Step::Jog { axis, .. } => 0 <= axis < n && !v[axis as int].is_zero(),
            Step::StopJog { axis } => 0 <= axis < n,
            _ => false,
        } by {
            if i < before.len() {
                assert(all[i] == before[i]);
            }
        }
    }
}

/// Whichever of the calls of a change have succeeded, every axis that moves has
/// a velocity that is not zero among the old ones or among the new ones.
pub proof fn moving_axes_are_known(moving: Seq<bool>, last: Seq<Double>, v: Seq<Double>, k: int)
    requires
        covers(last, moving),
        0 <= k <= jog_steps(last, v, 6).len(),
    ensures
        ({
            let after = moving_after(moving, jog_steps(last, v, 6).take(k));
            &&& after.len() == 6
            &&& forall|i: int|
                0 <= i < 6 && #[trigger] after[i] ==> !last[i].is_zero() || !v[i].is_zero()
        }),
    decreases k,
{
    let steps = jog_steps(last, v, 6);
    if k > 0 {
        moving_axes_are_known(moving, last, v, k - 1);
        lemma_jogs_have_velocity(last, v, 6);
        assert(steps.take(k).drop_last() =~= steps.take(k - 1));
        assert(steps.take(k).last() == steps[k - 1]);
    }
}

/// No velocity that is sent exceeds the safe limits.
pub proof fn velocities_are_safe(v: Seq<Double>, i: int)
    requires
        v.len() == 6,
        0 <= i < 6,
        !v[i].is_nan(),
    ensures
        -velocity_limit(i).units() <= safe_velocities(v)[i].units() <= velocity_limit(i).units(),
{
    let limit = velocity_limit(i);
    assert(limit.negated().units() == -limit.units());
    velocity_limits_are_whole();
    assert(whole(100) > 0 && whole(30) > 0) by {
        vstd::arithmetic::power2::lemma_pow2_pos(1074);
    }
}

/// The velocity of each axis after successful calls, from those before them.
pub open spec fn running_after(running: Seq<Double>, steps: Seq<Step>) -> Seq<Double>
    decreases steps.len(),
{
    if steps.len() == 0 {
        running
    } else {
        let before = running_after(running, steps.drop_last());
        match steps.last() {
            Step::Jog { axis, velocity, .. } => before.update(axis as int, velocity),
            Step::StopJog { axis } => before.update(axis as int, zero_number()),
            _ => before,
        }
    }
}

/// The axis that a call is about.
pub open spec fn axis_of(step: Step) -> int {
    match step {
        Step::Jog { axis, .. } => axis as int,
        Step::StopJog { axis } => axis as int,
        _ => -1,
    }
}

proof fn lemma_jog_calls(last: Seq<Double>, v: Seq<Double>, n: int)
    requires
        0 <= n <= 6,
    ensures
        forall|k: int|
            0 <= k < jog_steps(last, v, n).len() ==> {
                let step = #[trigger] jog_steps(last, v, n)[k];
                &&& 0 <= axis_of(step) < n
                &&& match step {
                    Step::Jog { axis, mode, coord, velocity, position, angular } => {
                        &&& velocity == v[axis as int]
                        &&& mode is Continue
                        &&& coord is Base
                        &&& position.bits == 0
                        &&& angular == (axis == 3 || axis == 4 || axis == 5)
                        &&& !v[axis as int].is_zero()
                    },
                    Step::StopJog { axis } => v[axis as int].is_zero()
                        && !last[axis as int].is_zero(),
                    _ => false,
                }
            },
        forall|j: int, k: int|
            0 <= j < k < jog_steps(last, v, n).len() ==> axis_of(
                #[trigger] jog_steps(last, v, n)[j],
            ) < axis_of(#[trigger] jog_steps(last, v, n)[k]),
    decreases n,
{
    if n > 0 {
        lemma_jog_calls(last, v, n - 1);
        let before = jog_steps(last, v, n - 1);
        let all = jog_steps(last, v, n);
        assert(all == before + axis_steps(n - 1, last[n - 1], v[n - 1]));
        assert forall|k: int| 0 <= k < before.len() implies #[trigger] all[k] == before[k] by {}
    }
}

/// Every call of a change of velocities gives its axis exactly the velocity that
/// was asked for it, sign and all, continuously and in the base frame, and stops
/// only axes that had a velocity and shall have none. Rotations, the last three
/// axes, are told from translations. No axis is called twice, and they come in
/// their order.
pub proof fn jog_calls_give_what_was_asked(last: Seq<Double>, v: Seq<Double>, k: int)
    requires
        0 <= k < jog_steps(last, v, 6).len(),
    ensures
        match jog_steps(last, v, 6)[k] {
            Step::Jog { axis, mode, coord, velocity, position, angular } => {
                &&& 0 <= axis < 6
                &&& velocity == v[axis as int]
                &&& !velocity.is_zero()
                &&& mode is Continue
                &&& coord is Base
                &&& position.bits == 0
                &&& angular == (axis == 3 || axis == 4 || axis == 5)
            },
            Step::StopJog { axis } => {
                &&& 0 <= axis < 6
                &&& v[axis as int].is_zero()
                &&& !last[axis as int].is_zero()
            },
            _ => false,
        },
        forall|j: int|
            0 <= j < k ==> axis_of(#[trigger] jog_steps(last, v, 6)[j]) < axis_of(
                jog_steps(last, v, 6)[k],
            ),
{
    lemma_jog_calls(last, v, 6);
}

proof fn lemma_running_upto(running: Seq<Double>, last: Seq<Double>, v: Seq<Double>, n: int)
    requires
        0 <= n <= 6,
        running.len() == 6,
        forall|i: int| 0 <= i < 6 && last[i].is_zero() ==> (#[trigger] running[i]).is_zero(),
    ensures
        ({
            let after = running_after(running, jog_steps(last, v, n));
            &&& after.len() == 6
            &&& forall|i: int|
                0 <= i < n ==> if v[i].is_zero() {
                    (#[trigger] after[i]).is_zero()
                } else {
                    after[i] == v[i]
                }
            &&& forall|i: int| n <= i < 6 ==> #[trigger] after[i] == running[i]
        }),
    decreases n,
{
    if n > 0 {
        lemma_running_upto(running, last, v, n - 1);
        let before = jog_steps(last, v, n - 1);
        let one = axis_steps(n - 1, last[n - 1], v[n - 1]);
        let steps = jog_steps(last, v, n);
        if one.len() == 1 {
            assert(steps.drop_last() =~= before);
            assert(steps.last() == one[0]);
        } else {
            assert(steps =~= before);
        }
    }
}

/// When the calls of a change succeed, every axis runs at the velocity that was
/// asked for it, sign and all, and stands where that is zero.
pub proof fn axes_run_as_asked(running: Seq<Double>, last: Seq<Double>, v: Seq<Double>, i: int)
    requires
        running.len() == 6,
        forall|k: int| 0 <= k < 6 && last[k].is_zero() ==> (#[trigger] running[k]).is_zero(),
        0 <= i < 6,
    ensures
        !v[i].is_zero() ==> running_after(running, jog_steps(last, v, 6))[i] == v[i],
        v[i].is_zero() ==> running_after(running, jog_steps(last, v, 6))[i].is_zero(),
{
    lemma_running_upto(running, last, v, 6);
}

/// Velocities within 100 mm/s, or 30 deg/s for the last three axes, are taken as
/// they are; a larger one is cut to the limit of its axis and keeps its
/// direction.
pub proof fn safe_velocities_keep_direction(v: Seq<Double>, i: int)
    requires
        v.len() == 6,
        0 <= i < 6,
    ensures
        safe_velocities(v).len() == 6,
        v[i].is_nan() ==> safe_velocities(v)[i] == v[i],
        !v[i].is_nan() ==> ({
            let limit = if i == 0 || i == 1 || i == 2 {
                whole(100)
            } else {
                whole(30)
            };
            let r = safe_velocities(v)[i];
            &&& -limit <= v[i].units() <= limit ==> r == v[i]
            &&& v[i].units() > limit ==> r.units() == limit
            &&& v[i].units() < -limit ==> r.units() == -limit
        }),
{
    velocity_limits_are_whole();
    let lin = Double { bits: MAX_LIN_VEL };
    let rot = Double { bits: MAX_ROT_VEL };
    assert(lin.negated().units() == -lin.units() && rot.negated().units() == -rot.units());
    assert(whole(100) > 0 && whole(30) > 0) by {
        vstd::arithmetic::power2::lemma_pow2_pos(1074);
    }
}

/// No axis at rest has a velocity.
pub proof fn at_rest_is_zero(i: int)
    requires
        0 <= i < 6,
    ensures
        at_rest().len() == 6,
        at_rest()[i].bits == 0,
{
}

} // verus!
