//! What the log says while a command runs: which line belongs to which turn of a
//! move, and to which call or skipped call of a change of power.

use crate::command::Command;
use crate::drive::needs_power;
use crate::kinematics::{is_too_low, too_low, Goal};
use crate::move_to::{Mover, Purpose, Stage};
use crate::plan::{info, info_line, lines_of, warn_line, warning, LineView, LogLine};
use crate::sdk::{RobotState, BOOL};
use crate::steps::Step;
use crate::text::{concat2, concat3};
use vstd::prelude::*;

verus! {

/// The numbers of a move as they are shown: its speed, and the pose it goes to.
#[derive(Debug)]
pub struct MoveTexts {
    pub speed: String,
    pub x: String,
    pub y: String,
    pub z: String,
    pub rx: String,
    pub ry: String,
    pub rz: String,
}

/// The move is in its search for a reachable point.
pub open spec fn in_search(stage: Stage) -> bool {
    match stage {
        Stage::Split => true,
        Stage::Solve { purpose: Purpose::Probe { .. }, .. } => true,
        Stage::Attempt { purpose: Purpose::Probe { .. }, .. } => true,
        Stage::Clear { purpose: Purpose::Probe { .. }, .. } => true,
        Stage::Land { purpose: Purpose::Probe { .. }, .. } => true,
        Stage::Refresh { purpose: Purpose::Probe { .. } } => true,
        _ => false,
    }
}

/// A position as it is shown.
pub open spec fn place(shown: MoveTexts) -> Seq<char> {
    "x="@ + shown.x@ + ", y="@ + shown.y@ + ", z="@ + shown.z@
}

/// The line of the position of the target.
pub open spec fn target_line(shown: MoveTexts) -> LineView {
    info("Target TCP in mm: "@ + place(shown))
}

/// The line of a linear motion.
pub open spec fn linear_line(shown: MoveTexts) -> LineView {
    info("Moving linearly at "@ + shown.speed@ + " mm/s"@)
}

/// The line of a target that was clamped.
pub open spec fn clamped_line() -> LineView {
    warning("Target is out of the workspace, clamped to the nearest reachable point"@)
}

/// The line of a robot that can go no farther.
pub open spec fn boundary_line() -> LineView {
    info("Already at the workspace boundary, nothing to move"@)
}

/// The lines once the joints before the move are known.
pub open spec fn aim_lines(before: Stage, shown: MoveTexts) -> Seq<LineView> {
    match before {
        Stage::ReadJoints { jump } => if jump {
            seq![target_line(shown), info("Large orientation change, using a joint move"@)]
        } else {
            seq![target_line(shown)]
        },
        _ => Seq::empty(),
    }
}

/// The lines at the end of the check of the straight path.
pub open spec fn path_lines(before: Stage, after: Stage, shown: MoveTexts) -> Seq<LineView> {
    if before is CheckPath && after !is CheckPath {
        if after is Linear {
            seq![linear_line(shown)]
        } else {
            seq![info("Straight path is blocked, using a joint move"@)]
        }
    } else {
        Seq::empty()
    }
}

/// The lines at the start of the search, at its end, and where the mirrored
/// orientation was reached.
pub open spec fn turn_lines(before: Stage, m: Mover, shown: MoveTexts) -> Seq<LineView> {
    if m.stage is Split && !in_search(before) {
        (if is_too_low(m.target) {
            seq![warning("Target z is below the safe height, skipping the direct move"@)]
        } else {
            Seq::<LineView>::empty()
        }) + seq![info("Target is unreachable, probing the reachable point closest to it"@)]
    } else if m.stage is Report && (before matches Stage::Land { purpose: Purpose::Mirrored, .. }) {
        seq![
            info(
                "Target orientation is not reachable, using the mirrored orientation rx="@
                    + shown.rx@ + ", ry="@ + shown.ry@ + ", rz="@ + shown.rz@,
            ),
        ]
    } else if m.stage is Report && in_search(before) {
        seq![clamped_line(), info("Clamped TCP in mm: "@ + place(shown))]
    } else if m.stage is Done && in_search(before) {
        seq![boundary_line()]
    } else {
        Seq::empty()
    }
}

fn searching(stage: &Stage) -> (r: bool)
    ensures
        r == in_search(*stage),
{
    match stage {
        Stage::Split => true,
        Stage::Solve { purpose: Purpose::Probe { .. }, .. } => true,
        Stage::Attempt { purpose: Purpose::Probe { .. }, .. } => true,
        Stage::Clear { purpose: Purpose::Probe { .. }, .. } => true,
        Stage::Land { purpose: Purpose::Probe { .. }, .. } => true,
        Stage::Refresh { purpose: Purpose::Probe { .. } } => true,
        _ => false,
    }
}

fn place_text(start: &str, shown: &MoveTexts) -> (r: String)
    ensures
        r@ == start@ + place(*shown),
{
    let mut s = concat3("x=", shown.x.as_str(), ", y=");
    s.append(shown.y.as_str());
    s.append(", z=");
    s.append(shown.z.as_str());
    concat2(start, s.as_str())
}

/// What the log says of a move that was in the stage `before` and has taken an
/// answer since. `shown` shows its speed and the pose it goes to: the goal that
/// is reported, the target before.
pub fn notes(before: &Stage, m: &Mover, shown: &MoveTexts) -> (r: Vec<LogLine>)
    ensures
        lines_of(r@) == aim_lines(*before, *shown) + path_lines(*before, m.stage, *shown) + turn_lines(
            *before,
            *m,
            *shown,
        ),
{
    let mut out: Vec<LogLine> = Vec::new();
    if let Stage::ReadJoints { jump } = before {
        out.push(info_line(place_text("Target TCP in mm: ", shown)));
        if *jump {
            out.push(info_line("Large orientation change, using a joint move".to_owned()));
        }
    }
    assert(lines_of(out@) =~= aim_lines(*before, *shown));
    let ghost first = out@;
    if let Stage::CheckPath { .. } = before {
        match m.stage {
            Stage::CheckPath { .. } => {},
            Stage::Linear => out.push(
                info_line(concat3("Moving linearly at ", shown.speed.as_str(), " mm/s")),
            ),
            _ => out.push(info_line("Straight path is blocked, using a joint move".to_owned())),
        }
    }
    assert(lines_of(out@) =~= lines_of(first) + path_lines(*before, m.stage, *shown));
    let ghost second = out@;
    match m.stage {
        Stage::Split => {
            if !searching(before) {
                if too_low(&m.target) {
                    out.push(
                        warn_line(
                            "Target z is below the safe height, skipping the direct move".to_owned(),
                        ),
                    );
                }
                out.push(
                    info_line(
                        "Target is unreachable, probing the reachable point closest to it".to_owned(),
                    ),
                );
            }
        },
        Stage::Report { .. } => {
            if let Stage::Land { purpose: Purpose::Mirrored, .. } = before {
                let mut s = concat3(
                    "Target orientation is not reachable, using the mirrored orientation rx=",
                    shown.rx.as_str(),
                    ", ry=",
                );
                s.append(shown.ry.as_str());
                s.append(", rz=");
                s.append(shown.rz.as_str());
                out.push(info_line(s));
            } else if searching(before) {
                out.push(
                    warn_line(
                        "Target is out of the workspace, clamped to the nearest reachable point".to_owned(),
                    ),
                );
                out.push(info_line(place_text("Clamped TCP in mm: ", shown)));
            }
        },
        Stage::Done => {
            if searching(before) {
                out.push(
                    info_line("Already at the workspace boundary, nothing to move".to_owned()),
                );
            }
        },
        _ => {},
    }
    assert(lines_of(out@) =~= lines_of(second) + turn_lines(*before, *m, *shown));
    out
}

/// The lines once the goal of a move by an offset is known, and whether the
/// robot stays.
pub open spec fn goal_lines(goal: Goal, stays: bool, shown: MoveTexts) -> Seq<LineView> {
    if stays {
        seq![boundary_line()]
    } else if goal == Goal::Target {
        seq![target_line(shown), linear_line(shown)]
    } else {
        seq![clamped_line(), target_line(shown), linear_line(shown)]
    }
}

/// What the log says of the goal of a move by an offset. `shown` shows the speed
/// and the pose of the goal.
pub fn base_notes(goal: &Goal, stays: bool, shown: &MoveTexts) -> (r: Vec<LogLine>)
    ensures
        lines_of(r@) == goal_lines(*goal, stays, *shown),
{
    let mut out: Vec<LogLine> = Vec::new();
    if stays {
        out.push(info_line("Already at the workspace boundary, nothing to move".to_owned()));
    } else {
        if *goal != Goal::Target {
            out.push(
                warn_line(
                    "Target is out of the workspace, clamped to the nearest reachable point".to_owned(),
                ),
            );
        }
        out.push(info_line(place_text("Target TCP in mm: ", shown)));
        out.push(info_line(concat3("Moving linearly at ", shown.speed.as_str(), " mm/s")));
    }
    assert(lines_of(out@) =~= goal_lines(*goal, stays, *shown));
    out
}

/// The lines around the calls of a command, for the calls that are skipped.
#[derive(Debug)]
pub struct Around {
    pub before: Vec<LogLine>,
    pub after: Vec<LogLine>,
}

/// A line, if `say`.
pub open spec fn said(say: bool, text: Seq<char>) -> Seq<LineView> {
    if say {
        seq![info(text)]
    } else {
        Seq::empty()
    }
}

fn say_if(say: bool, text: &str) -> (r: Vec<LogLine>)
    ensures
        lines_of(r@) == said(say, text@),
{
    let mut out: Vec<LogLine> = Vec::new();
    if say {
        out.push(info_line(text.to_owned()));
    }
    assert(lines_of(out@) =~= said(say, text@));
    out
}

/// What the log says around the calls that bring the robot to power: what was
/// done already.
pub fn power_up_notes(st: &RobotState) -> (r: Around)
    ensures
        lines_of(r.before@) == said(st.powered_on != 0, "Already powered on"@),
        lines_of(r.after@) == said(st.servo_enabled != 0, "Already enabled"@),
{
    Around {
        before: say_if(st.powered_on != 0, "Already powered on"),
        after: say_if(st.servo_enabled != 0, "Already enabled"),
    }
}

/// What the log says before the calls of a command.
pub open spec fn said_before(command: Command, st: RobotState) -> Seq<LineView> {
    said(needs_power(command) && st.powered_on != 0, "Already powered on"@)
}

/// What the log says after the calls of a command.
pub open spec fn said_after(command: Command, st: RobotState) -> Seq<LineView> {
    if command is PowerOff {
        said(st.powered_on == 0, "Already powered off"@)
    } else {
        said(needs_power(command) && st.servo_enabled != 0, "Already enabled"@)
    }
}

/// What the log says around the calls of a command.
pub fn drive_notes(command: &Command, st: &RobotState) -> (r: Around)
    ensures
        lines_of(r.before@) == said(
            needs_power(*command) && st.powered_on != 0,
            "Already powered on"@,
        ),
        lines_of(r.after@) == if *command is PowerOff {
            said(st.powered_on == 0, "Already powered off"@)
        } else {
            said(needs_power(*command) && st.servo_enabled != 0, "Already enabled"@)
        },
        lines_of(r.before@) == said_before(*command, *st),
        lines_of(r.after@) == said_after(*command, *st),
{
    match command {
        Command::PowerOn | Command::Rot { .. } | Command::Restore { .. } | Command::MoveTo {
            ..
        } => power_up_notes(st),
        Command::PowerOff => Around {
            before: say_if(false, "Already powered on"),
            after: say_if(st.powered_on == 0, "Already powered off"),
        },
        _ => Around {
            before: say_if(false, "Already powered on"),
            after: say_if(false, "Already enabled"),
        },
    }
}

/// The line of a call that succeeded, with the e-stop flag where that was read.
pub open spec fn done_lines(step: Step, flag: BOOL) -> Seq<LineView> {
    match step {
        Step::PowerOn => seq![info("Powered on"@)],
        Step::EnableRobot => seq![info("Enabled"@)],
        Step::DisableServos => seq![info("Servos disabled"@)],
        Step::PowerOff => seq![info("Powered off"@)],
        Step::ClearError => seq![info("Error state cleared"@)],
        Step::CheckEstop => if flag != 0 {
            seq![
                warning(
                    "E-stop is still active. Twist and pull the e-stop button to release it physically"@,
                ),
            ]
        } else {
            Seq::empty()
        },
        Step::RecheckEstop => said(
            flag == 0,
            "E-stop released. Run power-on to bring the robot back"@,
        ),
        _ => Seq::empty(),
    }
}

/// What the log says of a call that succeeded, with the e-stop flag where that
/// was read.
pub fn done_notes(step: &Step, flag: BOOL) -> (r: Vec<LogLine>)
    ensures
        lines_of(r@) == done_lines(*step, flag),
{
    let mut out: Vec<LogLine> = Vec::new();
    match step {
        Step::PowerOn => out.push(info_line("Powered on".to_owned())),
        Step::EnableRobot => out.push(info_line("Enabled".to_owned())),
        Step::DisableServos => out.push(info_line("Servos disabled".to_owned())),
        Step::PowerOff => out.push(info_line("Powered off".to_owned())),
        Step::ClearError => out.push(info_line("Error state cleared".to_owned())),
        Step::CheckEstop => {
            if flag != 0 {
                out.push(
                    warn_line(
                        "E-stop is still active. Twist and pull the e-stop button to release it physically".to_owned(),
                    ),
                );
            }
        },
        Step::RecheckEstop => {
            if flag == 0 {
                out.push(
                    info_line("E-stop released. Run power-on to bring the robot back".to_owned()),
                );
            }
        },
        _ => {},
    }
    assert(lines_of(out@) =~= done_lines(*step, flag));
    out
}

/// How the search of a move ends is told whichever of its turns it was: that the
/// target was clamped, and to where, when a point was reached, and that there is
/// nothing to move when none was. Between its turns nothing is told.
pub proof fn search_is_told(before: Stage, m: Mover, shown: MoveTexts)
    requires
        before is Split || (before matches Stage::Solve { purpose, .. } && purpose is Probe) || (
        before matches Stage::Attempt { purpose, .. } && purpose is Probe) || (
        before matches Stage::Clear { purpose, .. } && purpose is Probe) || (
        before matches Stage::Land { purpose, .. } && purpose is Probe) || (
        before matches Stage::Refresh { purpose } && purpose is Probe),
    ensures
        ({
            let told = aim_lines(before, shown) + path_lines(before, m.stage, shown) + turn_lines(
                before,
                m,
                shown,
            );
            &&& m.stage is Report ==> told.len() == 2 && told[0] == warning(
                "Target is out of the workspace, clamped to the nearest reachable point"@,
            ) && told[1] == info(
                "Clamped TCP in mm: "@ + ("x="@ + shown.x@ + ", y="@ + shown.y@ + ", z="@
                    + shown.z@),
            )
            &&& m.stage is Done ==> told.len() == 1 && told[0] == info(
                "Already at the workspace boundary, nothing to move"@,
            )
            &&& m.stage !is Report && m.stage !is Done ==> told.len() == 0
        }),
{
}

/// The start of the search is told once, with a warning before it exactly when
/// the target is below the safe height.
pub proof fn start_of_search_is_told(before: Stage, m: Mover, shown: MoveTexts)
    requires
        m.stage is Split,
        before is ReadJoints || before is CheckPath || before is Linear || (
        before matches Stage::Solve { purpose, .. } && purpose !is Probe) || (
        before matches Stage::Refresh { purpose } && purpose !is Probe),
    ensures
        ({
            let told = turn_lines(before, m, shown);
            &&& told.len() == if is_too_low(m.target) {
                2int
            } else {
                1int
            }
            &&& told[told.len() - 1] == info(
                "Target is unreachable, probing the reachable point closest to it"@,
            )
            &&& is_too_low(m.target) ==> told[0] == warning(
                "Target z is below the safe height, skipping the direct move"@,
            )
        }),
{
}

/// Where the mirrored orientation was reached, its three angles are told by name.
pub proof fn mirrored_orientation_is_told(before: Stage, m: Mover, shown: MoveTexts)
    requires
        m.stage is Report,
        before matches Stage::Land { purpose, .. } && purpose is Mirrored,
    ensures
        turn_lines(before, m, shown).len() == 1,
        turn_lines(before, m, shown)[0] == info(
            "Target orientation is not reachable, using the mirrored orientation rx="@ + shown.rx@
                + ", ry="@ + shown.ry@ + ", rz="@ + shown.rz@,
        ),
{
}

/// The goal of a move by an offset is told with its position and speed, with a
/// warning before it exactly when it was clamped, unless the robot stays.
pub proof fn offset_goal_is_told(goal: Goal, stays: bool, shown: MoveTexts)
    ensures
        ({
            let told = goal_lines(goal, stays, shown);
            let n = told.len() as int;
            &&& stays ==> n == 1 && told[0] == info(
                "Already at the workspace boundary, nothing to move"@,
            )
            &&& !stays ==> told[n - 2] == info(
                "Target TCP in mm: "@ + ("x="@ + shown.x@ + ", y="@ + shown.y@ + ", z="@
                    + shown.z@),
            ) && told[n - 1] == info("Moving linearly at "@ + shown.speed@ + " mm/s"@)
            &&& !stays && goal is Target ==> n == 2
            &&& !stays && goal !is Target ==> n == 3 && told[0] == warning(
                "Target is out of the workspace, clamped to the nearest reachable point"@,
            )
        }),
{
}

/// A call of power-on or power-off that is left out is told exactly when it was
/// done already: power and servos of the commands that move the robot or bring it
/// to power, power alone of power-off, and nothing of any other command.
pub proof fn skipped_calls_are_told(command: Command, st: RobotState)
    ensures
        command is PowerOn || command is Rot || command is Restore || command is MoveTo ==> {
            &&& st.powered_on != 0 ==> said_before(command, st) == seq![info("Already powered on"@)]
            &&& st.powered_on == 0 ==> said_before(command, st).len() == 0
            &&& st.servo_enabled != 0 ==> said_after(command, st) == seq![info("Already enabled"@)]
            &&& st.servo_enabled == 0 ==> said_after(command, st).len() == 0
        },
        command is PowerOff ==> {
            &&& said_before(command, st).len() == 0
            &&& st.powered_on == 0 ==> said_after(command, st) == seq![info("Already powered off"@)]
            &&& st.powered_on != 0 ==> said_after(command, st).len() == 0
        },
        !(command is PowerOn || command is Rot || command is Restore || command is MoveTo
            || command is PowerOff) ==> said_before(command, st).len() == 0 && said_after(
            command,
            st,
        ).len() == 0,
{
}

} // verus!
