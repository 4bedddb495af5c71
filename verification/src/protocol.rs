//! The control protocol: one command per line, one reply line per command.

use crate::drive::{energizes, MAX_JOINT_SPEED};
use crate::jog::{
    at_rest, at_rest_is_zero, axes_run_as_asked, covers, jog_axes, jog_calls_give_what_was_asked,
    jog_reaches_velocities, jog_steps, moving_after, moving_as, moving_axes_are_known,
    running_after, safe_velocities, safe_velocities_keep_direction, stop_jog, stop_leaves_at_rest,
};
use crate::json::{array_text, bool_text, json_array, json_bool};
use crate::number::{lemma_whole_pattern, whole, Double};
use crate::power::{
    ensure_powered_enabled, estop_clear, estop_clearing, estop_verdict, power_after,
    power_calls_are_ordered, power_down, power_off, power_steps_reach_state, power_up,
};
use crate::sdk::{failure_is_unbroken, JointValue, MoveMode, RobotState, BOOL};
use crate::steps::{complaint, joint_motion, name_is_unbroken, Outcome, Script, Step};
use crate::text::{
    concat2, concat3, contents, decimal, decimal_reads_back, decimal_text, is_space, joined,
    joined_stays_unbroken,
    lemma_words_hold_no_space, parse_unsigned, same_text, split_words, trim, trimmed, unbroken,
    unsigned_value, words,
};
use vstd::prelude::*;

verus! {

/// Commands of the control protocol.
#[derive(Clone, Copy, Debug, PartialEq, Eq, Structural)]
pub enum ProtoCmd {
    /// Continuous velocity, translations in mm/s, rotations in deg/s.
    Vel(Double, Double, Double, Double, Double, Double),
    EstopClear,
    PowerOn,
    PowerOff,
    Reset,
    Status,
    /// Switch a tool output on or off.
    Tool { index: u32, on: bool },
}

/// The message for a tool command that is none.
pub open spec fn tool_usage() -> Seq<char> {
    "do expects tool, an output number and on or off"@
}

/// The tool command of the words of a line, if they are one.
pub open spec fn tool_command(ws: Seq<Seq<char>>) -> Option<ProtoCmd> {
    if ws.len() != 4 || ws[1] != "tool"@ || !(ws[3] == "on"@ || ws[3] == "off"@) {
        None
    } else {
        match unsigned_value(ws[2]) {
            Some(n) if n <= 0xffff_ffff => Some(
                ProtoCmd::Tool { index: n as u32, on: ws[3] == "on"@ },
            ),
            _ => None,
        }
    }
}

/// The command of the words of a line, or why they are none. `numbers` holds
/// the number that each word stands for, nothing for a word that is no number.
pub open spec fn parsed(ws: Seq<Seq<char>>, numbers: Seq<Option<Double>>) -> Result<
    ProtoCmd,
    Seq<char>,
> {
    if ws.len() == 0 {
        Err("empty line"@)
    } else if ws[0] == "vel"@ {
        if ws.len() != 7 {
            Err("vel expects 6 numbers"@)
        } else if exists|i: int| 1 <= i < 7 && #[trigger] numbers[i] is None {
            Err(ws[0] + " expects numeric arguments"@)
        } else {
            Ok(
                ProtoCmd::Vel(
                    numbers[1]->0,
                    numbers[2]->0,
                    numbers[3]->0,
                    numbers[4]->0,
                    numbers[5]->0,
                    numbers[6]->0,
                ),
            )
        }
    } else if ws[0] == "estop-clear"@ {
        Ok(ProtoCmd::EstopClear)
    } else if ws[0] == "poweron"@ {
        Ok(ProtoCmd::PowerOn)
    } else if ws[0] == "poweroff"@ {
        Ok(ProtoCmd::PowerOff)
    } else if ws[0] == "reset"@ {
        Ok(ProtoCmd::Reset)
    } else if ws[0] == "status"@ {
        Ok(ProtoCmd::Status)
    } else if ws[0] == "do"@ {
        match tool_command(ws) {
            Some(cmd) => Ok(cmd),
            None => Err(tool_usage()),
        }
    } else {
        Err("unknown command: "@ + ws[0])
    }
}

fn parse_tool(parts: &Vec<String>) -> (r: Option<ProtoCmd>)
    ensures
        r == tool_command(contents(parts@)),
{
    let ghost ws = contents(parts@);
    if parts.len() != 4 {
        return None;
    }
    assert(ws[1] == parts@[1]@ && ws[2] == parts@[2]@ && ws[3] == parts@[3]@);
    let on = same_text(parts[3].as_str(), "on");
    if !same_text(parts[1].as_str(), "tool") || !(on || same_text(parts[3].as_str(), "off")) {
        return None;
    }
    match parse_unsigned(parts[2].as_str(), 0xffff_ffff) {
        Some(n) => Some(ProtoCmd::Tool { index: n as u32, on }),
        None => None,
    }
}

/// Parse one protocol line: the command name followed by numbers, separated by
/// white space. `numbers` holds the number that each word of the line stands
/// for, nothing for a word that is no number.
pub fn parse_proto(line: &str, numbers: &Vec<Option<Double>>) -> (r: Result<ProtoCmd, String>)
    requires
        numbers@.len() == words(line@).len(),
    ensures
        match r {
            Ok(cmd) => parsed(words(line@), numbers@) == Ok::<ProtoCmd, Seq<char>>(cmd),
            Err(e) => parsed(words(line@), numbers@) == Err::<ProtoCmd, Seq<char>>(e@),
        },
{
    let parts = split_words(line);
    let ghost ws = words(line@);
    assert(ws.len() == parts@.len());
    if parts.len() == 0 {
        return Err("empty line".to_owned());
    }
    let name = parts[0].as_str();
    assert(ws[0] == name@);
    if same_text(name, "vel") {
        if parts.len() != 7 {
            return Err("vel expects 6 numbers".to_owned());
        }
        match (numbers[1], numbers[2], numbers[3], numbers[4], numbers[5], numbers[6]) {
            (Some(dx), Some(dy), Some(dz), Some(drx), Some(dry), Some(drz)) => Ok(
                ProtoCmd::Vel(dx, dy, dz, drx, dry, drz),
            ),
            _ => {
                assert(numbers@[1] is None || numbers@[2] is None || numbers@[3] is None
                    || numbers@[4] is None || numbers@[5] is None || numbers@[6] is None);
                Err(concat2(name, " expects numeric arguments"))
            },
        }
    } else if same_text(name, "estop-clear") {
        Ok(ProtoCmd::EstopClear)
    } else if same_text(name, "poweron") {
        Ok(ProtoCmd::PowerOn)
    } else if same_text(name, "poweroff") {
        Ok(ProtoCmd::PowerOff)
    } else if same_text(name, "reset") {
        Ok(ProtoCmd::Reset)
    } else if same_text(name, "status") {
        Ok(ProtoCmd::Status)
    } else if same_text(name, "do") {
        assert(contents(parts@) =~= ws);
        match parse_tool(&parts) {
            Some(cmd) => Ok(cmd),
            None => Err("do expects tool, an output number and on or off".to_owned()),
        }
    } else {
        Err(concat2("unknown command: ", name))
    }
}

/// Joints and position as they are shown in a JSON document, each number by its
/// text.
#[derive(Debug)]
pub struct Rendered {
    pub joints: Vec<String>,
    pub head_pos: Vec<String>,
}

/// The reply to a status command: the word and a JSON object, its names in
/// alphabetical order.
pub open spec fn status_line(
    estop: bool,
    powered: bool,
    enabled: bool,
    rendered: Rendered,
) -> Seq<char> {
    "status {\"enabled\":"@ + json_bool(enabled) + ",\"estop\":"@ + json_bool(estop)
        + ",\"head_pos\":"@ + json_array(contents(rendered.head_pos@)) + ",\"joints\":"@
        + json_array(contents(rendered.joints@)) + ",\"powered\":"@ + json_bool(powered) + "}\n"@
}

/// The reply to a status command.
pub fn status_text(estop: bool, powered: bool, enabled: bool, rendered: &Rendered) -> (r: String)
    ensures
        r@ == status_line(estop, powered, enabled, *rendered),
{
    let mut s = concat2("status {\"enabled\":", bool_text(enabled));
    s.append(",\"estop\":");
    s.append(bool_text(estop));
    s.append(",\"head_pos\":");
    s.append(array_text(&rendered.head_pos).as_str());
    s.append(",\"joints\":");
    s.append(array_text(&rendered.joints).as_str());
    s.append(",\"powered\":");
    s.append(bool_text(powered));
    s.append("}\n");
    s
}

// ---------------------------------------------------------------------------
// The simulated robot

/// 0.05, the seconds of one control frame of the simulated robot.
pub const FRAME: u64 = 0x3fa9_9999_9999_999a;

/// Simulated robot state.
#[derive(Clone, Copy, Debug)]
pub struct MockState {
    pub powered: bool,
    pub enabled: bool,
    pub estop: bool,
    /// TCP x y z in mm and rx ry rz in degrees, the home pose at startup.
    pub head: [Double; 6],
    /// Joint angles in degrees, the default pose at startup.
    pub joints: [Double; 6],
}

/// The pose at startup: x -50.1, y -6, z 396.8 in mm, rx 0, ry 90, rz 0 in
/// degrees.
pub open spec fn home_head() -> Seq<Double> {
    seq![
        Double { bits: 0xc049_0ccc_cccc_cccd },
        Double { bits: 0xc018_0000_0000_0000 },
        Double { bits: 0x4078_cccc_cccc_cccd },
        Double { bits: 0 },
        Double { bits: 0x4056_8000_0000_0000 },
        Double { bits: 0 },
    ]
}

/// The joints at startup: 0, 90, -90, 0, -90 and 0 degrees.
pub open spec fn default_joints() -> Seq<Double> {
    seq![
        Double { bits: 0 },
        Double { bits: 0x4056_8000_0000_0000 },
        Double { bits: 0xc056_8000_0000_0000 },
        Double { bits: 0 },
        Double { bits: 0xc056_8000_0000_0000 },
        Double { bits: 0 },
    ]
}

impl MockState {
    /// The pose and the joints are those at startup.
    pub open spec fn at_home(self) -> bool {
        self.head@ == home_head() && self.joints@ == default_joints()
    }

    /// The state at startup.
    pub fn new() -> (r: MockState)
        ensures
            r.at_home(),
            !r.powered,
            !r.enabled,
            !r.estop,
    {
        let zero = Double { bits: 0 };
        let up = Double { bits: 0x4056_8000_0000_0000 };
        let down = Double { bits: 0xc056_8000_0000_0000 };
        let x = Double { bits: 0xc049_0ccc_cccc_cccd };
        let y = Double { bits: 0xc018_0000_0000_0000 };
        let z = Double { bits: 0x4078_cccc_cccc_cccd };
        let r = MockState {
            powered: false,
            enabled: false,
            estop: false,
            head: [x, y, z, zero, up, zero],
            joints: [zero, up, down, zero, down, zero],
        };
        assert(r.head@ =~= home_head());
        assert(r.joints@ =~= default_joints());
        r
    }

    /// Back to the state at startup.
    pub fn reset(&mut self)
        ensures
            final(self).at_home(),
            !final(self).powered,
            !final(self).enabled,
            !final(self).estop,
    {
        *self = MockState::new();
    }

    /// What the state is told as.
    pub open spec fn told(self, rendered: Rendered) -> Seq<char> {
        status_line(self.estop, self.powered, self.enabled, rendered)
    }

    /// The reply to a status command.
    pub fn status_json(&self, rendered: &Rendered) -> (r: String)
        ensures
            r@ == status_line(self.estop, self.powered, self.enabled, *rendered),
            r@ == self.told(*rendered),
    {
        status_text(self.estop, self.powered, self.enabled, rendered)
    }
}

/// The simulated state after a command. `frame` is where the head is one control
/// frame later.
pub open spec fn simulated(
    before: MockState,
    cmd: ProtoCmd,
    frame: [Double; 6],
    after: MockState,
) -> bool {
    match cmd {
        ProtoCmd::Vel(..) => after == (MockState { head: frame, ..before }),
        ProtoCmd::EstopClear => after == (MockState { estop: false, ..before }),
        ProtoCmd::PowerOn => after == (MockState { powered: true, enabled: true, ..before }),
        ProtoCmd::PowerOff => after == (MockState { powered: false, enabled: false, ..before }),
        ProtoCmd::Reset => after.at_home() && after.powered && after.enabled && !after.estop,
        ProtoCmd::Status => after == before,
        ProtoCmd::Tool { .. } => after == before,
    }
}

/// Run one protocol command against the simulated state. `frame` is where the
/// head is one control frame later, and `rendered` shows the joints and the
/// position of the state.
pub fn exec_mock(
    state: &mut MockState,
    cmd: &ProtoCmd,
    frame: &[Double; 6],
    rendered: &Rendered,
) -> (r: Result<String, String>)
    ensures
        r is Ok,
        cmd is Status ==> r->Ok_0@ == status_line(
            old(state).estop,
            old(state).powered,
            old(state).enabled,
            *rendered,
        ),
        cmd is Status ==> r->Ok_0@ == old(state).told(*rendered),
        cmd !is Status ==> r->Ok_0@ == "ok\n"@,
        simulated(*old(state), *cmd, *frame, *final(state)),
        match *cmd {
            ProtoCmd::Vel(..) => *final(state) == (MockState { head: *frame, ..*old(state) }),
            ProtoCmd::EstopClear => *final(state) == (MockState { estop: false, ..*old(state) }),
            ProtoCmd::PowerOn => *final(state) == (MockState {
                powered: true,
                enabled: true,
                ..*old(state)
            }),
            ProtoCmd::PowerOff => *final(state) == (MockState {
                powered: false,
                enabled: false,
                ..*old(state)
            }),
            ProtoCmd::Reset => {
                &&& final(state).at_home()
                &&& final(state).powered
                &&& final(state).enabled
                &&& !final(state).estop
            },
            ProtoCmd::Status => *final(state) == *old(state),
            ProtoCmd::Tool { .. } => *final(state) == *old(state),
        },
{
    match cmd {
        ProtoCmd::Vel(..) => {
            state.head = *frame;
        },
        ProtoCmd::EstopClear => {
            state.estop = false;
        },
        ProtoCmd::PowerOn => {
            state.powered = true;
            state.enabled = true;
        },
        ProtoCmd::PowerOff => {
            state.enabled = false;
            state.powered = false;
        },
        ProtoCmd::Reset => {
            state.reset();
            state.powered = true;
            state.enabled = true;
        },
        ProtoCmd::Status => {
            return Ok(state.status_json(rendered));
        },
        ProtoCmd::Tool { .. } => {},
    }
    Ok("ok\n".to_owned())
}

// ---------------------------------------------------------------------------
// The real robot

/// The robot state is needed to go on with the command.
pub open spec fn asks_state(cmd: ProtoCmd) -> bool {
    cmd is PowerOn || cmd is PowerOff || cmd is Reset
}

/// The axis velocities that a command leads to.
pub open spec fn led_to(cmd: ProtoCmd, last: Seq<Double>) -> Seq<Double> {
    match cmd {
        ProtoCmd::Vel(dx, dy, dz, drx, dry, drz) => safe_velocities(
            seq![dx, dy, dz, drx, dry, drz],
        ),
        ProtoCmd::Status => last,
        ProtoCmd::Tool { .. } => last,
        _ => at_rest(),
    }
}

/// The command leaves the axes as they are: it reads, or it switches a tool
/// output while the arm may be moving.
pub open spec fn keeps_axes(cmd: ProtoCmd) -> bool {
    cmd is Status || cmd is Tool
}

/// The calls with which a command changes the axis velocities. Status and the
/// tool outputs leave them alone, and every other command but a velocity stops
/// the axes.
pub open spec fn settling(cmd: ProtoCmd, last: Seq<Double>) -> Seq<Step> {
    if keeps_axes(cmd) {
        Seq::empty()
    } else {
        jog_steps(last, led_to(cmd, last), 6)
    }
}

/// The calls with which a command goes on, before the robot state is known.
pub open spec fn asking(cmd: ProtoCmd) -> Seq<Step> {
    match cmd {
        ProtoCmd::Vel(..) => Seq::empty(),
        ProtoCmd::EstopClear => estop_clearing(),
        ProtoCmd::Status => seq![Step::ReadState, Step::ReadJoints, Step::ReadTcp],
        ProtoCmd::Tool { index, on } => seq![Step::SetTool { index, on }],
        _ => seq![Step::ReadState],
    }
}

/// The calls that bring the joints to the home pose.
pub open spec fn homing(home: JointValue) -> Seq<Step> {
    seq![
        Step::ReadJoints,
        joint_motion(home, MoveMode::Abs, Double { bits: MAX_JOINT_SPEED }),
        Step::ReadFinalJoints,
    ]
}

/// The calls that follow once the robot state is known, nothing when the
/// command is refused because the e-stop is pressed.
pub open spec fn following(cmd: ProtoCmd, st: RobotState, home: JointValue) -> Option<Seq<Step>> {
    match cmd {
        ProtoCmd::PowerOn => if st.estoped != 0 {
            None
        } else {
            Some(power_up(st))
        },
        ProtoCmd::PowerOff => Some(power_down(st)),
        ProtoCmd::Reset => if st.estoped != 0 {
            None
        } else {
            Some(power_up(st) + homing(home))
        },
        _ => Some(Seq::empty()),
    }
}

/// The message for a command that is refused because the e-stop is pressed.
pub open spec fn pressed_message() -> Seq<char> {
    "E-stop is pressed, release the button first"@
}

/// A call that changes no axis velocity.
pub open spec fn leaves_axes(step: Step) -> bool {
    !(step is Jog || step is StopJog)
}

/// One protocol command under way against the controller.
#[derive(Debug)]
pub struct RealExec {
    pub cmd: ProtoCmd,
    /// The joints of the home pose in radians.
    pub home: JointValue,
    /// The axis velocities before the command, and those it leads to.
    pub last: [Double; 6],
    pub goal: [Double; 6],
    /// How many of the calls change the axis velocities. They come first.
    pub settle: usize,
    pub script: Script,
    /// The robot state, once it was read.
    pub state: RobotState,
}

impl RealExec {
    /// The command is in a state that it can be in.
    pub open spec fn valid(self) -> bool {
        &&& self.script.valid()
        &&& self.settle <= self.script.steps@.len()
        &&& self.goal@ == led_to(self.cmd, self.last@)
        &&& self.script.steps@.take(self.settle as int) == settling(self.cmd, self.last@)
        &&& forall|i: int|
            self.settle <= i < self.script.steps@.len() ==> leaves_axes(#[trigger] self.script.steps@[i])
    }

    /// The axis velocities now: the new ones once all calls that change them
    /// have succeeded.
    pub open spec fn velocities(self) -> Seq<Double> {
        if self.script.next >= self.settle {
            self.goal@
        } else {
            self.last@
        }
    }

    /// Start a command, with the axis velocities before it and the joints of
    /// the home pose in radians.
    pub fn exec_real(cmd: &ProtoCmd, last: &[Double; 6], home: &JointValue) -> (r: RealExec)
        ensures
            r.valid(),
            r.cmd == *cmd,
            r.home == *home,
            r.last == *last,
            r.script.next == 0,
            r.script.steps@ == settling(*cmd, last@) + asking(*cmd),
            r.settle == settling(*cmd, last@).len(),
    {
        let mut goal = *last;
        let mut steps: Vec<Step> = Vec::new();
        match cmd {
            ProtoCmd::Vel(dx, dy, dz, drx, dry, drz) => {
                let v = [*dx, *dy, *dz, *drx, *dry, *drz];
                assert(v@ =~= seq![*dx, *dy, *dz, *drx, *dry, *drz]);
                let plan = jog_axes(last, &v);
                goal = plan.velocities;
                steps = plan.steps;
            },
            ProtoCmd::Status | ProtoCmd::Tool { .. } => {},
            _ => {
                let plan = stop_jog(last);
                goal = plan.velocities;
                steps = plan.steps;
            },
        }
        let settle: usize = steps.len();
        assert(steps@ =~= settling(*cmd, last@));
        match cmd {
            ProtoCmd::Vel(..) => {},
            ProtoCmd::EstopClear => {
                let mut more = estop_clear();
                steps.append(&mut more);
            },
            ProtoCmd::Status => {
                steps.push(Step::ReadState);
                steps.push(Step::ReadJoints);
                steps.push(Step::ReadTcp);
            },
            ProtoCmd::Tool { index, on } => {
                steps.push(Step::SetTool { index: *index, on: *on });
            },
            _ => {
                steps.push(Step::ReadState);
            },
        }
        assert(steps@ =~= settling(*cmd, last@) + asking(*cmd));
        assert(steps@.take(settle as int) =~= settling(*cmd, last@));
        assert forall|i: int| settle <= i < steps@.len() implies leaves_axes(#[trigger] steps@[i]) by {
            assert(steps@[i] == asking(*cmd)[i - settle]);
        }
        RealExec {
            cmd: *cmd,
            home: *home,
            last: *last,
            goal,
            settle,
            script: Script::new(steps),
            state: RobotState { estoped: 0, powered_on: 0, servo_enabled: 0 },
        }
    }

    /// The call to make now, nothing at the end of the command.
    pub fn current(&self) -> (r: Option<Step>)
        requires
            self.valid(),
        ensures
            r == if self.script.todo().len() > 0 {
                Some(self.script.todo()[0])
            } else {
                None
            },
    {
        self.script.current()
    }

    /// The axis velocities now.
    pub fn axis_velocities(&self) -> (r: [Double; 6])
        requires
            self.valid(),
        ensures
            r@ == self.velocities(),
    {
        if self.script.next >= self.settle {
            self.goal
        } else {
            self.last
        }
    }

    /// The velocities of the axes that may move now. While only some of the calls
    /// that change the velocities have succeeded, that is every axis with an old
    /// or a new velocity.
    pub open spec fn may_move(self) -> Seq<Double> {
        Seq::new(
            6,
            |i: int|
                if self.script.next >= self.settle || !self.goal@[i].is_zero() {
                    self.goal@[i]
                } else {
                    self.last@[i]
                },
        )
    }

    /// The velocities of the axes that may move now, to go on with after an
    /// error: whatever the error was, an axis that moves is not forgotten.
    pub fn moving_velocities(&self) -> (r: [Double; 6])
        requires
            self.valid(),
        ensures
            r@ == self.may_move(),
            self.script.next >= self.settle ==> r@ == self.velocities(),
    {
        let settled = self.script.next >= self.settle;
        let mut r = self.goal;
        let mut i: usize = 0;
        while i < 6
            invariant
                i <= 6,
                settled == (self.script.next >= self.settle),
                forall|k: int| 0 <= k < i ==> r@[k] == #[trigger] self.may_move()[k],
                forall|k: int| i <= k < 6 ==> r@[k] == #[trigger] self.goal@[k],
            decreases 6 - i,
        {
            if !settled && self.goal[i].zero() {
                r[i] = self.last[i];
            }
            i = i + 1;
        }
        assert(r@ =~= self.may_move());
        assert(settled ==> r@ =~= self.velocities());
        r
    }

    /// Why the command ends with an error when the call that is made now ends
    /// like this; nothing when it does not.
    pub open spec fn trouble(self, outcome: Outcome, state: RobotState, flag: BOOL) -> Option<
        Seq<char>,
    > {
        let step = self.script.todo()[0];
        if complaint(step.name(), outcome) is Some {
            complaint(step.name(), outcome)
        } else if step is ReadState && following(self.cmd, state, self.home) is None {
            Some(pressed_message())
        } else if step is RecheckEstop && flag != 0 {
            Some(
                "E-stop is still active. Release the physical button first, then run estop-clear again"@,
            )
        } else {
            None
        }
    }

    /// The command after the call that is made now has ended like this.
    pub open spec fn takes(
        self,
        outcome: Outcome,
        state: RobotState,
        flag: BOOL,
        after: RealExec,
    ) -> bool {
        let step = self.script.todo()[0];
        let well = complaint(step.name(), outcome) is None;
        &&& after.cmd == self.cmd
        &&& after.home == self.home
        &&& after.last == self.last
        &&& after.goal == self.goal
        &&& after.settle == self.settle
        &&& after.script.next == self.script.next + if well {
            1int
        } else {
            0int
        }
        &&& after.script.steps@ == if step is ReadState && self.trouble(outcome, state, flag) is None {
            self.script.steps@ + following(self.cmd, state, self.home)->0
        } else {
            self.script.steps@
        }
        &&& after.state == if step is ReadState && well {
            state
        } else {
            self.state
        }
    }

    /// Take how the call ended, with the robot state when that was read and the
    /// e-stop flag when that was. Once the robot state is known, the calls that
    /// bring the robot to power or off it, and home, follow.
    pub fn record(&mut self, outcome: &Outcome, state: &RobotState, flag: BOOL) -> (r: Result<
        (),
        String,
    >)
        requires
            old(self).valid(),
            old(self).script.todo().len() > 0,
        ensures
            final(self).valid(),
            final(self).cmd == old(self).cmd,
            final(self).home == old(self).home,
            final(self).last == old(self).last,
            final(self).goal == old(self).goal,
            final(self).settle == old(self).settle,
            r is Ok <==> old(self).trouble(*outcome, *state, flag) is None,
            r matches Err(e) ==> Some(e@) == old(self).trouble(*outcome, *state, flag),
            final(self).script.next == old(self).script.next + if complaint(
                old(self).script.todo()[0].name(),
                *outcome,
            ) is None {
                1int
            } else {
                0int
            },
            r is Ok ==> ({
                let before = old(self).script;
                let more = if before.todo()[0] is ReadState {
                    following(old(self).cmd, *state, old(self).home)->0
                } else {
                    Seq::<Step>::empty()
                };
                final(self).script.steps@ == before.steps@ + more
            }),
            r is Err ==> final(self).script.steps == old(self).script.steps,
            final(self).state == if old(self).script.todo()[0] is ReadState && complaint(
                old(self).script.todo()[0].name(),
                *outcome,
            ) is None {
                *state
            } else {
                old(self).state
            },
            old(self).takes(*outcome, *state, flag, *final(self)),
    {
        let step = self.script.steps[self.script.next];
        self.script.record(outcome)?;
        match step {
            Step::ReadState => {
                self.state = *state;
                match self.cmd {
                    ProtoCmd::PowerOn | ProtoCmd::Reset => {
                        if state.estoped != 0 {
                            return Err("E-stop is pressed, release the button first".to_owned());
                        }
                        let mut more = ensure_powered_enabled(state);
                        if let ProtoCmd::Reset = self.cmd {
                            more.push(Step::ReadJoints);
                            more.push(
                                Step::joint_move(
                                    &self.home,
                                    MoveMode::Abs,
                                    Double { bits: MAX_JOINT_SPEED },
                                ),
                            );
                            more.push(Step::ReadFinalJoints);
                        }
                        assert(Some(more@) =~= following(self.cmd, *state, self.home));
                        self.script.steps.append(&mut more);
                    },
                    ProtoCmd::PowerOff => {
                        let mut more = power_off(state);
                        self.script.steps.append(&mut more);
                    },
                    _ => {},
                }
            },
            Step::RecheckEstop => {
                estop_verdict(flag)?;
            },
            _ => {},
        }
        assert(self.script.steps@.take(self.settle as int) =~= old(self).script.steps@.take(
            self.settle as int,
        ));
        Ok(())
    }

    /// The reply once all calls have succeeded.
    pub open spec fn answer(self, rendered: Rendered) -> Seq<char> {
        if self.cmd is Status {
            status_line(
                self.state.estoped != 0,
                self.state.powered_on != 0,
                self.state.servo_enabled != 0,
                rendered,
            )
        } else {
            "ok\n"@
        }
    }

    /// The reply once all calls have succeeded. `rendered` shows the joints and
    /// the position that were read.
    pub fn reply(&self, rendered: &Rendered) -> (r: String)
        requires
            self.valid(),
            self.script.todo().len() == 0,
        ensures
            r@ == if self.cmd is Status {
                status_line(
                    self.state.estoped != 0,
                    self.state.powered_on != 0,
                    self.state.servo_enabled != 0,
                    *rendered,
                )
            } else {
                "ok\n"@
            },
            r@ == self.answer(*rendered),
    {
        match self.cmd {
            ProtoCmd::Status => status_text(
                self.state.estoped != 0,
                self.state.powered_on != 0,
                self.state.servo_enabled != 0,
                rendered,
            ),
            _ => "ok\n".to_owned(),
        }
    }
}

/// Before a command that is neither a velocity nor one that keeps the axes as
/// they are does anything else, no axis moves any more, and none moves when it ends.
pub proof fn axes_stop_first(e: RealExec, moving: Seq<bool>)
    requires
        e.valid(),
        !(e.cmd is Vel || keeps_axes(e.cmd)),
        covers(e.last@, moving),
    ensures
        forall|i: int|
            0 <= i < e.settle ==> !leaves_axes(#[trigger] e.script.steps@[i]),
        forall|k: int, i: int|
            e.settle <= k <= e.script.steps@.len() && 0 <= i < 6 ==> !#[trigger] moving_after(
                moving,
                e.script.steps@.take(k),
            )[i],
{
    stop_leaves_at_rest(moving, e.last@);
    let steps = e.script.steps@;
    lemma_jog_steps_only(e.last@, at_rest(), 6);
    assert forall|i: int| 0 <= i < e.settle implies !leaves_axes(#[trigger] steps[i]) by {
        assert(steps[i] == steps.take(e.settle as int)[i]);
    }
    assert forall|k: int, i: int| e.settle <= k <= steps.len() && 0 <= i < 6 implies !#[trigger] moving_after(
        moving,
        steps.take(k),
    )[i] by {
        lemma_others_leave_axes(moving, steps, e.settle as int, k);
    }
}

proof fn lemma_jog_steps_only(last: Seq<Double>, v: Seq<Double>, n: int)
    ensures
        forall|i: int|
            0 <= i < jog_steps(last, v, n).len() ==> !leaves_axes(
                #[trigger] jog_steps(last, v, n)[i],
            ),
    decreases n,
{
    if n > 0 {
        lemma_jog_steps_only(last, v, n - 1);
        let before = jog_steps(last, v, n - 1);
        let all = jog_steps(last, v, n);
        assert forall|i: int| 0 <= i < all.len() implies !leaves_axes(#[trigger] all[i]) by {
            if i < before.len() {
                assert(all[i] == before[i]);
            }
        }
    }
}

proof fn lemma_others_leave_axes(moving: Seq<bool>, steps: Seq<Step>, from: int, upto: int)
    requires
        0 <= from <= upto <= steps.len(),
        forall|i: int| from <= i < upto ==> leaves_axes(#[trigger] steps[i]),
    ensures
        moving_after(moving, steps.take(upto)) == moving_after(moving, steps.take(from)),
    decreases upto - from,
{
    if from < upto {
        lemma_others_leave_axes(moving, steps, from, upto - 1);
        assert(steps.take(upto).drop_last() =~= steps.take(upto - 1));
        assert(leaves_axes(steps[upto - 1]));
    }
}

/// No moving axis is forgotten, whichever calls of a command have succeeded and
/// even when the call under way did its work before it failed: every axis that
/// moves is among those that may move, if that was so before the command.
pub proof fn no_moving_axis_is_forgotten(e: RealExec, moving: Seq<bool>, k: int)
    requires
        e.valid(),
        covers(e.last@, moving),
        e.script.next <= k <= e.script.next + 1,
        k <= e.script.steps@.len(),
    ensures
        covers(e.may_move(), moving_after(moving, e.script.steps@.take(k))),
{
    let steps = e.script.steps@;
    let settling_steps = settling(e.cmd, e.last@);
    if e.script.next >= e.settle {
        lemma_others_leave_axes(moving, steps, e.settle as int, k);
        if !keeps_axes(e.cmd) {
            jog_reaches_velocities(moving, e.last@, led_to(e.cmd, e.last@));
        }
        assert(e.may_move() =~= e.goal@);
    } else {
        moving_axes_are_known(moving, e.last@, e.goal@, k);
        assert(steps.take(k) =~= settling_steps.take(k)) by {
            assert(steps.take(e.settle as int).take(k) =~= steps.take(k));
        }
    }
}

/// The remembered velocities say which axes move: after the calls that have
/// succeeded, an axis moves exactly when its remembered velocity is not zero,
/// unless only some of the calls that change the velocities have succeeded.
pub proof fn velocities_are_remembered(e: RealExec, moving: Seq<bool>)
    requires
        e.valid(),
        e.script.next == 0 || e.script.next >= e.settle,
        moving_as(moving, e.last@),
    ensures
        moving_as(
            moving_after(moving, e.script.steps@.take(e.script.next as int)),
            e.velocities(),
        ),
{
    if e.script.next >= e.settle {
        lemma_others_leave_axes(
            moving,
            e.script.steps@,
            e.settle as int,
            e.script.next as int,
        );
        if !keeps_axes(e.cmd) {
            jog_reaches_velocities(moving, e.last@, led_to(e.cmd, e.last@));
        }
    }
}

/// While the e-stop is pressed, no protocol command that asks for the robot
/// state goes on to bring the robot to power or to move it.
pub proof fn estop_blocks_protocol(cmd: ProtoCmd, st: RobotState, home: JointValue)
    requires
        asks_state(cmd),
        st.estoped != 0,
    ensures
        cmd is PowerOn || cmd is Reset ==> following(cmd, st, home) is None,
        following(cmd, st, home) matches Some(steps) ==> forall|i: int|
            0 <= i < steps.len() ==> !energizes(#[trigger] steps[i]),
{
}

/// A reset brings the robot to power before it moves.
pub proof fn reset_moves_at_power(st: RobotState, home: JointValue)
    requires
        st.estoped == 0,
    ensures
        following(ProtoCmd::Reset, st, home) == Some(power_up(st) + homing(home)),
        power_after(st.powered_on != 0, st.servo_enabled != 0, power_up(st)) == (true, true),
        forall|i: int| 0 <= i < power_up(st).len() ==> !(#[trigger] power_up(st)[i] is JointMove),
{
    power_steps_reach_state(st);
}

// ---------------------------------------------------------------------------
// Clients

/// Something that happens on the connection of a client.
#[derive(Debug)]
pub enum ClientEvent {
    /// A line came in.
    Line { line: String },
    /// The client closed the connection.
    Closed,
    /// Reading failed.
    ReadFailed { reason: String },
    /// Writing a reply failed.
    WriteFailed { reason: String },
}

/// What to do about it.
#[derive(Debug)]
pub enum ClientAction {
    /// Wait for the next line.
    Wait,
    /// Run this command and write its reply.
    Run { line: String },
    /// Make these calls, whatever comes of each, and end.
    Stop { stops: Vec<Step> },
    /// Make these calls, whatever comes of each, and end with this error.
    Fail { stops: Vec<Step>, message: String },
}

/// The calls with which the connection of a client ends: with a robot, every
/// axis with a velocity is stopped.
pub open spec fn parting_stops(last: Seq<Double>, robot: bool) -> Seq<Step> {
    if robot {
        jog_steps(last, at_rest(), 6)
    } else {
        Seq::empty()
    }
}

fn parting(last: &[Double; 6], robot: bool) -> (r: Vec<Step>)
    ensures
        r@ == parting_stops(last@, robot),
{
    if robot {
        stop_jog(last).steps
    } else {
        Vec::new()
    }
}

/// `action` is what to do about something that happens on the connection of a
/// client.
pub open spec fn fits(
    event: ClientEvent,
    last: Seq<Double>,
    robot: bool,
    action: ClientAction,
) -> bool {
    match event {
        ClientEvent::Line { line } => if trimmed(line@).len() == 0 {
            action is Wait
        } else {
            action matches ClientAction::Run { line: run } && run@ == trimmed(line@)
        },
        ClientEvent::Closed => action matches ClientAction::Stop { stops } && stops@
            == parting_stops(last, robot),
        ClientEvent::ReadFailed { reason } => action matches ClientAction::Fail { stops, message }
            && stops@ == parting_stops(last, robot) && message@ == "Read line failed: "@ + reason@,
        ClientEvent::WriteFailed { reason } => action matches ClientAction::Fail { stops, message }
            && stops@ == parting_stops(last, robot) && message@ == "Write reply failed: "@ + reason@,
    }
}

/// What to do about something that happens on the connection of a client. Blank
/// lines are skipped, and a line is run without the white space around it.
/// However the connection ends, every axis of a robot that has a velocity in
/// `last` is stopped for safety. `last` holds the axis velocities of the last
/// command, and after one that failed those of the axes that may move.
pub fn handle_client(event: &ClientEvent, last: &[Double; 6], robot: bool) -> (r: ClientAction)
    ensures
        fits(*event, last@, robot, r),
        match *event {
            ClientEvent::Line { line } => if trimmed(line@).len() == 0 {
                r is Wait
            } else {
                r matches ClientAction::Run { line: run } && run@ == trimmed(line@)
            },
            ClientEvent::Closed => r matches ClientAction::Stop { stops } && stops@
                == parting_stops(last@, robot),
            ClientEvent::ReadFailed { reason } => r matches ClientAction::Fail { stops, message }
                && stops@ == parting_stops(last@, robot) && message@ == "Read line failed: "@
                + reason@,
            ClientEvent::WriteFailed { reason } => r matches ClientAction::Fail { stops, message }
                && stops@ == parting_stops(last@, robot) && message@ == "Write reply failed: "@
                + reason@,
        },
{
    match event {
        ClientEvent::Line { line } => {
            let run = trim(line.as_str());
            if run.as_str().is_empty() {
                ClientAction::Wait
            } else {
                ClientAction::Run { line: run }
            }
        },
        ClientEvent::Closed => ClientAction::Stop { stops: parting(last, robot) },
        ClientEvent::ReadFailed { reason } => ClientAction::Fail {
            stops: parting(last, robot),
            message: concat2("Read line failed: ", reason.as_str()),
        },
        ClientEvent::WriteFailed { reason } => ClientAction::Fail {
            stops: parting(last, robot),
            message: concat2("Write reply failed: ", reason.as_str()),
        },
    }
}

/// When the connection of a client ends and the calls for that succeed, no axis
/// of the robot moves any more, as long as every axis that moves has a velocity
/// in `last`. Going on after an error with the axes that may move keeps that so.
pub proof fn parting_leaves_at_rest(last: Seq<Double>, moving: Seq<bool>)
    requires
        covers(last, moving),
    ensures
        forall|i: int|
            0 <= i < 6 ==> !#[trigger] moving_after(moving, parting_stops(last, true))[i],
{
    stop_leaves_at_rest(moving, last);
}

/// The reply line for a command that ended like this.
pub open spec fn reply_line(result: Result<Seq<char>, Seq<char>>) -> Seq<char> {
    match result {
        Ok(reply) => reply,
        Err(e) => "err "@ + e + "\n"@,
    }
}

/// The reply line for a command: what it replied, or its error.
pub fn handle_proto(result: Result<String, String>) -> (r: String)
    ensures
        r@ == reply_line(
            match result {
                Ok(reply) => Ok(reply@),
                Err(e) => Err(e@),
            },
        ),
{
    match result {
        Ok(reply) => reply,
        Err(e) => concat3("err ", e.as_str(), "\n"),
    }
}

/// Something that happens to the server.
#[derive(Clone, Copy, Debug, PartialEq, Eq, Structural)]
pub enum ServeEvent {
    /// The user interrupted it.
    Interrupted,
    /// A client connected.
    Accepted,
    /// A client could not connect.
    AcceptFailed,
}

/// What to do about it.
#[derive(Clone, Copy, Debug, PartialEq, Eq, Structural)]
pub enum ServeAction {
    /// Abort all motions first, when there is a robot, then end all clients and
    /// the server.
    Shutdown { abort_motions: bool },
    /// Serve the client on a task of its own.
    Spawn,
    /// Say that it failed and go on.
    Warn,
}

/// What to do about something that happens to the server.
pub open spec fn served(event: ServeEvent, robot: bool) -> ServeAction {
    match event {
        ServeEvent::Interrupted => ServeAction::Shutdown { abort_motions: robot },
        ServeEvent::Accepted => ServeAction::Spawn,
        ServeEvent::AcceptFailed => ServeAction::Warn,
    }
}

/// What to do about something that happens to the server.
pub fn serve(event: ServeEvent, robot: bool) -> (r: ServeAction)
    ensures
        r == match event {
            ServeEvent::Interrupted => ServeAction::Shutdown { abort_motions: robot },
            ServeEvent::Accepted => ServeAction::Spawn,
            ServeEvent::AcceptFailed => ServeAction::Warn,
        },
        r == served(event, robot),
{
    match event {
        ServeEvent::Interrupted => ServeAction::Shutdown { abort_motions: robot },
        ServeEvent::Accepted => ServeAction::Spawn,
        ServeEvent::AcceptFailed => ServeAction::Warn,
    }
}

/// The message for a port that could not be bound.
pub fn bind_failure(port: u16, reason: &str) -> (r: String)
    ensures
        r@ == "Bind port "@ + decimal(port as nat) + " failed: "@ + reason@,
{
    let mut s = concat3("Bind port ", decimal_text(port as u64).as_str(), " failed: ");
    s.append(reason);
    s
}

/// A line break stands at the end of `s` and nowhere else in it.
pub open spec fn is_one_line(s: Seq<char>) -> bool {
    &&& s.len() > 0
    &&& s.last() == '\n'
    &&& unbroken(s.drop_last())
}

/// A line that is no command is answered with one line, whatever it holds.
pub proof fn parse_error_is_one_line(line: Seq<char>, numbers: Seq<Option<Double>>)
    requires
        numbers.len() == words(line).len(),
        parsed(words(line), numbers) is Err,
    ensures
        is_one_line(
            reply_line(Err::<Seq<char>, Seq<char>>(parsed(words(line), numbers)->Err_0)),
        ),
{
    reveal_strlit("err ");
    reveal_strlit("\n");
    reveal_strlit("empty line");
    reveal_strlit("vel expects 6 numbers");
    reveal_strlit(" expects numeric arguments");
    reveal_strlit("unknown command: ");
    reveal_strlit("do expects tool, an output number and on or off");
    let ws = words(line);
    let e = parsed(ws, numbers)->Err_0;
    lemma_words_hold_no_space(line);
    assert forall|i: int| 0 <= i < e.len() implies #[trigger] e[i] != '\n' by {
        if ws.len() > 0 {
            let w = ws[0];
            if 0 <= i < w.len() {
                assert(!is_space(w[i]));
            }
            if 17 <= i < 17 + w.len() {
                assert(!is_space(w[i - 17]));
            }
        }
    }
}

/// A status reply is one line, as long as no number is shown with a line break.
pub proof fn status_reply_is_one_line(
    estop: bool,
    powered: bool,
    enabled: bool,
    rendered: Rendered,
)
    requires
        forall|i: int| 0 <= i < rendered.joints@.len() ==> unbroken(#[trigger] rendered.joints@[i]@),
        forall|i: int|
            0 <= i < rendered.head_pos@.len() ==> unbroken(#[trigger] rendered.head_pos@[i]@),
    ensures
        is_one_line(status_line(estop, powered, enabled, rendered)),
{
    reveal_strlit("status {\"enabled\":");
    reveal_strlit(",\"estop\":");
    reveal_strlit(",\"head_pos\":");
    reveal_strlit(",\"joints\":");
    reveal_strlit(",\"powered\":");
    reveal_strlit("}\n");
    reveal_strlit("true");
    reveal_strlit("false");
    reveal_strlit("[");
    reveal_strlit(",");
    reveal_strlit("]");
    joined_stays_unbroken(contents(rendered.head_pos@), ","@);
    joined_stays_unbroken(contents(rendered.joints@), ","@);
    let a = "status {\"enabled\":"@ + json_bool(enabled) + ",\"estop\":"@ + json_bool(estop);
    assert(unbroken(a));
    let b = a + ",\"head_pos\":"@ + json_array(contents(rendered.head_pos@));
    assert(unbroken(b));
    let c = b + ",\"joints\":"@ + json_array(contents(rendered.joints@));
    assert(unbroken(c));
    let d = c + ",\"powered\":"@ + json_bool(powered);
    assert(unbroken(d));
    let line = status_line(estop, powered, enabled, rendered);
    assert(line =~= d + "}\n"@);
    assert(line.drop_last() =~= d.push('}'));
}

/// A command that ends with an error is answered with one line, whichever of its
/// calls failed, unless the report of a task that panicked holds a line break.
pub proof fn command_error_is_one_line(
    e: RealExec,
    outcome: Outcome,
    state: RobotState,
    flag: BOOL,
)
    requires
        e.trouble(outcome, state, flag) is Some,
        outcome matches Outcome::Panicked { report } ==> unbroken(report@),
    ensures
        is_one_line(
            reply_line(Err::<Seq<char>, Seq<char>>(e.trouble(outcome, state, flag)->0)),
        ),
{
    reveal_strlit("err ");
    reveal_strlit("\n");
    reveal_strlit("Motion task panicked: ");
    reveal_strlit("E-stop is pressed, release the button first");
    reveal_strlit(
        "E-stop is still active. Release the physical button first, then run estop-clear again",
    );
    let step = e.script.todo()[0];
    name_is_unbroken(step);
    if let Outcome::Returned { code } = outcome {
        failure_is_unbroken(step.name(), code as int);
    }
    let message = e.trouble(outcome, state, flag)->0;
    assert(unbroken(message));
    let line = "err "@ + message + "\n"@;
    assert(line.drop_last() =~= "err "@ + message);
}

// ---------------------------------------------------------------------------
// What a command means

/// A velocity line gives the six axes their numbers in the order of the line.
pub proof fn velocity_line_is_read(ws: Seq<Seq<char>>, numbers: Seq<Option<Double>>)
    requires
        ws.len() == 7,
        ws[0] == "vel"@,
        numbers.len() == 7,
    ensures
        (forall|i: int| 1 <= i < 7 ==> #[trigger] numbers[i] is Some) ==> (parsed(
            ws,
            numbers,
        ) matches Ok(ProtoCmd::Vel(dx, dy, dz, drx, dry, drz)) && {
            &&& numbers[1] == Some(dx)
            &&& numbers[2] == Some(dy)
            &&& numbers[3] == Some(dz)
            &&& numbers[4] == Some(drx)
            &&& numbers[5] == Some(dry)
            &&& numbers[6] == Some(drz)
        }),
        !(forall|i: int| 1 <= i < 7 ==> #[trigger] numbers[i] is Some) ==> parsed(ws, numbers)
            is Err,
{
}

/// A tool line names the output that it switches, and how.
pub proof fn tool_line_is_read(index: u32, on: bool, numbers: Seq<Option<Double>>)
    ensures
        ({
            let state = if on {
                "on"@
            } else {
                "off"@
            };
            parsed(seq!["do"@, "tool"@, decimal(index as nat), state], numbers) == Ok::<
                ProtoCmd,
                Seq<char>,
            >(ProtoCmd::Tool { index, on })
        }),
{
    reveal_strlit("do");
    reveal_strlit("vel");
    reveal_strlit("estop-clear");
    reveal_strlit("poweron");
    reveal_strlit("poweroff");
    reveal_strlit("reset");
    reveal_strlit("status");
    reveal_strlit("on");
    reveal_strlit("off");
    decimal_reads_back(index as nat);
    let state = if on {
        "on"@
    } else {
        "off"@
    };
    let ws = seq!["do"@, "tool"@, decimal(index as nat), state];
    assert(ws.len() == 4 && ws[0] == "do"@ && ws[1] == "tool"@ && ws[3] == state);
    assert(ws[2] == decimal(index as nat));
    assert("on"@.len() == 2 && "off"@.len() == 3 && "do"@.len() == 2 && "vel"@.len() == 3);
    assert("estop-clear"@.len() == 11 && "poweron"@.len() == 7 && "poweroff"@.len() == 8);
    assert("reset"@.len() == 5 && "status"@.len() == 6);
}

/// Each of the other commands is known by its name, whatever follows it.
pub proof fn command_names_are_read(ws: Seq<Seq<char>>, numbers: Seq<Option<Double>>)
    requires
        ws.len() > 0,
    ensures
        ws[0] == "estop-clear"@ ==> (parsed(ws, numbers) matches Ok(cmd) && cmd is EstopClear),
        ws[0] == "poweron"@ ==> (parsed(ws, numbers) matches Ok(cmd) && cmd is PowerOn),
        ws[0] == "poweroff"@ ==> (parsed(ws, numbers) matches Ok(cmd) && cmd is PowerOff),
        ws[0] == "reset"@ ==> (parsed(ws, numbers) matches Ok(cmd) && cmd is Reset),
        ws[0] == "status"@ ==> (parsed(ws, numbers) matches Ok(cmd) && cmd is Status),
{
    reveal_strlit("vel");
    reveal_strlit("estop-clear");
    reveal_strlit("poweron");
    reveal_strlit("poweroff");
    reveal_strlit("reset");
    reveal_strlit("status");
    assert("vel"@.len() == 3 && "estop-clear"@.len() == 11 && "poweron"@.len() == 7);
    assert("poweroff"@.len() == 8 && "reset"@.len() == 5 && "status"@.len() == 6);
}

/// A status line holds each of its values under its own name.
pub proof fn status_line_names_its_values(
    estop: bool,
    powered: bool,
    enabled: bool,
    rendered: Rendered,
)
    ensures
        ({
            let start = if enabled && estop {
                "status {\"enabled\":true,\"estop\":true,"@
            } else if enabled {
                "status {\"enabled\":true,\"estop\":false,"@
            } else if estop {
                "status {\"enabled\":false,\"estop\":true,"@
            } else {
                "status {\"enabled\":false,\"estop\":false,"@
            };
            let end = if powered {
                "],\"powered\":true}\n"@
            } else {
                "],\"powered\":false}\n"@
            };
            status_line(estop, powered, enabled, rendered) == start + "\"head_pos\":["@ + joined(
                contents(rendered.head_pos@),
                ","@,
            ) + "],\"joints\":["@ + joined(contents(rendered.joints@), ","@) + end
        }),
{
    reveal_strlit("status {\"enabled\":");
    reveal_strlit(",\"estop\":");
    reveal_strlit(",\"head_pos\":");
    reveal_strlit(",\"joints\":");
    reveal_strlit(",\"powered\":");
    reveal_strlit("}\n");
    reveal_strlit("true");
    reveal_strlit("false");
    reveal_strlit("[");
    reveal_strlit("]");
    reveal_strlit("status {\"enabled\":true,\"estop\":true,");
    reveal_strlit("status {\"enabled\":true,\"estop\":false,");
    reveal_strlit("status {\"enabled\":false,\"estop\":true,");
    reveal_strlit("status {\"enabled\":false,\"estop\":false,");
    reveal_strlit("],\"powered\":true}\n");
    reveal_strlit("],\"powered\":false}\n");
    reveal_strlit("\"head_pos\":[");
    reveal_strlit("],\"joints\":[");
    let start = if enabled && estop {
        "status {\"enabled\":true,\"estop\":true,"@
    } else if enabled {
        "status {\"enabled\":true,\"estop\":false,"@
    } else if estop {
        "status {\"enabled\":false,\"estop\":true,"@
    } else {
        "status {\"enabled\":false,\"estop\":false,"@
    };
    let end = if powered {
        "],\"powered\":true}\n"@
    } else {
        "],\"powered\":false}\n"@
    };
    let position = joined(contents(rendered.head_pos@), ","@);
    let joints = joined(contents(rendered.joints@), ","@);
    let a = "status {\"enabled\":"@ + json_bool(enabled) + ",\"estop\":"@ + json_bool(estop);
    assert(a + ",\"head_pos\":"@ + "["@ =~= start + "\"head_pos\":["@);
    let z = "]"@ + ",\"powered\":"@ + json_bool(powered) + "}\n"@;
    assert(z =~= end);
    assert("]"@ + ",\"joints\":"@ + "["@ =~= "],\"joints\":["@);
    let line = status_line(estop, powered, enabled, rendered);
    assert(line =~= (a + ",\"head_pos\":"@ + "["@) + position + ("]"@ + ",\"joints\":"@ + "["@)
        + joints + z);
}

/// The reply of the robot tells its e-stop, its power and its servos, each as it
/// was read; any other command is answered with ok.
pub proof fn replies_tell_the_state(e: RealExec, m: MockState, rendered: Rendered)
    ensures
        e.cmd is Status ==> e.answer(rendered) == status_line(
            e.state.estoped != 0,
            e.state.powered_on != 0,
            e.state.servo_enabled != 0,
            rendered,
        ),
        e.cmd !is Status ==> e.answer(rendered) == "ok\n"@,
        m.told(rendered) == status_line(m.estop, m.powered, m.enabled, rendered),
{
}

/// Of the simulated robot, power and servos go with the commands for them, the
/// e-stop is only ever released, the head moves with a velocity and goes home
/// with a reset, and the joints change with a reset alone.
pub proof fn simulation_follows_commands(
    before: MockState,
    cmd: ProtoCmd,
    frame: [Double; 6],
    after: MockState,
)
    requires
        simulated(before, cmd, frame, after),
    ensures
        after.powered == if cmd is PowerOn || cmd is Reset {
            true
        } else if cmd is PowerOff {
            false
        } else {
            before.powered
        },
        after.enabled == if cmd is PowerOn || cmd is Reset {
            true
        } else if cmd is PowerOff {
            false
        } else {
            before.enabled
        },
        after.estop == if cmd is EstopClear || cmd is Reset {
            false
        } else {
            before.estop
        },
        cmd is Vel ==> after.head == frame,
        cmd !is Vel && cmd !is Reset ==> after.head == before.head,
        cmd !is Reset ==> after.joints == before.joints,
        cmd is Reset ==> after.head@ == home_head() && after.joints@ == default_joints(),
{
}

/// The joints at startup are bent by a right angle in three places, and the head
/// looks down from there.
pub proof fn startup_pose_is_exact()
    ensures
        default_joints().len() == 6,
        default_joints()[0].units() == 0,
        default_joints()[1].units() == whole(90),
        default_joints()[2].units() == -whole(90),
        default_joints()[3].units() == 0,
        default_joints()[4].units() == -whole(90),
        default_joints()[5].units() == 0,
        home_head().len() == 6,
        home_head()[1].units() == -whole(6),
        home_head()[3].units() == 0,
        home_head()[4].units() == whole(90),
        home_head()[5].units() == 0,
{
    vstd::arithmetic::power2::lemma2_to64();
    vstd::arithmetic::power2::lemma2_to64_rest();
    lemma_whole_pattern(0x4056_8000_0000_0000, 90);
    lemma_whole_pattern(0x4018_0000_0000_0000, 6);
}

/// A velocity within its limit is taken as it is, a larger one is cut to the
/// limit in its own direction.
pub open spec fn taken_up_to(asked: Double, v: Double, limit: int) -> bool {
    if asked.is_nan() {
        v == asked
    } else if asked.units() > limit {
        v.units() == limit
    } else if asked.units() < -limit {
        v.units() == -limit
    } else {
        v == asked
    }
}

/// A velocity command leads each axis to the velocity that it gives for that
/// axis, translations up to 100 mm/s and rotations up to 30 deg/s.
pub proof fn velocity_command_reaches_its_axes(
    dx: Double,
    dy: Double,
    dz: Double,
    drx: Double,
    dry: Double,
    drz: Double,
    last: Seq<Double>,
)
    ensures
        ({
            let v = led_to(ProtoCmd::Vel(dx, dy, dz, drx, dry, drz), last);
            &&& v.len() == 6
            &&& taken_up_to(dx, v[0], whole(100))
            &&& taken_up_to(dy, v[1], whole(100))
            &&& taken_up_to(dz, v[2], whole(100))
            &&& taken_up_to(drx, v[3], whole(30))
            &&& taken_up_to(dry, v[4], whole(30))
            &&& taken_up_to(drz, v[5], whole(30))
        }),
{
    let v = seq![dx, dy, dz, drx, dry, drz];
    assert(v.len() == 6);
    assert(v[0] == dx && v[1] == dy && v[2] == dz && v[3] == drx && v[4] == dry && v[5] == drz);
    safe_velocities_keep_direction(v, 0);
    safe_velocities_keep_direction(v, 1);
    safe_velocities_keep_direction(v, 2);
    safe_velocities_keep_direction(v, 3);
    safe_velocities_keep_direction(v, 4);
    safe_velocities_keep_direction(v, 5);
}

/// Reading the status and switching a tool output leave the velocities as they
/// are; every other command but a velocity leads to rest.
pub proof fn other_commands_keep_or_rest(cmd: ProtoCmd, last: Seq<Double>, i: int)
    requires
        cmd !is Vel,
        0 <= i < 6,
    ensures
        cmd is Status || cmd is Tool ==> led_to(cmd, last) == last && settling(cmd, last).len()
            == 0,
        cmd is EstopClear || cmd is PowerOn || cmd is PowerOff || cmd is Reset ==> led_to(
            cmd,
            last,
        ).len() == 6 && led_to(cmd, last)[i].bits == 0,
{
    at_rest_is_zero(i);
}

/// What each command asks of the controller before it knows the robot state.
pub proof fn commands_ask_in_order(cmd: ProtoCmd)
    ensures
        cmd is Vel ==> asking(cmd).len() == 0,
        cmd is EstopClear ==> asking(cmd).len() == 3 && asking(cmd)[0] is CheckEstop && asking(
            cmd,
        )[1] is ClearError && asking(cmd)[2] is RecheckEstop,
        cmd is Status ==> asking(cmd).len() == 3 && asking(cmd)[0] is ReadState && asking(
            cmd,
        )[1] is ReadJoints && asking(cmd)[2] is ReadTcp,
        cmd matches ProtoCmd::Tool { index, on } ==> asking(cmd).len() == 1 && asking(cmd)[0] == (
        Step::SetTool { index, on }),
        cmd is PowerOn || cmd is PowerOff || cmd is Reset ==> asking(cmd).len() == 1 && asking(
            cmd,
        )[0] is ReadState,
{
    power_calls_are_ordered(RobotState { estoped: 0, powered_on: 0, servo_enabled: 0 });
}

/// Once the robot state is known, power-on and reset bring the robot to power and
/// power-off takes it off, from whatever it was. A reset ends at home: one
/// blocking motion of the joints to the home pose itself, at 1 rad/s^2 and
/// without a tolerance, with the joints read before and after it. No other
/// command moves the arm.
pub proof fn commands_go_on_from_the_state(st: RobotState, home: JointValue, cmd: ProtoCmd, i: int)
    requires
        st.estoped == 0,
    ensures
        following(ProtoCmd::PowerOn, st, home) matches Some(steps) && power_after(
            st.powered_on != 0,
            st.servo_enabled != 0,
            steps,
        ) == (true, true),
        following(ProtoCmd::PowerOff, st, home) matches Some(steps) && power_after(
            st.powered_on != 0,
            st.servo_enabled != 0,
            steps,
        ) == (false, false),
        following(ProtoCmd::Reset, st, home) matches Some(steps) && {
            let n = steps.len() as int;
            &&& n >= 3
            &&& power_after(st.powered_on != 0, st.servo_enabled != 0, steps.take(n - 3)) == (
                true,
                true,
            )
            &&& steps[n - 3] is ReadJoints
            &&& steps[n - 2] matches Step::JointMove { target, mode, speed, acc, tol, block } && {
                &&& target == home
                &&& mode is Abs
                &&& speed.bits == MAX_JOINT_SPEED
                &&& acc.units() == whole(1)
                &&& tol.units() == 0
                &&& block
            }
            &&& steps[n - 1] is ReadFinalJoints
        },
        cmd !is Reset ==> (following(cmd, st, home) matches Some(steps) && (0 <= i < steps.len()
            ==> !(steps[i] is JointMove || steps[i] is Jog))),
        cmd is Vel || cmd is Status || cmd is Tool || cmd is EstopClear ==> following(
            cmd,
            st,
            home,
        )->0.len() == 0,
{
    vstd::arithmetic::power2::lemma2_to64();
    vstd::arithmetic::power2::lemma2_to64_rest();
    lemma_whole_pattern(0x3ff0_0000_0000_0000, 1);
    power_steps_reach_state(st);
    let steps = power_up(st) + homing(home);
    assert(steps.take(steps.len() - 3) =~= power_up(st));
}

/// A command ends with an error exactly when a call fails, when the e-stop is
/// pressed and the command would bring the robot to power, or when the e-stop is
/// still active after it was to be cleared.
pub proof fn commands_end_early_for_a_reason(
    e: RealExec,
    outcome: Outcome,
    state: RobotState,
    flag: BOOL,
)
    requires
        e.script.todo().len() > 0,
    ensures
        ({
            let step = e.script.todo()[0];
            let failed = outcome is Panicked || (outcome matches Outcome::Returned { code } && code
                != 0);
            let refused = step is ReadState && state.estoped != 0 && (e.cmd is PowerOn
                || e.cmd is Reset);
            let active = step is RecheckEstop && flag != 0;
            e.trouble(outcome, state, flag) is Some <==> failed || refused || active
        }),
{
}

/// The connection of a client ends with a stop of each axis that has a velocity
/// and with nothing else, and without a robot with nothing at all.
pub proof fn parting_only_stops(last: Seq<Double>, k: int)
    ensures
        parting_stops(last, false).len() == 0,
        0 <= k < parting_stops(last, true).len() ==> (parting_stops(
            last,
            true,
        )[k] matches Step::StopJog { axis } && 0 <= axis < 6 && !last[axis as int].is_zero()),
{
    if 0 <= k < parting_stops(last, true).len() {
        jog_calls_give_what_was_asked(last, at_rest(), k);
        assert forall|i: int| 0 <= i < 6 implies (#[trigger] at_rest()[i]).is_zero() by {
            at_rest_is_zero(i);
        }
    }
}

proof fn lemma_others_leave_running(running: Seq<Double>, steps: Seq<Step>, from: int, upto: int)
    requires
        0 <= from <= upto <= steps.len(),
        forall|i: int| from <= i < upto ==> leaves_axes(#[trigger] steps[i]),
    ensures
        running_after(running, steps.take(upto)) == running_after(running, steps.take(from)),
    decreases upto - from,
{
    if from < upto {
        lemma_others_leave_running(running, steps, from, upto - 1);
        assert(steps.take(upto).drop_last() =~= steps.take(upto - 1));
        assert(leaves_axes(steps[upto - 1]));
    }
}

/// Once the calls that change the velocities have succeeded, every axis runs at
/// the velocity that is remembered for it, sign and all, if that was so before
/// the command.
pub proof fn axes_run_as_remembered(e: RealExec, running: Seq<Double>, i: int)
    requires
        e.valid(),
        e.script.next >= e.settle,
        running.len() == 6,
        forall|k: int|
            0 <= k < 6 ==> if e.last@[k].is_zero() {
                (#[trigger] running[k]).is_zero()
            } else {
                running[k] == e.last@[k]
            },
        0 <= i < 6,
    ensures
        ({
            let now = running_after(running, e.script.steps@.take(e.script.next as int))[i];
            if e.velocities()[i].is_zero() {
                now.is_zero()
            } else {
                now == e.velocities()[i]
            }
        }),
{
    lemma_others_leave_running(
        running,
        e.script.steps@,
        e.settle as int,
        e.script.next as int,
    );
    assert(running[i] == running[i]);
    if !keeps_axes(e.cmd) {
        axes_run_as_asked(running, e.last@, led_to(e.cmd, e.last@), i);
    }
}

/// An error is answered with its text behind the word err, anything else with
/// the reply itself.
pub proof fn errors_are_marked(reply: Seq<char>)
    ensures
        reply_line(Ok(reply)) == reply,
        reply_line(Err(reply)).take(4) == "err "@,
        reply_line(Err(reply)).subrange(4, reply.len() + 4int) == reply,
        reply_line(Err(reply)).len() == reply.len() + 5,
{
    reveal_strlit("err ");
    reveal_strlit("\n");
}

/// However the connection of a client ends, by its end or by an error, the axes
/// are stopped the same way; a line never ends it. A line is run without the
/// white space around it, and one of white space alone is not run.
pub proof fn every_end_stops_the_axes(
    event: ClientEvent,
    last: Seq<Double>,
    robot: bool,
    action: ClientAction,
)
    requires
        fits(event, last, robot, action),
    ensures
        event is Line <==> action is Wait || action is Run,
        action matches ClientAction::Stop { stops } ==> event is Closed && stops@ == parting_stops(
            last,
            robot,
        ),
        action matches ClientAction::Fail { stops, .. } ==> (event is ReadFailed
            || event is WriteFailed) && stops@ == parting_stops(last, robot),
        event matches ClientEvent::Line { line } ==> (action is Wait <==> trimmed(line@).len() == 0),
        action matches ClientAction::Run { line } ==> (event matches ClientEvent::Line { line: raw }
            && words(line@) == words(raw@)),
{
    if let ClientEvent::Line { line } = event {
        crate::text::trimming_keeps_words(line@);
    }
}

/// Only an interruption ends the server, and it aborts motions exactly when there
/// is a robot; a client that could not connect does not.
pub proof fn only_interruption_ends_the_server(event: ServeEvent, robot: bool)
    ensures
        served(event, robot) is Shutdown <==> event is Interrupted,
        served(event, robot) matches ServeAction::Shutdown { abort_motions } ==> abort_motions
            == robot,
        served(event, robot) is Spawn <==> event is Accepted,
{
}

/// The calls of a command are made one after the other, none twice: a call that
/// ended well is passed and one that failed is not, and calls are only ever added
/// behind those there are, once the robot state was read. That state is what is
/// remembered.
pub proof fn calls_are_made_in_order(
    e: RealExec,
    outcome: Outcome,
    state: RobotState,
    flag: BOOL,
    after: RealExec,
    k: int,
)
    requires
        e.valid(),
        e.script.todo().len() > 0,
        e.takes(outcome, state, flag, after),
    ensures
        ({
            let step = e.script.todo()[0];
            let well = outcome is Interrupted || (outcome matches Outcome::Returned { code } && code
                == 0);
            &&& step == e.script.steps@[e.script.next as int]
            &&& after.script.next == if well {
                e.script.next + 1
            } else {
                e.script.next as int
            }
            &&& e.script.steps@.len() <= after.script.steps@.len()
            &&& 0 <= k < e.script.steps@.len() ==> after.script.steps@[k] == e.script.steps@[k]
            &&& step !is ReadState ==> after.script.steps@.len() == e.script.steps@.len()
            &&& !well ==> after.script.steps@.len() == e.script.steps@.len()
            &&& step is ReadState && well ==> after.state == state
            &&& step !is ReadState ==> after.state == e.state
            &&& after.cmd == e.cmd && after.home == e.home && after.goal == e.goal && after.last
                == e.last
        }),
{
}

} // verus!
