//! What a dry run says that a command would do, and what the status command
//! says of the robot.

use crate::command::{missing_message, missing_position, Command};
use crate::json::fmt_array;
use crate::number::Double;
use crate::sdk::RobotState;
use crate::text::{
    concat2, concat3, contents, decimal, decimal_text, integer, integer_text, joined,
};
use vstd::prelude::*;

verus! {

/// The severity of a line of the log.
#[derive(Clone, Copy, Debug, PartialEq, Eq, Structural)]
pub enum Level {
    Info,
    Warn,
    Error,
}

/// A line of the log.
#[derive(Debug)]
pub struct LogLine {
    pub level: Level,
    pub text: String,
}

/// What a line of the log holds.
pub struct LineView {
    pub level: Level,
    pub text: Seq<char>,
}

impl View for LogLine {
    type V = LineView;

    open spec fn view(&self) -> LineView {
        LineView { level: self.level, text: self.text@ }
    }
}

/// What the lines of a log hold.
pub open spec fn lines_of(lines: Seq<LogLine>) -> Seq<LineView> {
    lines.map_values(|l: LogLine| l@)
}

/// The numbers of a command as they are shown, each rendered with the digits
/// that its line shows.
#[derive(Debug)]
pub struct Shown {
    /// The angle of a rotation.
    pub deg: String,
    /// The speed.
    pub speed: String,
    /// The seconds that a rotation takes.
    pub seconds: String,
    pub x: String,
    pub y: String,
    pub z: String,
    pub rx: String,
    pub ry: String,
    pub rz: String,
}

/// An information line.
pub open spec fn info(text: Seq<char>) -> LineView {
    LineView { level: Level::Info, text }
}

/// A warning line.
pub open spec fn warning(text: Seq<char>) -> LineView {
    LineView { level: Level::Warn, text }
}

/// "Will connect to controller", with the address and what follows.
pub open spec fn connecting(ip: Seq<char>, what: Seq<char>) -> LineView {
    info("[dry-run] Will connect to controller "@ + ip + what)
}

/// A shown angle, or what stands for one that was not given.
pub open spec fn shown_angle(given: bool, shown: Seq<char>) -> Seq<char> {
    if given {
        shown
    } else {
        "NaN"@
    }
}

/// The orientation of a move as it is shown.
pub open spec fn orientation(rx: bool, ry: bool, rz: bool, shown: Shown) -> Seq<char> {
    if !rx && !ry && !rz {
        "keep current"@
    } else {
        "rx="@ + shown_angle(rx, shown.rx@) + ", ry="@ + shown_angle(ry, shown.ry@) + ", rz="@
            + shown_angle(rz, shown.rz@) + " degrees"@
    }
}

/// A position as it is shown.
pub open spec fn position(shown: Shown) -> Seq<char> {
    "("@ + shown.x@ + ", "@ + shown.y@ + ", "@ + shown.z@ + ") mm"@
}

/// The last line of every move.
pub open spec fn move_speed(shown: Shown) -> LineView {
    info("[dry-run] Linear speed "@ + shown.speed@ + " mm/s, out-of-workspace targets get clamped"@)
}

/// The line of a move without a position.
pub open spec fn missing_line() -> LineView {
    LineView { level: Level::Error, text: missing_message() }
}

/// The lines of a dry run.
pub open spec fn plan_lines(ip: Seq<char>, command: Command, shown: Shown) -> Seq<LineView> {
    match command {
        Command::Status => seq![connecting(ip, " and read state"@)],
        Command::PowerOn => seq![connecting(ip, " and power on and enable"@)],
        Command::PowerOff => seq![connecting(ip, " and disable servos and power off"@)],
        Command::EstopClear => seq![connecting(ip, " and clear the e-stop error state"@)],
        Command::Inspect => seq![connecting(ip, " and print the joint angles as JSON"@)],
        Command::InspectPos => seq![connecting(ip, " and print the TCP position as JSON"@)],
        Command::Dh => seq![connecting(ip, " and print the DH parameters as JSON"@)],
        Command::SetBase => seq![
            connecting(ip, " and save the current TCP as the base pose"@),
        ],
        Command::Rot { joint, .. } => seq![
            connecting(
                ip,
                ", rotate joint J"@ + integer(joint as int) + " by "@ + shown.deg@ + " degrees"@,
            ),
            info(
                "[dry-run] Speed "@ + shown.speed@ + " rad/s, about "@ + shown.seconds@ + " seconds"@,
            ),
        ],
        Command::Restore { file, .. } => seq![
            connecting(
                ip,
                " and restore joints from "@ + match file {
                    Some(f) => f@,
                    None => "built-in default pose"@,
                },
            ),
            info("[dry-run] Speed "@ + shown.speed@ + " rad/s"@),
        ],
        Command::MoveTo { x, y, z, rx, ry, rz, rel, pose, .. } => match pose {
            Some(path) => seq![
                connecting(ip, " and move the TCP to the pose from "@ + path@),
                move_speed(shown),
            ],
            None => if x is None || y is None || z is None {
                seq![missing_line()]
            } else {
                seq![
                    connecting(
                        ip,
                        " and move the TCP to "@ + (if rel {
                            "base + offset"@
                        } else {
                            "absolute"@
                        }) + " position "@ + position(shown),
                    ),
                    info(
                        "[dry-run] Orientation: "@ + orientation(rx is Some, ry is Some, rz is Some, shown),
                    ),
                    move_speed(shown),
                ]
            },
        },
        Command::Tool { index, on } => seq![
            connecting(
                ip,
                " and turn tool output "@ + decimal(index as nat) + if on {
                    " on"@
                } else {
                    " off"@
                },
            ),
        ],
        Command::Serve { port, mock } => if mock {
            seq![
                info(
                    "[dry-run] Will serve the gamepad protocol on port "@ + decimal(port as nat)
                        + " without a controller"@,
                ),
            ]
        } else {
            seq![connecting(ip, " and serve the gamepad protocol on port "@ + decimal(port as nat))]
        },
    }
}

/// The lines of a dry run where every move is relative to the base pose.
pub open spec fn base_plan_lines(ip: Seq<char>, command: Command, shown: Shown) -> Seq<LineView> {
    match command {
        Command::MoveTo { x, y, z, rx, ry, rz, .. } => if x is None || y is None || z is None {
            seq![missing_line()]
        } else {
            seq![
                connecting(ip, " and move the TCP to base + "@ + position(shown)),
                info(
                    "[dry-run] Orientation: "@ + orientation(rx is Some, ry is Some, rz is Some, shown),
                ),
                move_speed(shown),
            ]
        },
        _ => plan_lines(ip, command, shown),
    }
}

/// An information line.
pub fn info_line(text: String) -> (r: LogLine)
    ensures
        r@ == info(text@),
{
    LogLine { level: Level::Info, text }
}

/// A warning line.
pub fn warn_line(text: String) -> (r: LogLine)
    ensures
        r@ == warning(text@),
{
    LogLine { level: Level::Warn, text }
}

fn connect_line(ip: &str, what: &str) -> (r: LogLine)
    ensures
        r@ == connecting(ip@, what@),
{
    info_line(concat3("[dry-run] Will connect to controller ", ip, what))
}

fn angle_text(given: bool, shown: &String) -> (r: String)
    ensures
        r@ == shown_angle(given, shown@),
{
    if given {
        shown.clone()
    } else {
        "NaN".to_owned()
    }
}

fn orientation_text(rx: bool, ry: bool, rz: bool, shown: &Shown) -> (r: String)
    ensures
        r@ == orientation(rx, ry, rz, *shown),
{
    if !rx && !ry && !rz {
        "keep current".to_owned()
    } else {
        let mut s = concat2("rx=", angle_text(rx, &shown.rx).as_str());
        s.append(", ry=");
        s.append(angle_text(ry, &shown.ry).as_str());
        s.append(", rz=");
        s.append(angle_text(rz, &shown.rz).as_str());
        s.append(" degrees");
        s
    }
}

fn position_text(shown: &Shown) -> (r: String)
    ensures
        r@ == position(*shown),
{
    let mut s = concat2("(", shown.x.as_str());
    s.append(", ");
    s.append(shown.y.as_str());
    s.append(", ");
    s.append(shown.z.as_str());
    s.append(") mm");
    s
}

fn orientation_line(rx: bool, ry: bool, rz: bool, shown: &Shown) -> (r: LogLine)
    ensures
        r@ == info("[dry-run] Orientation: "@ + orientation(rx, ry, rz, *shown)),
{
    info_line(
        concat2("[dry-run] Orientation: ", orientation_text(rx, ry, rz, shown).as_str()),
    )
}

fn speed_line(shown: &Shown) -> (r: LogLine)
    ensures
        r@ == move_speed(*shown),
{
    info_line(
        concat3(
            "[dry-run] Linear speed ",
            shown.speed.as_str(),
            " mm/s, out-of-workspace targets get clamped",
        ),
    )
}

/// The lines of a dry run: what the command would do.
pub fn print_plan(ip: &str, command: &Command, shown: &Shown) -> (r: Vec<LogLine>)
    ensures
        lines_of(r@) == plan_lines(ip@, *command, *shown),
{
    let mut out: Vec<LogLine> = Vec::new();
    match command {
        Command::Status => out.push(connect_line(ip, " and read state")),
        Command::PowerOn => out.push(connect_line(ip, " and power on and enable")),
        Command::PowerOff => out.push(connect_line(ip, " and disable servos and power off")),
        Command::EstopClear => out.push(connect_line(ip, " and clear the e-stop error state")),
        Command::Inspect => out.push(connect_line(ip, " and print the joint angles as JSON")),
        Command::InspectPos => out.push(connect_line(ip, " and print the TCP position as JSON")),
        Command::Dh => out.push(connect_line(ip, " and print the DH parameters as JSON")),
        Command::SetBase => out.push(
            connect_line(ip, " and save the current TCP as the base pose"),
        ),
        Command::Rot { joint, .. } => {
            let mut what = concat2(", rotate joint J", integer_text(*joint).as_str());
            what.append(" by ");
            what.append(shown.deg.as_str());
            what.append(" degrees");
            out.push(connect_line(ip, what.as_str()));
            let mut speed = concat3("[dry-run] Speed ", shown.speed.as_str(), " rad/s, about ");
            speed.append(shown.seconds.as_str());
            speed.append(" seconds");
            out.push(info_line(speed));
        },
        Command::Restore { file, .. } => {
            let name = match file {
                Some(f) => f.clone(),
                None => "built-in default pose".to_owned(),
            };
            out.push(
                connect_line(ip, concat2(" and restore joints from ", name.as_str()).as_str()),
            );
            out.push(info_line(concat3("[dry-run] Speed ", shown.speed.as_str(), " rad/s")));
        },
        Command::MoveTo { x, y, z, rx, ry, rz, rel, pose, .. } => match pose {
            Some(path) => {
                out.push(
                    connect_line(
                        ip,
                        concat2(" and move the TCP to the pose from ", path.as_str()).as_str(),
                    ),
                );
                out.push(speed_line(shown));
            },
            None => {
                if x.is_none() || y.is_none() || z.is_none() {
                    out.push(LogLine { level: Level::Error, text: missing_position() });
                } else {
                    let mode = if *rel {
                        "base + offset"
                    } else {
                        "absolute"
                    };
                    let mut what = concat3(" and move the TCP to ", mode, " position ");
                    what.append(position_text(shown).as_str());
                    out.push(connect_line(ip, what.as_str()));
                    out.push(orientation_line(rx.is_some(), ry.is_some(), rz.is_some(), shown));
                    out.push(speed_line(shown));
                }
            },
        },
        Command::Tool { index, on } => {
            let state = if *on {
                " on"
            } else {
                " off"
            };
            let what = concat3(
                " and turn tool output ",
                decimal_text(*index as u64).as_str(),
                state,
            );
            out.push(connect_line(ip, what.as_str()));
        },
        Command::Serve { port, mock } => {
            let number = decimal_text(*port as u64);
            if *mock {
                out.push(
                    info_line(
                        concat3(
                            "[dry-run] Will serve the gamepad protocol on port ",
                            number.as_str(),
                            " without a controller",
                        ),
                    ),
                );
            } else {
                out.push(
                    connect_line(
                        ip,
                        concat2(" and serve the gamepad protocol on port ", number.as_str()).as_str(),
                    ),
                );
            }
        },
    }
    assert(lines_of(out@) =~= plan_lines(ip@, *command, *shown));
    out
}

/// The lines of a dry run where every move is relative to the base pose.
pub fn print_base_plan(ip: &str, command: &Command, shown: &Shown) -> (r: Vec<LogLine>)
    ensures
        lines_of(r@) == base_plan_lines(ip@, *command, *shown),
{
    match command {
        Command::MoveTo { x, y, z, rx, ry, rz, .. } => {
            let mut out: Vec<LogLine> = Vec::new();
            if x.is_none() || y.is_none() || z.is_none() {
                out.push(LogLine { level: Level::Error, text: missing_position() });
            } else {
                let what = concat2(" and move the TCP to base + ", position_text(shown).as_str());
                out.push(connect_line(ip, what.as_str()));
                out.push(orientation_line(rx.is_some(), ry.is_some(), rz.is_some(), shown));
                out.push(speed_line(shown));
            }
            assert(lines_of(out@) =~= base_plan_lines(ip@, *command, *shown));
            out
        },
        _ => print_plan(ip, command, shown),
    }
}

/// The lines of the status command.
pub open spec fn state_lines(st: RobotState) -> Seq<LineView> {
    seq![
        info(
            "E-stop: "@ + if st.estoped != 0 {
                "pressed"@
            } else {
                "normal"@
            },
        ),
        info(
            "Powered: "@ + if st.powered_on != 0 {
                "yes"@
            } else {
                "no"@
            },
        ),
        info(
            "Enabled: "@ + if st.servo_enabled != 0 {
                "yes"@
            } else {
                "no"@
            },
        ),
    ]
}

/// What the status command says of the robot state.
pub fn print_state(st: &RobotState) -> (r: Vec<LogLine>)
    ensures
        lines_of(r@) == state_lines(*st),
{
    let estop = if st.estoped != 0 {
        "pressed"
    } else {
        "normal"
    };
    let powered = if st.powered_on != 0 {
        "yes"
    } else {
        "no"
    };
    let enabled = if st.servo_enabled != 0 {
        "yes"
    } else {
        "no"
    };
    let mut out: Vec<LogLine> = Vec::new();
    out.push(info_line(concat2("E-stop: ", estop)));
    out.push(info_line(concat2("Powered: ", powered)));
    out.push(info_line(concat2("Enabled: ", enabled)));
    assert(lines_of(out@) =~= state_lines(*st));
    out
}

/// The lines of the parameters: lengths in mm as they are, angles in degrees.
pub open spec fn dh_lines(
    alpha: Seq<Seq<char>>,
    a: Seq<Seq<char>>,
    d: Seq<Seq<char>>,
    joint_homeoff: Seq<Seq<char>>,
) -> Seq<LineView> {
    seq![
        info("DH alpha in degrees: "@ + joined(alpha, ", "@)),
        info("DH a in mm: "@ + joined(a, ", "@)),
        info("DH d in mm: "@ + joined(d, ", "@)),
        info("DH joint_homeoff in degrees: "@ + joined(joint_homeoff, ", "@)),
    ]
}

/// What the dh command says of the parameters, each number given by its text:
/// `alpha` and `joint_homeoff` in degrees, `a` and `d` in mm.
pub fn print_dh(
    alpha: &Vec<String>,
    a: &Vec<String>,
    d: &Vec<String>,
    joint_homeoff: &Vec<String>,
) -> (r: Vec<LogLine>)
    ensures
        lines_of(r@) == dh_lines(
            contents(alpha@),
            contents(a@),
            contents(d@),
            contents(joint_homeoff@),
        ),
{
    let mut out: Vec<LogLine> = Vec::new();
    out.push(info_line(concat2("DH alpha in degrees: ", fmt_array(alpha).as_str())));
    out.push(info_line(concat2("DH a in mm: ", fmt_array(a).as_str())));
    out.push(info_line(concat2("DH d in mm: ", fmt_array(d).as_str())));
    out.push(
        info_line(concat2("DH joint_homeoff in degrees: ", fmt_array(joint_homeoff).as_str())),
    );
    assert(lines_of(out@) =~= dh_lines(
        contents(alpha@),
        contents(a@),
        contents(d@),
        contents(joint_homeoff@),
    ));
    out
}

/// The status command tells e-stop, power and servos, each by its own flag.
pub proof fn state_is_told_flag_by_flag(st: RobotState)
    ensures
        state_lines(st).len() == 3,
        state_lines(st)[0] == info(
            if st.estoped == 0 {
                "E-stop: normal"@
            } else {
                "E-stop: pressed"@
            },
        ),
        state_lines(st)[1] == info(
            if st.powered_on == 0 {
                "Powered: no"@
            } else {
                "Powered: yes"@
            },
        ),
        state_lines(st)[2] == info(
            if st.servo_enabled == 0 {
                "Enabled: no"@
            } else {
                "Enabled: yes"@
            },
        ),
{
    reveal_strlit("E-stop: ");
    reveal_strlit("Powered: ");
    reveal_strlit("Enabled: ");
    reveal_strlit("pressed");
    reveal_strlit("normal");
    reveal_strlit("yes");
    reveal_strlit("no");
    reveal_strlit("E-stop: normal");
    reveal_strlit("E-stop: pressed");
    reveal_strlit("Powered: no");
    reveal_strlit("Powered: yes");
    reveal_strlit("Enabled: no");
    reveal_strlit("Enabled: yes");
    assert("E-stop: "@ + "normal"@ =~= "E-stop: normal"@);
    assert("E-stop: "@ + "pressed"@ =~= "E-stop: pressed"@);
    assert("Powered: "@ + "no"@ =~= "Powered: no"@);
    assert("Powered: "@ + "yes"@ =~= "Powered: yes"@);
    assert("Enabled: "@ + "no"@ =~= "Enabled: no"@);
    assert("Enabled: "@ + "yes"@ =~= "Enabled: yes"@);
}

/// Each angle of a move is shown under its own name, NaN where it was not given
/// and another was, and the orientation is said to be kept where none was.
pub proof fn angles_are_shown_by_name(rx: bool, ry: bool, rz: bool, shown: Shown)
    ensures
        !(rx || ry || rz) ==> orientation(rx, ry, rz, shown) == "keep current"@,
        rx && ry && rz ==> orientation(rx, ry, rz, shown) == "rx="@ + shown.rx@ + ", ry="@
            + shown.ry@ + ", rz="@ + shown.rz@ + " degrees"@,
        rx && !ry && !rz ==> orientation(rx, ry, rz, shown) == "rx="@ + shown.rx@
            + ", ry=NaN, rz=NaN degrees"@,
        !rx && ry && !rz ==> orientation(rx, ry, rz, shown) == "rx=NaN, ry="@ + shown.ry@
            + ", rz=NaN degrees"@,
        !rx && !ry && rz ==> orientation(rx, ry, rz, shown) == "rx=NaN, ry=NaN, rz="@ + shown.rz@
            + " degrees"@,
        rx && ry && !rz ==> orientation(rx, ry, rz, shown) == "rx="@ + shown.rx@ + ", ry="@
            + shown.ry@ + ", rz=NaN degrees"@,
        rx && !ry && rz ==> orientation(rx, ry, rz, shown) == "rx="@ + shown.rx@
            + ", ry=NaN, rz="@ + shown.rz@ + " degrees"@,
        !rx && ry && rz ==> orientation(rx, ry, rz, shown) == "rx=NaN, ry="@ + shown.ry@
            + ", rz="@ + shown.rz@ + " degrees"@,
{
    reveal_strlit("rx=");
    reveal_strlit(", ry=");
    reveal_strlit(", rz=");
    reveal_strlit(" degrees");
    reveal_strlit("NaN");
    reveal_strlit("keep current");
    reveal_strlit(", ry=NaN, rz=NaN degrees");
    reveal_strlit("rx=NaN, ry=");
    reveal_strlit(", rz=NaN degrees");
    reveal_strlit("rx=NaN, ry=NaN, rz=");
    reveal_strlit(", ry=NaN, rz=");
    let text = orientation(rx, ry, rz, shown);
    let a = shown.rx@;
    let b = shown.ry@;
    let c = shown.rz@;
    if rx && !ry && !rz {
        assert(text =~= "rx="@ + a + ", ry=NaN, rz=NaN degrees"@);
    } else if !rx && ry && !rz {
        assert(text =~= "rx=NaN, ry="@ + b + ", rz=NaN degrees"@);
    } else if !rx && !ry && rz {
        assert(text =~= "rx=NaN, ry=NaN, rz="@ + c + " degrees"@);
    } else if rx && ry && !rz {
        assert(text =~= "rx="@ + a + ", ry="@ + b + ", rz=NaN degrees"@);
    } else if rx && !ry && rz {
        assert(text =~= "rx="@ + a + ", ry=NaN, rz="@ + c + " degrees"@);
    } else if !rx && ry && rz {
        assert(text =~= "rx=NaN, ry="@ + b + ", rz="@ + c + " degrees"@);
    }
}

/// A planned move tells its address, whether it is relative, its position
/// coordinate by coordinate, exactly the angles that were given, and its speed. A
/// move by an offset tells the same but for the words of its position, and a
/// coordinate that is missing is an error instead.
pub proof fn planned_move_is_told(
    ip: Seq<char>,
    x: Option<Double>,
    y: Option<Double>,
    z: Option<Double>,
    speed: Double,
    rx: Option<Double>,
    ry: Option<Double>,
    rz: Option<Double>,
    rel: bool,
    shown: Shown,
)
    ensures
        ({
            let command = Command::MoveTo { x, y, z, speed, rx, ry, rz, rel, pose: None };
            let plan = plan_lines(ip, command, shown);
            let base = base_plan_lines(ip, command, shown);
            let place = "("@ + shown.x@ + ", "@ + shown.y@ + ", "@ + shown.z@ + ") mm"@;
            let missing = x is None || y is None || z is None;
            &&& missing ==> plan.len() == 1 && plan[0].level is Error && base.len() == 1
                && base[0].level is Error
            &&& !missing ==> {
                &&& plan.len() == 3
                &&& plan[0] == info(
                    "[dry-run] Will connect to controller "@ + ip + (" and move the TCP to "@ + (
                    if rel {
                        "base + offset"@
                    } else {
                        "absolute"@
                    }) + " position "@ + place),
                )
                &&& base.len() == 3
                &&& base[0] == info(
                    "[dry-run] Will connect to controller "@ + ip + (
                    " and move the TCP to base + "@ + place),
                )
                &&& plan[1] == base[1]
                &&& plan[1] == info(
                    "[dry-run] Orientation: "@ + orientation(
                        rx is Some,
                        ry is Some,
                        rz is Some,
                        shown,
                    ),
                )
                &&& plan[2] == base[2]
                &&& plan[2] == info(
                    "[dry-run] Linear speed "@ + shown.speed@
                        + " mm/s, out-of-workspace targets get clamped"@,
                )
            }
        }),
{
}

/// A planned switch of a tool output tells that output and how it is switched.
pub proof fn planned_switch_is_told(ip: Seq<char>, index: u32, on: bool, shown: Shown)
    ensures
        plan_lines(ip, Command::Tool { index, on }, shown).len() == 1,
        on ==> plan_lines(ip, Command::Tool { index, on }, shown)[0] == info(
            "[dry-run] Will connect to controller "@ + ip + (" and turn tool output "@ + decimal(
                index as nat,
            ) + " on"@),
        ),
        !on ==> plan_lines(ip, Command::Tool { index, on }, shown)[0] == info(
            "[dry-run] Will connect to controller "@ + ip + (" and turn tool output "@ + decimal(
                index as nat,
            ) + " off"@),
        ),
{
}

} // verus!
