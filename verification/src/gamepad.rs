//! The gamepad side of the control protocol: what one frame of input sends.

use crate::number::{
    lemma_whole_pattern, rounding_gives_nearest, signs_change_values, values_double_with_exponent,
    whole, Double, ONE,
};
use crate::protocol::{parsed, reply_line, ProtoCmd};
use crate::sdk::zero_number;
use crate::text::{
    concat2, contents, decimal, decimal_reads_back, decimal_text, is_space, is_word, join, joined,
    joined_words_split_back, parse_unsigned, same_text, trim, trimmed, trimming_takes_only_space,
    unsigned_value, words,
};
use vstd::prelude::*;

verus! {

/// 0.15 in single precision: stick deflection below this value is neutral.
pub const DEADZONE: u64 = 0x3fc3_3333_4000_0000;

/// 100: full stick deflection to velocity in mm/s.
pub const MOVE_SCALE: u64 = 0x4059_0000_0000_0000;

/// 20: full stick deflection to angular velocity in deg/s.
pub const ROTATE_SCALE: u64 = 0x4034_0000_0000_0000;

/// 40: shoulder button velocity in mm/s while held.
pub const Z_SCALE: u64 = 0x4044_0000_0000_0000;

/// 0.5: right trigger level that turns the tool outputs on.
pub const SUCTION_LEVEL: u64 = 0x3fe0_0000_0000_0000;

/// How often a steady velocity is resent, in nanoseconds.
pub const HEARTBEAT: u128 = 500_000_000;

/// One axis of a stick: its deflection, and the deflection times the scale of
/// the velocity that it drives.
#[derive(Clone, Copy, Debug, PartialEq, Eq, Structural)]
pub struct Stick {
    pub deflection: Double,
    pub scaled: Double,
}

/// The input snapshot of one control frame.
#[derive(Clone, Copy, Debug, PartialEq, Eq, Structural)]
pub struct Input {
    pub stick_x: Stick,
    pub stick_y: Stick,
    pub rot_x: Stick,
    pub rot_y: Stick,
    pub shoulder_l: bool,
    pub shoulder_r: bool,
    pub cross: bool,
    pub triangle: bool,
    pub dpad_up: bool,
    pub dpad_down: bool,
    /// Right trigger level, 0 to 1.
    pub r2: Double,
}

/// What is remembered from one frame to the next.
#[derive(Clone, Copy, Debug)]
pub struct Memory {
    pub cross: bool,
    pub triangle: bool,
    pub dpad_up: bool,
    pub dpad_down: bool,
    /// The velocity that was sent last, nothing before the first frame.
    pub velocity: Option<[Double; 6]>,
    /// Whether the tool outputs are on.
    pub suction: bool,
}

/// A command that is sent.
#[derive(Clone, Copy, Debug)]
pub enum Sent {
    Velocity { velocity: [Double; 6] },
    EstopClear,
    Reset,
    PowerOn,
    PowerOff,
    Tool { index: u32, on: bool },
}

/// What a frame sends and what is remembered of it.
#[derive(Debug)]
pub struct Frame {
    /// The velocity that the input asks for.
    pub velocity: [Double; 6],
    pub commands: Vec<Sent>,
    pub memory: Memory,
}

/// The stick is out of its neutral zone.
pub open spec fn deflected(s: Stick) -> bool {
    (Double { bits: DEADZONE }).below(s.deflection.unsigned())
}

/// `v` is the velocity that a stick axis asks for: the scaled deflection
/// rounded to a whole number, nothing while the stick is neutral.
pub open spec fn is_stick_velocity(s: Stick, v: Double) -> bool {
    if deflected(s) {
        s.scaled.rounds_to(v)
    } else {
        v == zero_number()
    }
}

/// The velocity that the shoulder buttons ask for: down with the left one, up
/// with the right one alone.
pub open spec fn shoulder_velocity(left: bool, right: bool) -> Double {
    if left {
        (Double { bits: Z_SCALE }).negated()
    } else if right {
        Double { bits: Z_SCALE }
    } else {
        zero_number()
    }
}

/// `v` is the velocity that the input asks for. The left stick moves, the right
/// stick tilts the head around X and turns it around Z.
pub open spec fn is_velocity(inp: Input, v: Seq<Double>) -> bool {
    &&& v.len() == 6
    &&& is_stick_velocity(inp.stick_x, v[0])
    &&& is_stick_velocity(inp.stick_y, v[1])
    &&& v[2] == shoulder_velocity(inp.shoulder_l, inp.shoulder_r)
    &&& is_stick_velocity(inp.rot_y, v[3])
    &&& v[4] == zero_number()
    &&& is_stick_velocity(inp.rot_x, v[5])
}

/// Two velocities are the same in every axis.
pub open spec fn same_velocity(a: Seq<Double>, b: Seq<Double>) -> bool {
    forall|i: int| 0 <= i < 6 ==> (#[trigger] a[i]).equals(b[i])
}

/// No axis has a velocity.
pub open spec fn standing(v: Seq<Double>) -> bool {
    forall|i: int| 0 <= i < 6 ==> (#[trigger] v[i]).is_zero()
}

/// The velocity is sent: it differs from the one that was sent last, or a
/// velocity is held for as long as a heartbeat.
pub open spec fn sends_velocity(last: Option<[Double; 6]>, v: Seq<Double>, elapsed: u128) -> bool {
    match last {
        None => true,
        Some(l) => !same_velocity(v, l@) || (!standing(v) && elapsed >= HEARTBEAT),
    }
}

/// A command, if `send`.
pub open spec fn optional(send: bool, command: Sent) -> Seq<Sent> {
    if send {
        seq![command]
    } else {
        Seq::empty()
    }
}

/// The trigger is far enough down to turn the tool outputs on.
pub open spec fn sucks(r2: Double) -> bool {
    !r2.is_nan() && r2.units() >= (Double { bits: SUCTION_LEVEL }).units()
}

/// The commands of a frame whose velocity is `v`.
pub open spec fn sent_by(memory: Memory, inp: Input, v: [Double; 6], elapsed: u128) -> Seq<Sent> {
    let on = sucks(inp.r2);
    optional(
        sends_velocity(memory.velocity, v@, elapsed),
        Sent::Velocity { velocity: v },
    ) + optional(inp.cross && !memory.cross, Sent::EstopClear) + optional(
        inp.triangle && !memory.triangle,
        Sent::Reset,
    ) + optional(inp.dpad_up && !memory.dpad_up, Sent::PowerOn) + optional(
        inp.dpad_down && !memory.dpad_down,
        Sent::PowerOff,
    ) + optional(on != memory.suction, Sent::Tool { index: 0, on }) + optional(
        on != memory.suction,
        Sent::Tool { index: 1, on },
    )
}

/// What is remembered of a frame whose velocity is `v`.
pub open spec fn remembered(memory: Memory, inp: Input, v: [Double; 6], elapsed: u128) -> Memory {
    Memory {
        cross: inp.cross,
        triangle: inp.triangle,
        dpad_up: inp.dpad_up,
        dpad_down: inp.dpad_down,
        velocity: if sends_velocity(memory.velocity, v@, elapsed) {
            Some(v)
        } else {
            memory.velocity
        },
        suction: sucks(inp.r2),
    }
}

impl Memory {
    /// Nothing pressed, nothing sent.
    pub fn new() -> (r: Memory)
        ensures
            r == (Memory {
                cross: false,
                triangle: false,
                dpad_up: false,
                dpad_down: false,
                velocity: None,
                suction: false,
            }),
    {
        Memory {
            cross: false,
            triangle: false,
            dpad_up: false,
            dpad_down: false,
            velocity: None,
            suction: false,
        }
    }
}

/// Quantize a velocity to whole units and snap tiny values to zero, so a
/// resting stick sends a stable command instead of jittering.
pub fn quant(v: Double) -> (r: Double)
    ensures
        v.rounds_to(r),
{
    v.quantized()
}

fn stick_velocity(s: &Stick) -> (r: Double)
    ensures
        is_stick_velocity(*s, r),
{
    if (Double { bits: DEADZONE }).less(s.deflection.absolute()) {
        quant(s.scaled)
    } else {
        Double { bits: 0 }
    }
}

fn input_velocity(inp: &Input) -> (r: [Double; 6])
    ensures
        is_velocity(*inp, r@),
{
    let up = Double { bits: Z_SCALE };
    let zero = Double { bits: 0 };
    let dz = if inp.shoulder_l {
        up.negate()
    } else if inp.shoulder_r {
        up
    } else {
        zero
    };
    [
        stick_velocity(&inp.stick_x),
        stick_velocity(&inp.stick_y),
        dz,
        stick_velocity(&inp.rot_y),
        zero,
        stick_velocity(&inp.rot_x),
    ]
}

fn same_axes(a: &[Double; 6], b: &[Double; 6]) -> (r: bool)
    ensures
        r == same_velocity(a@, b@),
{
    let mut i: usize = 0;
    while i < 6
        invariant
            i <= 6,
            forall|k: int| 0 <= k < i ==> (#[trigger] a@[k]).equals(b@[k]),
        decreases 6 - i,
    {
        if !a[i].same(b[i]) {
            return false;
        }
        i = i + 1;
    }
    true
}

fn stands(v: &[Double; 6]) -> (r: bool)
    ensures
        r == standing(v@),
{
    let mut i: usize = 0;
    while i < 6
        invariant
            i <= 6,
            forall|k: int| 0 <= k < i ==> (#[trigger] v@[k]).is_zero(),
        decreases 6 - i,
    {
        if !v[i].zero() {
            return false;
        }
        i = i + 1;
    }
    true
}

fn push_if(commands: &mut Vec<Sent>, send: bool, command: Sent)
    ensures
        final(commands)@ == old(commands)@ + optional(send, command),
{
    if send {
        commands.push(command);
    }
    assert(commands@ =~= old(commands)@ + optional(send, command));
}

/// The commands of one control frame. All inputs merge into one velocity
/// command, and only changes are sent: an axis keeps its velocity until the next
/// command. Buttons fire once on the press edge. The right trigger past half
/// drives both tool outputs. `elapsed` is the time in nanoseconds since a
/// velocity was sent.
pub fn frame(memory: &Memory, inp: &Input, elapsed: u128) -> (r: Frame)
    ensures
        is_velocity(*inp, r.velocity@),
        inp.shoulder_l ==> r.velocity@[2].units() == -whole(40),
        !inp.shoulder_l && inp.shoulder_r ==> r.velocity@[2].units() == whole(40),
        !inp.shoulder_l && !inp.shoulder_r ==> r.velocity@[2].units() == 0,
        r.commands@ == sent_by(*memory, *inp, r.velocity, elapsed),
        r.memory == remembered(*memory, *inp, r.velocity, elapsed),
{
    let velocity = input_velocity(inp);
    proof {
        shoulders_lower_and_raise(*inp, velocity@);
    }
    let send = match &memory.velocity {
        None => true,
        Some(last) => !same_axes(&velocity, last) || (!stands(&velocity) && elapsed >= HEARTBEAT),
    };
    let on = inp.r2.same(inp.r2) && !inp.r2.less(Double { bits: SUCTION_LEVEL });
    let mut commands: Vec<Sent> = Vec::new();
    push_if(&mut commands, send, Sent::Velocity { velocity });
    push_if(&mut commands, inp.cross && !memory.cross, Sent::EstopClear);
    push_if(&mut commands, inp.triangle && !memory.triangle, Sent::Reset);
    push_if(&mut commands, inp.dpad_up && !memory.dpad_up, Sent::PowerOn);
    push_if(&mut commands, inp.dpad_down && !memory.dpad_down, Sent::PowerOff);
    push_if(&mut commands, on != memory.suction, Sent::Tool { index: 0, on });
    push_if(&mut commands, on != memory.suction, Sent::Tool { index: 1, on });
    proof {
        let first = optional(send, Sent::Velocity { velocity });
        assert(Seq::<Sent>::empty() + first =~= first);
    }
    let next = Memory {
        cross: inp.cross,
        triangle: inp.triangle,
        dpad_up: inp.dpad_up,
        dpad_down: inp.dpad_down,
        velocity: if send {
            Some(velocity)
        } else {
            memory.velocity
        },
        suction: on,
    };
    Frame { velocity, commands, memory: next }
}

/// The words of a command. `velocity` shows the six velocities of a velocity
/// command.
pub open spec fn command_words(command: Sent, velocity: Seq<Seq<char>>) -> Seq<Seq<char>> {
    match command {
        Sent::Velocity { .. } => seq!["vel"@] + velocity,
        Sent::EstopClear => seq!["estop-clear"@],
        Sent::Reset => seq!["reset"@],
        Sent::PowerOn => seq!["poweron"@],
        Sent::PowerOff => seq!["poweroff"@],
        Sent::Tool { index, on } => seq![
            "do"@,
            "tool"@,
            decimal(index as nat),
            if on {
                "on"@
            } else {
                "off"@
            },
        ],
    }
}

/// The line of a velocity command, from the texts of its velocities.
pub fn send_vel(velocity: &Vec<String>) -> (r: String)
    ensures
        r@ == joined(seq!["vel"@] + contents(velocity@), " "@),
{
    let mut parts: Vec<String> = Vec::new();
    parts.push("vel".to_owned());
    let mut i: usize = 0;
    while i < velocity.len()
        invariant
            i <= velocity@.len(),
            contents(parts@) == seq!["vel"@] + contents(velocity@).take(i as int),
        decreases velocity@.len() - i,
    {
        let ghost before = parts@;
        parts.push(velocity[i].clone());
        assert(contents(parts@) =~= contents(before).push(velocity@[i as int]@));
        assert(contents(velocity@).take(i + 1) =~= contents(velocity@).take(i as int).push(
            velocity@[i as int]@,
        ));
        i = i + 1;
    }
    assert(contents(velocity@).take(i as int) =~= contents(velocity@));
    join(&parts, " ")
}

fn tool_line(index: u32, on: bool) -> (r: String)
    ensures
        r@ == joined(command_words(Sent::Tool { index, on }, Seq::empty()), " "@),
{
    let mut parts: Vec<String> = Vec::new();
    parts.push("do".to_owned());
    parts.push("tool".to_owned());
    parts.push(decimal_text(index as u64));
    parts.push(
        if on {
            "on".to_owned()
        } else {
            "off".to_owned()
        },
    );
    assert(contents(parts@) =~= command_words(Sent::Tool { index, on }, Seq::empty()));
    join(&parts, " ")
}

/// The line of a command, with its line break. `velocity` shows the six
/// velocities of a velocity command.
pub fn write_cmd(command: &Sent, velocity: &Vec<String>) -> (r: String)
    ensures
        r@ == joined(command_words(*command, contents(velocity@)), " "@) + "\n"@,
{
    let line = match command {
        Sent::Velocity { .. } => send_vel(velocity),
        Sent::EstopClear => "estop-clear".to_owned(),
        Sent::Reset => "reset".to_owned(),
        Sent::PowerOn => "poweron".to_owned(),
        Sent::PowerOff => "poweroff".to_owned(),
        Sent::Tool { index, on } => tool_line(*index, *on),
    };
    concat2(line.as_str(), "\n")
}

/// What is reported of a reply line: nothing for a blank line or for success.
pub open spec fn reported(line: Seq<char>) -> Option<Seq<char>> {
    if trimmed(line).len() == 0 || trimmed(line) == "ok"@ {
        None
    } else {
        Some("serve: "@ + trimmed(line))
    }
}

/// What is reported of a reply line of the server.
pub fn reply_report(line: &str) -> (r: Option<String>)
    ensures
        r is Some <==> reported(line@) is Some,
        r matches Some(s) ==> Some(s@) == reported(line@),
{
    let reply = trim(line);
    if reply.as_str().is_empty() || same_text(reply.as_str(), "ok") {
        None
    } else {
        Some(concat2("serve: ", reply.as_str()))
    }
}

/// What the arguments of the program ask for, or what is wrong with them.
#[derive(Debug)]
pub enum Arguments {
    /// Connect to this server.
    Connect { ip: String, port: u16 },
    /// Show the help.
    Help,
    MissingIp,
    MissingPort,
    BadPort,
    Unknown { argument: String },
}

/// What the arguments ask for, seen from their texts.
pub enum ArgumentsView {
    Connect { ip: Seq<char>, port: nat },
    Help,
    MissingIp,
    MissingPort,
    BadPort,
    Unknown { argument: Seq<char> },
}

impl View for Arguments {
    type V = ArgumentsView;

    open spec fn view(&self) -> ArgumentsView {
        match self {
            Arguments::Connect { ip, port } => ArgumentsView::Connect { ip: ip@, port: *port as nat },
            Arguments::Help => ArgumentsView::Help,
            Arguments::MissingIp => ArgumentsView::MissingIp,
            Arguments::MissingPort => ArgumentsView::MissingPort,
            Arguments::BadPort => ArgumentsView::BadPort,
            Arguments::Unknown { argument } => ArgumentsView::Unknown { argument: argument@ },
        }
    }
}

/// What arguments ask for when the server so far is the given one. They are
/// taken from left to right, a later one overrides an earlier one, and the first
/// that is wrong or asks for help decides.
pub open spec fn understood(args: Seq<Seq<char>>, ip: Seq<char>, port: nat) -> ArgumentsView
    decreases args.len(),
{
    if args.len() == 0 {
        ArgumentsView::Connect { ip, port }
    } else if args[0] == "--ip"@ {
        if args.len() == 1 {
            ArgumentsView::MissingIp
        } else {
            understood(args.skip(2), args[1], port)
        }
    } else if args[0] == "--port"@ {
        if args.len() == 1 {
            ArgumentsView::MissingPort
        } else {
            match unsigned_value(args[1]) {
                Some(n) if n <= 65535 => understood(args.skip(2), ip, n),
                _ => ArgumentsView::BadPort,
            }
        }
    } else if args[0] == "--help"@ || args[0] == "-h"@ {
        ArgumentsView::Help
    } else {
        ArgumentsView::Unknown { argument: args[0] }
    }
}

/// What the arguments of the program ask for. Without any, the server is the
/// local one on its usual port.
pub fn parse_args(args: &Vec<String>) -> (r: Arguments)
    ensures
        r@ == understood(contents(args@), "127.0.0.1"@, 5533),
{
    let ghost all = contents(args@);
    let mut ip = "127.0.0.1".to_owned();
    let mut port: u16 = 5533;
    let mut i: usize = 0;
    assert(all.skip(0) =~= all);
    while i < args.len()
        invariant
            all == contents(args@),
            i <= args@.len(),
            understood(all, "127.0.0.1"@, 5533) == understood(all.skip(i as int), ip@, port as nat),
        decreases args@.len() - i,
    {
        let ghost rest = all.skip(i as int);
        let a = args[i].as_str();
        assert(rest[0] == a@);
        if same_text(a, "--ip") {
            if i + 1 == args.len() {
                return Arguments::MissingIp;
            }
            assert(rest[1] == args@[i + 1]@);
            assert(rest.skip(2) =~= all.skip(i + 2));
            ip = args[i + 1].clone();
            i = i + 2;
        } else if same_text(a, "--port") {
            if i + 1 == args.len() {
                return Arguments::MissingPort;
            }
            assert(rest[1] == args@[i + 1]@);
            assert(rest.skip(2) =~= all.skip(i + 2));
            match parse_unsigned(args[i + 1].as_str(), 65535) {
                Some(n) => {
                    port = n as u16;
                },
                None => {
                    return Arguments::BadPort;
                },
            }
            i = i + 2;
        } else if same_text(a, "--help") || same_text(a, "-h") {
            return Arguments::Help;
        } else {
            return Arguments::Unknown { argument: args[i].clone() };
        }
    }
    Arguments::Connect { ip, port }
}

proof fn lemma_optional(s: Seq<Sent>, send: bool, command: Sent, c: Sent)
    ensures
        (s + optional(send, command)).contains(c) <==> s.contains(c) || (send && c == command),
{
    let all = s + optional(send, command);
    if s.contains(c) {
        let i = choose|i: int| 0 <= i < s.len() && s[i] == c;
        assert(all[i] == c);
    }
    if send && c == command {
        assert(all[s.len() as int] == c);
    }
}

proof fn lemma_sent(memory: Memory, inp: Input, v: [Double; 6], elapsed: u128, c: Sent)
    ensures
        ({
            let on = sucks(inp.r2);
            sent_by(memory, inp, v, elapsed).contains(c) <==> {
                ||| sends_velocity(memory.velocity, v@, elapsed) && c == (Sent::Velocity {
                    velocity: v,
                })
                ||| inp.cross && !memory.cross && c == Sent::EstopClear
                ||| inp.triangle && !memory.triangle && c == Sent::Reset
                ||| inp.dpad_up && !memory.dpad_up && c == Sent::PowerOn
                ||| inp.dpad_down && !memory.dpad_down && c == Sent::PowerOff
                ||| on != memory.suction && c == (Sent::Tool { index: 0, on })
                ||| on != memory.suction && c == (Sent::Tool { index: 1, on })
            }
        }),
{
    let on = sucks(inp.r2);
    let e = Seq::<Sent>::empty();
    let moves = sends_velocity(memory.velocity, v@, elapsed);
    let s0 = optional(moves, Sent::Velocity { velocity: v });
    let s1 = s0 + optional(inp.cross && !memory.cross, Sent::EstopClear);
    let s2 = s1 + optional(inp.triangle && !memory.triangle, Sent::Reset);
    let s3 = s2 + optional(inp.dpad_up && !memory.dpad_up, Sent::PowerOn);
    let s4 = s3 + optional(inp.dpad_down && !memory.dpad_down, Sent::PowerOff);
    let s5 = s4 + optional(on != memory.suction, Sent::Tool { index: 0, on });
    lemma_optional(e, moves, Sent::Velocity { velocity: v }, c);
    assert(e + s0 =~= s0);
    lemma_optional(s0, inp.cross && !memory.cross, Sent::EstopClear, c);
    lemma_optional(s1, inp.triangle && !memory.triangle, Sent::Reset, c);
    lemma_optional(s2, inp.dpad_up && !memory.dpad_up, Sent::PowerOn, c);
    lemma_optional(s3, inp.dpad_down && !memory.dpad_down, Sent::PowerOff, c);
    lemma_optional(s4, on != memory.suction, Sent::Tool { index: 0, on }, c);
    lemma_optional(s5, on != memory.suction, Sent::Tool { index: 1, on }, c);
}

/// A button fires once on the press edge: while it is held or released nothing
/// is sent for it.
pub proof fn buttons_fire_on_press(memory: Memory, inp: Input, v: [Double; 6], elapsed: u128)
    ensures
        sent_by(memory, inp, v, elapsed).contains(Sent::EstopClear) <==> inp.cross && !memory.cross,
        sent_by(memory, inp, v, elapsed).contains(Sent::Reset) <==> inp.triangle && !memory.triangle,
        sent_by(memory, inp, v, elapsed).contains(Sent::PowerOn) <==> inp.dpad_up
            && !memory.dpad_up,
        sent_by(memory, inp, v, elapsed).contains(Sent::PowerOff) <==> inp.dpad_down
            && !memory.dpad_down,
        remembered(memory, inp, v, elapsed).cross == inp.cross,
        remembered(memory, inp, v, elapsed).triangle == inp.triangle,
        remembered(memory, inp, v, elapsed).dpad_up == inp.dpad_up,
        remembered(memory, inp, v, elapsed).dpad_down == inp.dpad_down,
{
    lemma_sent(memory, inp, v, elapsed, Sent::EstopClear);
    lemma_sent(memory, inp, v, elapsed, Sent::Reset);
    lemma_sent(memory, inp, v, elapsed, Sent::PowerOn);
    lemma_sent(memory, inp, v, elapsed, Sent::PowerOff);
}

/// A steady stick does not resend: after a frame, a frame with the same
/// velocity before the heartbeat sends no velocity, and a standing one sends
/// none ever.
pub proof fn steady_velocity_is_not_resent(
    memory: Memory,
    inp: Input,
    v: [Double; 6],
    elapsed: u128,
    w: [Double; 6],
    later: u128,
)
    requires
        same_velocity(v@, v@),
        same_velocity(w@, v@),
    ensures
        ({
            let after = remembered(memory, inp, v, elapsed);
            &&& later < HEARTBEAT ==> !sends_velocity(after.velocity, w@, later)
            &&& standing(w@) ==> !sends_velocity(after.velocity, w@, later)
            &&& later >= HEARTBEAT && !standing(w@) ==> sends_velocity(after.velocity, w@, later)
        }),
{
    let after = remembered(memory, inp, v, elapsed);
    let l = after.velocity->0;
    if !sends_velocity(memory.velocity, v@, elapsed) {
        assert(same_velocity(v@, l@));
        assert forall|i: int| 0 <= i < 6 implies (#[trigger] w@[i]).equals(l@[i]) by {
            assert(v@[i].equals(l@[i]));
        }
    }
}

/// The right trigger switches both tool outputs together, once for each time
/// that it crosses the level.
pub proof fn trigger_switches_once(
    memory: Memory,
    inp: Input,
    v: [Double; 6],
    elapsed: u128,
    w: [Double; 6],
    later: u128,
    index: u32,
    on: bool,
)
    ensures
        sent_by(memory, inp, v, elapsed).contains(Sent::Tool { index, on }) <==> index < 2 && on
            == sucks(inp.r2) && on != memory.suction,
        !sent_by(remembered(memory, inp, v, elapsed), inp, w, later).contains(
            Sent::Tool { index, on },
        ),
{
    lemma_sent(memory, inp, v, elapsed, Sent::Tool { index, on });
    lemma_sent(
        remembered(memory, inp, v, elapsed),
        inp,
        w,
        later,
        Sent::Tool { index, on },
    );
}

proof fn lemma_names_are_words()
    ensures
        is_word("vel"@),
        is_word("estop-clear"@),
        is_word("reset"@),
        is_word("poweron"@),
        is_word("poweroff"@),
        "estop-clear"@ != "vel"@,
        "poweron"@ != "vel"@ && "poweron"@ != "estop-clear"@,
        "poweroff"@ != "vel"@ && "poweroff"@ != "estop-clear"@ && "poweroff"@ != "poweron"@,
        "reset"@ != "vel"@ && "reset"@ != "estop-clear"@ && "reset"@ != "poweron"@ && "reset"@
            != "poweroff"@,
{
    reveal_strlit("vel");
    reveal_strlit("estop-clear");
    reveal_strlit("reset");
    reveal_strlit("poweron");
    reveal_strlit("poweroff");
    assert("poweroff"@.len() == 8);
    assert("poweron"@.len() == 7);
    assert("reset"@.len() == 5);
    assert("estop-clear"@.len() == 11);
}

/// The server understands a velocity line as the velocities that its texts
/// stand for.
pub proof fn velocity_line_is_understood(
    velocity: [Double; 6],
    texts: Seq<Seq<char>>,
    numbers: Seq<Option<Double>>,
)
    requires
        texts.len() == 6,
        forall|i: int| 0 <= i < 6 ==> is_word(#[trigger] texts[i]),
        numbers.len() == 7,
        forall|i: int| 1 <= i < 7 ==> #[trigger] numbers[i] == Some(velocity@[i - 1]),
    ensures
        parsed(
            words(joined(command_words(Sent::Velocity { velocity }, texts), " "@)),
            numbers,
        ) == Ok::<ProtoCmd, Seq<char>>(
            ProtoCmd::Vel(
                velocity@[0],
                velocity@[1],
                velocity@[2],
                velocity@[3],
                velocity@[4],
                velocity@[5],
            ),
        ),
{
    lemma_names_are_words();
    let ws = command_words(Sent::Velocity { velocity }, texts);
    assert forall|i: int| 0 <= i < ws.len() implies is_word(#[trigger] ws[i]) by {
        if i > 0 {
            assert(ws[i] == texts[i - 1]);
        }
    }
    joined_words_split_back(ws);
}

/// The server understands the lines of the tool outputs: whichever output is
/// switched, and on or off.
pub proof fn tool_lines_are_understood(index: u32, on: bool, numbers: Seq<Option<Double>>)
    ensures
        parsed(
            words(joined(command_words(Sent::Tool { index, on }, Seq::empty()), " "@)),
            numbers,
        ) == Ok::<ProtoCmd, Seq<char>>(ProtoCmd::Tool { index, on }),
{
    reveal_strlit("do");
    reveal_strlit("tool");
    reveal_strlit("on");
    reveal_strlit("off");
    reveal_strlit("vel");
    reveal_strlit("estop-clear");
    reveal_strlit("poweron");
    reveal_strlit("poweroff");
    reveal_strlit("reset");
    reveal_strlit("status");
    let ws = command_words(Sent::Tool { index, on }, Seq::empty());
    let d = decimal(index as nat);
    decimal_reads_back(index as nat);
    assert forall|i: int| 0 <= i < ws.len() implies is_word(#[trigger] ws[i]) by {
        if i == 2 {
            assert forall|k: int| 0 <= k < d.len() implies !is_space(#[trigger] d[k]) by {
                assert('0' <= d[k] <= '9');
            }
        }
    }
    joined_words_split_back(ws);
    assert("on"@.len() != "off"@.len());
    assert("do"@.len() == 2);
}

/// The server understands the line of every button as its command.
pub proof fn button_lines_are_understood(numbers: Seq<Option<Double>>)
    requires
        numbers.len() == 1,
    ensures
        parsed(words(joined(command_words(Sent::EstopClear, Seq::empty()), " "@)), numbers) == Ok::<
            ProtoCmd,
            Seq<char>,
        >(ProtoCmd::EstopClear),
        parsed(words(joined(command_words(Sent::Reset, Seq::empty()), " "@)), numbers) == Ok::<
            ProtoCmd,
            Seq<char>,
        >(ProtoCmd::Reset),
        parsed(words(joined(command_words(Sent::PowerOn, Seq::empty()), " "@)), numbers) == Ok::<
            ProtoCmd,
            Seq<char>,
        >(ProtoCmd::PowerOn),
        parsed(words(joined(command_words(Sent::PowerOff, Seq::empty()), " "@)), numbers) == Ok::<
            ProtoCmd,
            Seq<char>,
        >(ProtoCmd::PowerOff),
{
    lemma_names_are_words();
    joined_words_split_back(command_words(Sent::EstopClear, Seq::empty()));
    joined_words_split_back(command_words(Sent::Reset, Seq::empty()));
    joined_words_split_back(command_words(Sent::PowerOn, Seq::empty()));
    joined_words_split_back(command_words(Sent::PowerOff, Seq::empty()));
}

/// The levels are what they are called.
pub proof fn levels_are_exact()
    ensures
        (Double { bits: Z_SCALE }).units() == whole(40),
        (Double { bits: MOVE_SCALE }).units() == whole(100),
        (Double { bits: ROTATE_SCALE }).units() == whole(20),
        2 * (Double { bits: SUCTION_LEVEL }).units() == whole(1),
        whole(40) > 0,
{
    vstd::arithmetic::power2::lemma2_to64();
    vstd::arithmetic::power2::lemma2_to64_rest();
    lemma_whole_pattern(Z_SCALE, 40);
    assert(25 * 0x1_0000_0000_0000 == 0x10_0000_0000_0000 + 0x9_0000_0000_0000);
    lemma_whole_pattern(MOVE_SCALE, 100);
    lemma_whole_pattern(ROTATE_SCALE, 20);
    lemma_whole_pattern(ONE, 1);
    values_double_with_exponent(SUCTION_LEVEL as nat);
    vstd::arithmetic::power2::lemma_pow2_pos(1074);
}

/// The left shoulder button lowers, whatever the right one does, the right one
/// alone raises, both at 40 mm/s, and without them the height stays.
pub proof fn shoulders_lower_and_raise(inp: Input, v: Seq<Double>)
    requires
        is_velocity(inp, v),
    ensures
        inp.shoulder_l ==> v[2].units() == -whole(40) && v[2].units() < 0,
        !inp.shoulder_l && inp.shoulder_r ==> v[2].units() == whole(40) && v[2].units() > 0,
        !inp.shoulder_l && !inp.shoulder_r ==> v[2].bits == 0,
{
    levels_are_exact();
    signs_change_values(Double { bits: Z_SCALE });
}

/// A velocity follows a stick: it is the whole number nearest to the scaled
/// deflection, with its direction, once the stick is farther from its middle
/// than the dead zone, and zero until then.
pub open spec fn follows(s: Stick, v: Double) -> bool {
    let far = !s.deflection.is_nan() && (s.deflection.units() > (Double { bits: DEADZONE }).units()
        || s.deflection.units() < -(Double { bits: DEADZONE }).units());
    &&& !far ==> v.bits == 0
    &&& far && s.scaled.is_finite() ==> {
        &&& v.is_finite()
        &&& exists|n: int| v.units() == #[trigger] whole(n)
        &&& -whole(1) <= 2 * (v.units() - s.scaled.units()) <= whole(1)
        &&& s.scaled.units() >= 0 ==> v.units() >= 0
        &&& s.scaled.units() <= 0 ==> v.units() <= 0
    }
}

proof fn lemma_follows(s: Stick, v: Double)
    requires
        is_stick_velocity(s, v),
    ensures
        follows(s, v),
{
    signs_change_values(s.deflection);
    if deflected(s) {
        let n = rounding_gives_nearest(s.scaled, v);
        if s.scaled.is_finite() {
            assert(v.units() == whole(n));
        }
    }
}

/// The left stick moves in X and Y, the right stick tilts around X with its
/// vertical axis and turns around Z with its horizontal one. Nothing turns
/// around Y.
pub proof fn sticks_drive_their_axes(inp: Input, v: Seq<Double>)
    requires
        is_velocity(inp, v),
    ensures
        v.len() == 6,
        follows(inp.stick_x, v[0]),
        follows(inp.stick_y, v[1]),
        follows(inp.rot_y, v[3]),
        v[4].bits == 0,
        follows(inp.rot_x, v[5]),
{
    lemma_follows(inp.stick_x, v[0]);
    lemma_follows(inp.stick_y, v[1]);
    lemma_follows(inp.rot_y, v[3]);
    lemma_follows(inp.rot_x, v[5]);
}

/// A velocity that differs in any axis from the last one sent is sent at once,
/// and so is the first one. Afterwards the server has the velocity of the
/// frame, and it is the frame's own velocity that was sent.
pub proof fn server_has_the_velocity(
    memory: Memory,
    inp: Input,
    v: [Double; 6],
    elapsed: u128,
    i: int,
    sent: [Double; 6],
)
    requires
        0 <= i < 6,
        forall|k: int| 0 <= k < 6 ==> !(#[trigger] v@[k]).is_nan(),
    ensures
        memory.velocity is None ==> sent_by(memory, inp, v, elapsed).contains(
            Sent::Velocity { velocity: v },
        ),
        memory.velocity matches Some(l) ==> (!v@[i].equals(l@[i]) ==> sent_by(
            memory,
            inp,
            v,
            elapsed,
        ).contains(Sent::Velocity { velocity: v })),
        sent_by(memory, inp, v, elapsed).contains(Sent::Velocity { velocity: sent }) ==> sent == v,
        remembered(memory, inp, v, elapsed).velocity is Some,
        v@[i].equals((remembered(memory, inp, v, elapsed).velocity->0)@[i]),
{
    lemma_sent(memory, inp, v, elapsed, Sent::Velocity { velocity: v });
    lemma_sent(memory, inp, v, elapsed, Sent::Velocity { velocity: sent });
    assert(!v@[i].is_nan());
}

/// The tool outputs are on exactly while the trigger is at least half down.
pub proof fn trigger_sucks_past_half(memory: Memory, inp: Input, v: [Double; 6], elapsed: u128)
    ensures
        remembered(memory, inp, v, elapsed).suction <==> !inp.r2.is_nan() && 2 * inp.r2.units()
            >= whole(1),
{
    levels_are_exact();
}

/// A frame sends nothing twice: one command for each reason there is to send
/// one, two for the two tool outputs.
pub proof fn frame_sends_nothing_twice(memory: Memory, inp: Input, v: [Double; 6], elapsed: u128)
    ensures
        sent_by(memory, inp, v, elapsed).len() == (if sends_velocity(
            memory.velocity,
            v@,
            elapsed,
        ) {
            1nat
        } else {
            0
        }) + (if inp.cross && !memory.cross {
            1nat
        } else {
            0
        }) + (if inp.triangle && !memory.triangle {
            1nat
        } else {
            0
        }) + (if inp.dpad_up && !memory.dpad_up {
            1nat
        } else {
            0
        }) + (if inp.dpad_down && !memory.dpad_down {
            1nat
        } else {
            0
        }) + (if remembered(memory, inp, v, elapsed).suction != memory.suction {
            2nat
        } else {
            0
        }),
{
}

/// Arguments apply from left to right: a later address or port takes the place
/// of an earlier one, and without any the given ones stand.
pub proof fn arguments_apply_in_order(
    rest: Seq<Seq<char>>,
    value: Seq<char>,
    ip: Seq<char>,
    port: nat,
)
    ensures
        understood(Seq::empty(), ip, port) == (ArgumentsView::Connect { ip, port }),
        understood(seq!["--ip"@, value] + rest, ip, port) == understood(rest, value, port),
        unsigned_value(value) matches Some(n) && n <= 65535 ==> understood(
            seq!["--port"@, value] + rest,
            ip,
            port,
        ) == understood(rest, ip, unsigned_value(value)->0),
        !(unsigned_value(value) matches Some(n) && n <= 65535) ==> understood(
            seq!["--port"@, value] + rest,
            ip,
            port,
        ) is BadPort,
        understood(seq!["--help"@] + rest, ip, port) is Help,
        understood(seq!["-h"@] + rest, ip, port) is Help,
{
    reveal_strlit("--ip");
    reveal_strlit("--port");
    reveal_strlit("--help");
    reveal_strlit("-h");
    assert("--ip"@.len() == 4 && "--port"@.len() == 6 && "--help"@.len() == 6 && "-h"@.len() == 2);
    assert("--port"@[2] == 'p' && "--help"@[2] == 'h');
    assert((seq!["--ip"@, value] + rest).skip(2) =~= rest);
    assert((seq!["--port"@, value] + rest).skip(2) =~= rest);
}

/// A velocity that any axis holds is sent again after half a second, and one
/// that no axis has is not sent while nothing changes.
pub proof fn held_velocity_is_resent(memory: Memory, v: Seq<Double>, elapsed: u128, i: int)
    requires
        0 <= i < 6,
        memory.velocity is Some,
    ensures
        !v[i].is_zero() && elapsed >= 500_000_000 ==> sends_velocity(memory.velocity, v, elapsed),
        (forall|k: int|
            0 <= k < 6 ==> (#[trigger] v[k]).is_zero() && v[k].equals(
                (memory.velocity->0)@[k],
            )) ==> !sends_velocity(memory.velocity, v, elapsed),
{
}

/// The gamepad reports every error of the server, and success never.
pub proof fn errors_are_reported(e: Seq<char>)
    ensures
        reported(reply_line(Err::<Seq<char>, Seq<char>>(e))) is Some,
        reported("ok\n"@) is None,
        reported("\n"@) is None,
{
    reveal_strlit("err ");
    reveal_strlit("\n");
    reveal_strlit("ok");
    reveal_strlit("ok\n");
    let line = reply_line(Err::<Seq<char>, Seq<char>>(e));
    assert(line[0] == 'e' && !is_space('e'));
    let (a, b) = trimming_takes_only_space(line);
    assert(a == 0) by {
        if a > 0 {
            assert(is_space(line[0]));
        }
    }
    assert(b > 0) by {
        if b == 0 {
            assert(is_space(line[0]));
        }
    }
    assert(trimmed(line)[0] == 'e');
    assert("ok"@[0] == 'o');
    let ok = "ok\n"@;
    assert(ok.drop_last() =~= "ok"@);
    assert(trimmed(ok) == trimmed(ok.drop_last()));
    assert(trimmed("ok"@) == "ok"@);
    let none = "\n"@;
    assert(trimmed(none) == trimmed(none.skip(1)));
    assert(none.skip(1).len() == 0);
}

/// What is reported of a line is the line itself, without the white space around
/// it.
pub proof fn reports_quote_the_line(line: Seq<char>)
    ensures
        reported(line) matches Some(text) ==> text.take(7) == "serve: "@ && text.skip(7) == trimmed(
            line,
        ),
        trimmed(line).len() == 0 ==> reported(line) is None,
{
    reveal_strlit("serve: ");
    if let Some(text) = reported(line) {
        assert(text.take(7) =~= "serve: "@);
        assert(text.skip(7) =~= trimmed(line));
    }
}

/// A velocity comes before anything else that a frame sends, and the two tool
/// outputs come last, in their order.
pub proof fn velocity_is_sent_first(memory: Memory, inp: Input, v: [Double; 6], elapsed: u128)
    ensures
        ({
            let sent = sent_by(memory, inp, v, elapsed);
            let n = sent.len() as int;
            let on = remembered(memory, inp, v, elapsed).suction;
            &&& sends_velocity(memory.velocity, v@, elapsed) ==> n > 0 && sent[0] == (
            Sent::Velocity { velocity: v })
            &&& on != memory.suction ==> n >= 2 && sent[n - 2] == (Sent::Tool { index: 0, on })
                && sent[n - 1] == (Sent::Tool { index: 1, on })
        }),
{
    let on = sucks(inp.r2);
    let first = Sent::Velocity { velocity: v };
    let s0 = optional(sends_velocity(memory.velocity, v@, elapsed), first);
    let s1 = s0 + optional(inp.cross && !memory.cross, Sent::EstopClear);
    let s2 = s1 + optional(inp.triangle && !memory.triangle, Sent::Reset);
    let s3 = s2 + optional(inp.dpad_up && !memory.dpad_up, Sent::PowerOn);
    let s4 = s3 + optional(inp.dpad_down && !memory.dpad_down, Sent::PowerOff);
    lemma_kept_in_front(s0, inp.cross && !memory.cross, Sent::EstopClear);
    lemma_kept_in_front(s1, inp.triangle && !memory.triangle, Sent::Reset);
    lemma_kept_in_front(s2, inp.dpad_up && !memory.dpad_up, Sent::PowerOn);
    lemma_kept_in_front(s3, inp.dpad_down && !memory.dpad_down, Sent::PowerOff);
    let change = on != memory.suction;
    let s5 = s4 + optional(change, Sent::Tool { index: 0, on });
    let s6 = s5 + optional(change, Sent::Tool { index: 1, on });
    lemma_kept_in_front(s4, change, Sent::Tool { index: 0, on });
    lemma_kept_in_front(s5, change, Sent::Tool { index: 1, on });
    assert(sent_by(memory, inp, v, elapsed) == s6);
    if change {
        assert(s6[s6.len() - 2] == s5[s5.len() - 1]);
    }
}

proof fn lemma_kept_in_front(s: Seq<Sent>, send: bool, command: Sent)
    ensures
        s.len() > 0 ==> (s + optional(send, command)).len() > 0 && (s + optional(send, command))[0]
            == s[0],
        send ==> (s + optional(send, command)).len() == s.len() + 1 && (s + optional(
            send,
            command,
        )).last() == command,
{
}

/// An address or port that is missing is told as such, and so is an argument
/// that there is not.
pub proof fn wrong_arguments_are_told(argument: Seq<char>, ip: Seq<char>, port: nat)
    ensures
        understood(seq!["--ip"@], ip, port) is MissingIp,
        understood(seq!["--port"@], ip, port) is MissingPort,
        argument != "--ip"@ && argument != "--port"@ && argument != "--help"@ && argument != "-h"@
            ==> understood(seq![argument], ip, port) == (ArgumentsView::Unknown { argument }),
{
    reveal_strlit("--ip");
    reveal_strlit("--port");
    assert("--ip"@.len() == 4 && "--port"@.len() == 6);
}

} // verus!
