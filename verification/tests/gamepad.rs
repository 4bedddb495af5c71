use jaka_cli::gamepad::{
    frame, parse_args, quant, reply_report, send_vel, write_cmd, Arguments, Input, Memory, Sent, Stick,
    HEARTBEAT,
};
use jaka_cli::number::Double;
use jaka_cli::protocol::{parse_proto, ProtoCmd};

fn d(x: f64) -> Double {
    Double { bits: x.to_bits() }
}

fn f(x: Double) -> f64 {
    f64::from_bits(x.bits)
}

fn stick(deflection: f32, scale: f32) -> Stick {
    Stick { deflection: d(f64::from(deflection)), scaled: d(f64::from(deflection * scale)) }
}

fn neutral() -> Input {
    let s = stick(0.0, 1.0);
    Input {
        stick_x: s,
        stick_y: s,
        rot_x: s,
        rot_y: s,
        shoulder_l: false,
        shoulder_r: false,
        cross: false,
        triangle: false,
        dpad_up: false,
        dpad_down: false,
        r2: d(0.0),
    }
}

fn texts(v: &[Double; 6]) -> Vec<String> {
    v.iter().map(|x| format!("{:.0}", f(*x))).collect()
}

fn sent(memory: &mut Memory, inp: &Input, elapsed: u128) -> Vec<String> {
    let r = frame(memory, inp, elapsed);
    *memory = r.memory;
    r.commands.iter().map(|c| write_cmd(c, &texts(&r.velocity))).collect()
}

fn args(list: &[&str]) -> Arguments {
    parse_args(&list.iter().map(|a| a.to_string()).collect())
}

fn parse(line: &str) -> Result<ProtoCmd, String> {
    let numbers = line.split_whitespace().map(|w| w.parse::<f64>().ok().map(d)).collect();
    parse_proto(line, &numbers)
}

#[test]
fn velocities_are_whole_units() {
    assert_eq!(f(quant(d(12.5))), 13.0);
    assert_eq!(f(quant(d(-12.5))), -13.0);
    assert_eq!(f(quant(d(0.49))), 0.0);
    assert_eq!(f(quant(d(-0.49))), 0.0);
    assert_eq!(f(quant(d(0.5))), 1.0);
}

#[test]
fn the_first_frame_sends_its_velocity() {
    let mut memory = Memory::new();
    assert_eq!(sent(&mut memory, &neutral(), 0), ["vel 0 0 0 0 0 0\n"]);
    assert!(sent(&mut memory, &neutral(), HEARTBEAT * 10).is_empty());
}

#[test]
fn inputs_merge_into_one_velocity() {
    let mut inp = neutral();
    inp.stick_x = stick(1.0, 100.0);
    inp.stick_y = stick(-0.5, 100.0);
    inp.rot_y = stick(0.333, 20.0);
    inp.rot_x = stick(-1.0, 20.0);
    inp.shoulder_r = true;
    assert_eq!(sent(&mut Memory::new(), &inp, 0), ["vel 100 -50 40 7 0 -20\n"]);
    inp.shoulder_l = true;
    assert_eq!(sent(&mut Memory::new(), &inp, 0), ["vel 100 -50 -40 7 0 -20\n"]);
}

#[test]
fn a_stick_in_its_neutral_zone_is_at_rest() {
    let mut inp = neutral();
    inp.stick_x = stick(0.15, 100.0);
    inp.stick_y = stick(0.151, 100.0);
    assert_eq!(sent(&mut Memory::new(), &inp, 0), ["vel 0 15 0 0 0 0\n"]);
    inp.stick_x = stick(-0.15, 100.0);
    inp.stick_y = stick(f32::NAN, 100.0);
    assert_eq!(sent(&mut Memory::new(), &inp, 0), ["vel 0 0 0 0 0 0\n"]);
}

#[test]
fn a_steady_velocity_is_resent_with_the_heartbeat() {
    let mut memory = Memory::new();
    let mut inp = neutral();
    inp.stick_x = stick(1.0, 100.0);
    assert_eq!(sent(&mut memory, &inp, 0).len(), 1);
    assert!(sent(&mut memory, &inp, HEARTBEAT - 1).is_empty());
    assert_eq!(sent(&mut memory, &inp, HEARTBEAT), ["vel 100 0 0 0 0 0\n"]);
    assert_eq!(sent(&mut memory, &neutral(), 0), ["vel 0 0 0 0 0 0\n"]);
}

#[test]
fn buttons_fire_once() {
    let mut memory = Memory::new();
    sent(&mut memory, &neutral(), 0);
    let mut inp = neutral();
    inp.cross = true;
    inp.triangle = true;
    inp.dpad_up = true;
    inp.dpad_down = true;
    assert_eq!(
        sent(&mut memory, &inp, 0),
        ["estop-clear\n", "reset\n", "poweron\n", "poweroff\n"]
    );
    assert!(sent(&mut memory, &inp, 0).is_empty());
    assert!(sent(&mut memory, &neutral(), 0).is_empty());
    assert_eq!(sent(&mut memory, &inp, 0).len(), 4);
}

#[test]
fn the_trigger_switches_both_outputs() {
    let mut memory = Memory::new();
    sent(&mut memory, &neutral(), 0);
    let mut inp = neutral();
    inp.r2 = d(0.49);
    assert!(sent(&mut memory, &inp, 0).is_empty());
    inp.r2 = d(0.5);
    assert_eq!(sent(&mut memory, &inp, 0), ["do tool 0 on\n", "do tool 1 on\n"]);
    inp.r2 = d(1.0);
    assert!(sent(&mut memory, &inp, 0).is_empty());
    inp.r2 = d(f64::NAN);
    assert_eq!(sent(&mut memory, &inp, 0), ["do tool 0 off\n", "do tool 1 off\n"]);
}

#[test]
fn the_server_understands_what_is_sent() {
    let v = [10.0, -5.0, 40.0, 3.0, 0.0, -20.0].map(d);
    let line = send_vel(&texts(&v));
    assert_eq!(line, "vel 10 -5 40 3 0 -20");
    assert_eq!(parse(&line), Ok(ProtoCmd::Vel(v[0], v[1], v[2], v[3], v[4], v[5])));
    let buttons = vec![
        (Sent::EstopClear, ProtoCmd::EstopClear),
        (Sent::Reset, ProtoCmd::Reset),
        (Sent::PowerOn, ProtoCmd::PowerOn),
        (Sent::PowerOff, ProtoCmd::PowerOff),
    ];
    for (index, on) in [(0, true), (1, true), (0, false), (u32::MAX, false)] {
        let line = write_cmd(&Sent::Tool { index, on }, &Vec::new());
        assert_eq!(parse(&line), Ok(ProtoCmd::Tool { index, on }));
    }
    for (command, understood) in buttons {
        assert_eq!(parse(&write_cmd(&command, &Vec::new())), Ok(understood));
    }
}

#[test]
fn replies_are_reported_when_they_are_no_success() {
    assert_eq!(reply_report(" ok \r"), None);
    assert_eq!(reply_report("  "), None);
    assert_eq!(reply_report("err empty line\n"), Some("serve: err empty line".to_string()));
}

#[test]
fn arguments_name_the_server() {
    match args(&[]) {
        Arguments::Connect { ip, port } => {
            assert_eq!((ip.as_str(), port), ("127.0.0.1", 5533))
        }
        _ => panic!("expected a connection"),
    }
    match args(&["--port", "80", "--ip", "10.0.0.1", "--port", "+81"]) {
        Arguments::Connect { ip, port } => assert_eq!((ip.as_str(), port), ("10.0.0.1", 81)),
        _ => panic!("expected a connection"),
    }
    match args(&["--ip", "--help"]) {
        Arguments::Connect { ip, .. } => assert_eq!(ip, "--help"),
        _ => panic!("expected a connection"),
    }
}

#[test]
fn wrong_arguments_are_told() {
    assert!(matches!(args(&["--help", "--port"]), Arguments::Help));
    assert!(matches!(args(&["-h"]), Arguments::Help));
    assert!(matches!(args(&["--ip"]), Arguments::MissingIp));
    assert!(matches!(args(&["--port"]), Arguments::MissingPort));
    assert!(matches!(args(&["--port", "65536"]), Arguments::BadPort));
    assert!(matches!(args(&["--port", "x", "--help"]), Arguments::BadPort));
    match args(&["--ip", "a", "--fast"]) {
        Arguments::Unknown { argument } => assert_eq!(argument, "--fast"),
        _ => panic!("expected an unknown argument"),
    }
}
