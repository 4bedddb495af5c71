use jaka_cli::json::{
    array_text, base_json, bool_text, fmt_array, print_dh_json, print_head_pos_json, print_joints_json,
    write_to_fd,
};

fn texts(v: &[f64]) -> Vec<String> {
    v.iter().map(|x| serde_json::to_string(x).unwrap()).collect()
}

fn value(v: &[f64]) -> serde_json::Value {
    serde_json::Value::from(v.to_vec())
}

#[test]
fn joints_are_written_as_json() {
    let v = [0.0, 90.0, -90.0, 0.5, f64::NAN, 1e21];
    assert_eq!(print_joints_json(&texts(&v)), "{\"joints\":[0.0,90.0,-90.0,0.5,null,1e+21]}\n");
    let mut map = serde_json::Map::new();
    map.insert("joints".to_string(), value(&v));
    assert_eq!(print_joints_json(&texts(&v)), format!("{}\n", serde_json::Value::Object(map)));
}

#[test]
fn poses_are_written_as_json() {
    let pos = [1.5, -2.0, 300.0];
    let rpy = [0.0, 90.0, -45.0];
    let mut map = serde_json::Map::new();
    map.insert("head_pos".to_string(), value(&pos));
    map.insert("base_pos".to_string(), value(&[0.0, 0.0, 0.0]));
    assert_eq!(
        print_head_pos_json(&texts(&pos), &None),
        format!("{}\n", serde_json::Value::Object(map.clone()))
    );
    map.insert("head_rpy".to_string(), value(&rpy));
    assert_eq!(
        print_head_pos_json(&texts(&pos), &Some(texts(&rpy))),
        format!("{}\n", serde_json::Value::Object(map))
    );
}

#[test]
fn base_poses_are_written_as_json() {
    let v = [1.5, -2.0, f64::NAN];
    let mut map = serde_json::Map::new();
    for (name, x) in ["x", "y", "z"].iter().zip(v) {
        map.insert(name.to_string(), serde_json::Value::from(x));
    }
    let t = texts(&v);
    assert_eq!(
        base_json(&t[0], &t[1], &t[2]),
        serde_json::to_string_pretty(&serde_json::Value::Object(map)).unwrap()
    );
    assert_eq!(base_json("1.5", "2.0", "3.0"), "{\n  \"x\": 1.5,\n  \"y\": 2.0,\n  \"z\": 3.0\n}");
}

#[test]
fn parameters_are_written_as_json() {
    let mut map = serde_json::Map::new();
    map.insert("alpha".to_string(), value(&[1.0, 2.0]));
    map.insert("a".to_string(), value(&[3.0, 4.0]));
    map.insert("d".to_string(), value(&[5.0]));
    map.insert("joint_homeoff".to_string(), value(&[]));
    assert_eq!(
        print_dh_json(&texts(&[1.0, 2.0]), &texts(&[3.0, 4.0]), &texts(&[5.0]), &texts(&[])),
        format!("{}\n", serde_json::Value::Object(map))
    );
}

#[test]
fn lists_are_shown_with_commas() {
    let v = vec!["1.0".to_string(), "-2.5".to_string()];
    assert_eq!(fmt_array(&v), "1.0, -2.5");
    assert_eq!(array_text(&v), "[1.0,-2.5]");
    assert_eq!(array_text(&Vec::new()), "[]");
    assert_eq!((bool_text(true), bool_text(false)), ("true", "false"));
}

#[test]
fn partial_writes_go_on() {
    assert_eq!(write_to_fd(10, 0, 4), Some(4));
    assert_eq!(write_to_fd(10, 4, 5), Some(9));
    assert_eq!(write_to_fd(10, 9, 1), None);
    assert_eq!(write_to_fd(10, 4, 0), None);
    assert_eq!(write_to_fd(10, 4, -1), None);
    assert_eq!(write_to_fd(10, 9, isize::MAX), None);
}

#[test]
fn split_writes_lose_nothing() {
    let bytes = b"{\"joints\":[]}\n";
    let mut out = Vec::new();
    let mut at = 0;
    for n in [1usize, 3, 2, 100] {
        let end = (at + n).min(bytes.len());
        out.extend_from_slice(&bytes[at..end]);
        match write_to_fd(bytes.len(), at, n as isize) {
            Some(next) => at = next,
            None => break,
        }
    }
    assert_eq!(out, bytes);
}
