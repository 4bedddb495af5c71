//! The JSON documents that the driver writes, each number given by its text, and
//! how they leave the program.

use crate::text::{concat2, concat3, contents, join, joined};
use vstd::prelude::*;

verus! {

/// A JSON truth value.
pub open spec fn json_bool(b: bool) -> Seq<char> {
    if b {
        "true"@
    } else {
        "false"@
    }
}

/// A JSON array of numbers.
pub open spec fn json_array(numbers: Seq<Seq<char>>) -> Seq<char> {
    "["@ + joined(numbers, ","@) + "]"@
}

/// A JSON truth value.
pub fn bool_text(b: bool) -> (r: &'static str)
    ensures
        r@ == json_bool(b),
{
    if b {
        "true"
    } else {
        "false"
    }
}

/// A JSON array of numbers, each given by its text.
pub fn array_text(numbers: &Vec<String>) -> (r: String)
    ensures
        r@ == json_array(contents(numbers@)),
{
    concat3("[", join(numbers, ",").as_str(), "]")
}

/// Numbers in one line of the log, each given by its text.
pub fn fmt_array(numbers: &Vec<String>) -> (r: String)
    ensures
        r@ == joined(contents(numbers@), ", "@),
{
    join(numbers, ", ")
}

/// The document of the joint angles, in degrees.
pub open spec fn joints_document(joints: Seq<Seq<char>>) -> Seq<char> {
    "{\"joints\":"@ + json_array(joints) + "}\n"@
}

/// The document of the joint angles, in degrees.
pub fn print_joints_json(joints: &Vec<String>) -> (r: String)
    ensures
        r@ == joints_document(contents(joints@)),
{
    concat3("{\"joints\":", array_text(joints).as_str(), "}\n")
}

/// The document of the TCP pose relative to the base frame, whose origin is at
/// zero. Positions are in mm, orientations in degrees. The names are in
/// alphabetical order, and there is no orientation where none is given.
pub open spec fn head_document(position: Seq<Seq<char>>, angles: Option<Seq<Seq<char>>>) -> Seq<
    char,
> {
    "{\"base_pos\":[0.0,0.0,0.0],\"head_pos\":"@ + json_array(position) + (match angles {
        Some(a) => ",\"head_rpy\":"@ + json_array(a),
        None => Seq::empty(),
    }) + "}\n"@
}

/// The document of the TCP pose, with its orientation where that is given.
pub fn print_head_pos_json(position: &Vec<String>, angles: &Option<Vec<String>>) -> (r: String)
    ensures
        r@ == head_document(
            contents(position@),
            match angles {
                Some(a) => Some(contents(a@)),
                None => None,
            },
        ),
{
    let mut s = concat2(
        "{\"base_pos\":[0.0,0.0,0.0],\"head_pos\":",
        array_text(position).as_str(),
    );
    match angles {
        Some(a) => {
            s.append(concat2(",\"head_rpy\":", array_text(a).as_str()).as_str());
        },
        None => {
            assert(s@ =~= s@ + Seq::<char>::empty());
        },
    }
    s.append("}\n");
    s
}

/// The document of the DH parameters, its names in alphabetical order.
pub open spec fn dh_document(
    alpha: Seq<Seq<char>>,
    a: Seq<Seq<char>>,
    d: Seq<Seq<char>>,
    joint_homeoff: Seq<Seq<char>>,
) -> Seq<char> {
    "{\"a\":"@ + json_array(a) + ",\"alpha\":"@ + json_array(alpha) + ",\"d\":"@ + json_array(d)
        + ",\"joint_homeoff\":"@ + json_array(joint_homeoff) + "}\n"@
}

/// The document of the DH parameters.
pub fn print_dh_json(
    alpha: &Vec<String>,
    a: &Vec<String>,
    d: &Vec<String>,
    joint_homeoff: &Vec<String>,
) -> (r: String)
    ensures
        r@ == dh_document(
            contents(alpha@),
            contents(a@),
            contents(d@),
            contents(joint_homeoff@),
        ),
{
    let mut s = concat2("{\"a\":", array_text(a).as_str());
    s.append(",\"alpha\":");
    s.append(array_text(alpha).as_str());
    s.append(",\"d\":");
    s.append(array_text(d).as_str());
    s.append(",\"joint_homeoff\":");
    s.append(array_text(joint_homeoff).as_str());
    s.append("}\n");
    s
}

/// The document of the base pose: its position in mm, one coordinate per line.
pub open spec fn base_document(x: Seq<char>, y: Seq<char>, z: Seq<char>) -> Seq<char> {
    "{\n  \"x\": "@ + x + ",\n  \"y\": "@ + y + ",\n  \"z\": "@ + z + "\n}"@
}

/// The document of the base pose, each coordinate given by its text.
pub fn base_json(x: &str, y: &str, z: &str) -> (r: String)
    ensures
        r@ == base_document(x@, y@, z@),
{
    let mut s = concat3("{\n  \"x\": ", x, ",\n  \"y\": ");
    s.append(y);
    s.append(",\n  \"z\": ");
    s.append(z);
    s.append("\n}");
    s
}

/// Where to go on after a write of `n` more bytes, nothing at the end and after
/// a failure.
pub open spec fn goes_on(len: int, written: int, n: int) -> Option<int> {
    if 0 < n && written + n < len {
        Some(written + n)
    } else {
        None
    }
}

/// Where to go on after a write. `written` bytes of `len` had been written
/// before, and the system took `n` more, or none when it failed. A partial write
/// is retried from the first byte that is missing; nothing is left to do at the
/// end and after a failure.
pub fn write_to_fd(len: usize, written: usize, n: isize) -> (r: Option<usize>)
    requires
        written < len,
    ensures
        r is Some <==> goes_on(len as int, written as int, n as int) is Some,
        r matches Some(next) ==> Some(next as int) == goes_on(len as int, written as int, n as int),
{
    if n <= 0 {
        return None;
    }
    let taken: usize = n as usize;
    if taken < len - written {
        Some(written + taken)
    } else {
        None
    }
}

/// What has been written from `written` on, when the system takes these numbers
/// of bytes one after the other, and never more than are left.
pub open spec fn taken(bytes: Seq<u8>, written: int, ns: Seq<int>) -> Seq<u8>
    decreases ns.len(),
{
    if ns.len() == 0 || ns[0] <= 0 {
        Seq::empty()
    } else {
        match goes_on(bytes.len() as int, written, ns[0]) {
            Some(next) => bytes.subrange(written, next) + taken(bytes, next, ns.skip(1)),
            None => bytes.skip(written),
        }
    }
}

/// However the system splits the writes, the bytes go out in order, none twice
/// and none left out, and all of them when no write fails.
pub proof fn writes_lose_nothing(bytes: Seq<u8>, written: int, ns: Seq<int>)
    requires
        0 <= written < bytes.len(),
    ensures
        written + taken(bytes, written, ns).len() <= bytes.len(),
        taken(bytes, written, ns) == bytes.subrange(
            written,
            written + taken(bytes, written, ns).len(),
        ),
        ns.len() >= bytes.len() - written && (forall|i: int|
            0 <= i < ns.len() ==> #[trigger] ns[i] > 0) ==> taken(bytes, written, ns)
            == bytes.skip(written),
    decreases ns.len(),
{
    if ns.len() > 0 && ns[0] > 0 {
        let t = taken(bytes, written, ns);
        match goes_on(bytes.len() as int, written, ns[0]) {
            Some(next) => {
                let rest = taken(bytes, next, ns.skip(1));
                writes_lose_nothing(bytes, next, ns.skip(1));
                assert(t =~= bytes.subrange(written, written + t.len()));
                if ns.len() >= bytes.len() - written && (forall|i: int|
                    0 <= i < ns.len() ==> #[trigger] ns[i] > 0) {
                    assert(forall|i: int| 0 <= i < ns.skip(1).len() ==> #[trigger] ns.skip(1)[i] > 0);
                    assert(rest == bytes.skip(next));
                    assert(t =~= bytes.skip(written));
                }
            },
            None => {
                assert(t =~= bytes.subrange(written, written + t.len()));
            },
        }
    }
}

} // verus!
