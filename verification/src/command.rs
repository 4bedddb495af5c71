//! The commands of the driver.

use crate::move_to::Wanted;
use crate::number::Double;
use crate::sdk::{CartesianPose, CartesianTran};
use vstd::prelude::*;

verus! {

/// One command of the driver.
#[derive(Debug)]
pub enum Command {
    Status,
    PowerOn,
    PowerOff,
    EstopClear,
    Inspect,
    InspectPos,
    Dh,
    SetBase,
    /// Rotate one joint by degrees, speed in rad/s.
    Rot { joint: i32, deg: Double, speed: Double },
    /// Restore recorded joints, the default pose without a file; speed in rad/s.
    Restore { file: Option<String>, speed: Double },
    /// Move the TCP, speed in mm/s.
    MoveTo {
        x: Option<Double>,
        y: Option<Double>,
        z: Option<Double>,
        speed: Double,
        rx: Option<Double>,
        ry: Option<Double>,
        rz: Option<Double>,
        rel: bool,
        pose: Option<String>,
    },
    /// Switch a tool output on or off.
    Tool { index: u32, on: bool },
    /// Serve the control protocol, without a controller when `mock`.
    Serve { port: u16, mock: bool },
}

/// The position that a move asks for: all three coordinates, or none when the
/// pose comes from a file. Nothing when a coordinate is missing.
pub open spec fn asked_position(
    x: Option<Double>,
    y: Option<Double>,
    z: Option<Double>,
    from_file: bool,
) -> Option<CartesianTran> {
    if from_file {
        Some(CartesianPose::origin().tran)
    } else {
        match (x, y, z) {
            (Some(x), Some(y), Some(z)) => Some(CartesianTran { x, y, z }),
            _ => None,
        }
    }
}

/// The message for a move without a position.
pub open spec fn missing_message() -> Seq<char> {
    "x, y, z are required unless --pose is given"@
}

/// The message for a move without a position.
pub fn missing_position() -> (r: String)
    ensures
        r@ == missing_message(),
{
    "x, y, z are required unless --pose is given".to_owned()
}

/// What a move asks for. Without a pose file all three coordinates are needed.
pub fn move_request(
    x: Option<Double>,
    y: Option<Double>,
    z: Option<Double>,
    rx: Option<Double>,
    ry: Option<Double>,
    rz: Option<Double>,
    from_file: bool,
) -> (r: Result<Wanted, String>)
    ensures
        r is Ok <==> asked_position(x, y, z, from_file) is Some,
        r matches Ok(w) ==> w == (Wanted {
            tran: asked_position(x, y, z, from_file)->0,
            rx,
            ry,
            rz,
        }),
        r matches Err(e) ==> e@ == missing_message(),
{
    if from_file {
        return Ok(Wanted { tran: CartesianPose::zero().tran, rx, ry, rz });
    }
    match (x, y, z) {
        (Some(x), Some(y), Some(z)) => Ok(Wanted { tran: CartesianTran { x, y, z }, rx, ry, rz }),
        _ => Err(missing_position()),
    }
}

/// A move without a pose file needs each of its coordinates and asks for them as
/// they were given.
pub proof fn coordinates_are_asked_as_given(
    x: Option<Double>,
    y: Option<Double>,
    z: Option<Double>,
)
    ensures
        asked_position(x, y, z, false) is Some <==> x is Some && y is Some && z is Some,
        asked_position(x, y, z, false) matches Some(p) ==> x == Some(p.x) && y == Some(p.y) && z
            == Some(p.z),
        asked_position(x, y, z, true) is Some,
{
}

} // verus!
