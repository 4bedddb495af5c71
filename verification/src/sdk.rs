//! The data that the JAKA controller SDK exchanges with its callers, and its
//! error codes.

use crate::number::Double;
use crate::text::{concat2, integer, integer_is_unbroken, integer_text, unbroken};
use vstd::prelude::*;

verus! {

/// Robot control handle.
pub type JKHD = i32;

/// SDK truth value, false is zero.
pub type BOOL = i32;

/// SDK error code.
#[allow(non_camel_case_types)]
pub type errno_t = i32;

/// The code of a call that succeeded.
pub const ERR_SUCC: errno_t = 0;

/// Joint position in radians.
#[derive(Clone, Copy, Debug)]
pub struct JointValue {
    pub j_val: [Double; 6],
}

/// Cartesian translation in mm.
#[derive(Clone, Copy, Debug, PartialEq, Eq, Structural)]
pub struct CartesianTran {
    pub x: Double,
    pub y: Double,
    pub z: Double,
}

/// Cartesian orientation as roll, pitch and yaw in radians.
#[derive(Clone, Copy, Debug, PartialEq, Eq, Structural)]
pub struct Rpy {
    pub rx: Double,
    pub ry: Double,
    pub rz: Double,
}

/// Cartesian pose, translation in mm and orientation in radians.
#[derive(Clone, Copy, Debug, PartialEq, Eq, Structural)]
pub struct CartesianPose {
    pub tran: CartesianTran,
    pub rpy: Rpy,
}

/// Simplified robot state.
#[derive(Clone, Copy, Debug, PartialEq, Eq, Structural)]
pub struct RobotState {
    pub estoped: BOOL,
    pub powered_on: BOOL,
    pub servo_enabled: BOOL,
}

/// Denavit-Hartenberg parameters.
#[derive(Clone, Copy, Debug)]
pub struct DHParam {
    pub alpha: [Double; 6],
    pub a: [Double; 6],
    pub d: [Double; 6],
    pub joint_homeoff: [Double; 6],
}

/// Motion mode.
#[derive(Clone, Copy, Debug, PartialEq, Eq, Structural)]
pub enum MoveMode {
    Abs,
    Incr,
    Continue,
}

/// Coordinate system.
#[derive(Clone, Copy, Debug, PartialEq, Eq, Structural)]
pub enum CoordType {
    Base,
    Joint,
    Tool,
}

/// Optional motion parameters. No motion of this driver has any.
#[derive(Clone, Copy, Debug)]
pub struct OptionalCond {
    _private: [u8; 0],
}

/// The number zero.
pub open spec fn zero_number() -> Double {
    Double { bits: 0 }
}

impl JointValue {
    /// All joints at zero.
    pub fn zero() -> (r: JointValue)
        ensures
            forall|i: int| 0 <= i < 6 ==> r.j_val@[i] == zero_number(),
    {
        let z = Double { bits: 0 };
        JointValue { j_val: [z, z, z, z, z, z] }
    }
}

impl CartesianPose {
    /// The pose with all coordinates and angles at zero.
    pub open spec fn origin() -> CartesianPose {
        let z = zero_number();
        CartesianPose { tran: CartesianTran { x: z, y: z, z }, rpy: Rpy { rx: z, ry: z, rz: z } }
    }

    /// The pose with all coordinates and angles at zero.
    pub fn zero() -> (r: CartesianPose)
        ensures
            r == CartesianPose::origin(),
    {
        let z = Double { bits: 0 };
        CartesianPose { tran: CartesianTran { x: z, y: z, z }, rpy: Rpy { rx: z, ry: z, rz: z } }
    }
}

impl Default for RobotState {
    fn default() -> (r: RobotState)
        ensures
            r == (RobotState { estoped: 0, powered_on: 0, servo_enabled: 0 }),
    {
        RobotState { estoped: 0, powered_on: 0, servo_enabled: 0 }
    }
}

impl MoveMode {
    /// The number by which the SDK knows the mode.
    pub fn code(self) -> (r: i32)
        ensures
            r == match self {
                MoveMode::Abs => 0i32,
                MoveMode::Incr => 1i32,
                MoveMode::Continue => 2i32,
            },
    {
        match self {
            MoveMode::Abs => 0,
            MoveMode::Incr => 1,
            MoveMode::Continue => 2,
        }
    }
}

impl CoordType {
    /// The number by which the SDK knows the coordinate system.
    pub fn code(self) -> (r: i32)
        ensures
            r == match self {
                CoordType::Base => 0i32,
                CoordType::Joint => 1i32,
                CoordType::Tool => 2i32,
            },
    {
        match self {
            CoordType::Base => 0,
            CoordType::Joint => 1,
            CoordType::Tool => 2,
        }
    }
}

/// The name of an error code.
pub open spec fn code_name(code: int) -> Seq<char> {
    if code == 0 {
        "Success"@
    } else if code == -1 {
        "Invalid handler"@
    } else if code == -2 {
        "Invalid parameter"@
    } else if code == -3 {
        "Connection failed"@
    } else if code == -5 {
        "E-stop pressed"@
    } else if code == -6 {
        "Not powered on"@
    } else if code == -7 {
        "Not enabled"@
    } else if code == -10 {
        "Program running"@
    } else if code == -12 {
        "Motion abnormal"@
    } else if code == -21 {
        "Emergency stop"@
    } else if code == -22 {
        "Soft limit reached"@
    } else if code == -41 {
        "Joint move failed"@
    } else if code == -42 {
        "Circular move failed"@
    } else if code == -999 {
        "SDK exception"@
    } else {
        "Unknown error"@
    }
}

/// The message for a call `label` that failed with `code`.
pub open spec fn failure(label: Seq<char>, code: int) -> Seq<char> {
    label + " failed with error code "@ + integer(code) + ": "@ + code_name(code)
}

/// Human readable error names.
pub fn err_name(code: errno_t) -> (r: &'static str)
    ensures
        r@ == code_name(code as int),
{
    match code {
        0 => "Success",
        -1 => "Invalid handler",
        -2 => "Invalid parameter",
        -3 => "Connection failed",
        -5 => "E-stop pressed",
        -6 => "Not powered on",
        -7 => "Not enabled",
        -10 => "Program running",
        -12 => "Motion abnormal",
        -21 => "Emergency stop",
        -22 => "Soft limit reached",
        -41 => "Joint move failed",
        -42 => "Circular move failed",
        -999 => "SDK exception",
        _ => "Unknown error",
    }
}

/// Check an SDK return code and turn failures into a descriptive error.
pub fn check(label: &str, code: errno_t) -> (r: Result<(), String>)
    ensures
        r is Ok <==> code == ERR_SUCC,
        r matches Err(e) ==> e@ == failure(label@, code as int),
{
    if code == ERR_SUCC {
        Ok(())
    } else {
        let mut text = concat2(label, " failed with error code ");
        text.append(integer_text(code).as_str());
        text.append(": ");
        text.append(err_name(code));
        Err(text)
    }
}

/// The message for a failed call holds no line break when its label holds none.
pub proof fn failure_is_unbroken(label: Seq<char>, code: int)
    requires
        unbroken(label),
    ensures
        unbroken(failure(label, code)),
{
    reveal_strlit(" failed with error code ");
    reveal_strlit(": ");
    reveal_strlit("Success");
    reveal_strlit("Invalid handler");
    reveal_strlit("Invalid parameter");
    reveal_strlit("Connection failed");
    reveal_strlit("E-stop pressed");
    reveal_strlit("Not powered on");
    reveal_strlit("Not enabled");
    reveal_strlit("Program running");
    reveal_strlit("Motion abnormal");
    reveal_strlit("Emergency stop");
    reveal_strlit("Soft limit reached");
    reveal_strlit("Joint move failed");
    reveal_strlit("Circular move failed");
    reveal_strlit("SDK exception");
    reveal_strlit("Unknown error");
    integer_is_unbroken(code);
    assert(unbroken(code_name(code)));
    let start = label + " failed with error code "@ + integer(code);
    assert(unbroken(start));
}

} // verus!
