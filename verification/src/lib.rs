//! The decisions of a JAKA robot arm driver: which controller calls a command
//! makes and in which order, how the control protocol is read and answered,
//! where a motion may go, and what a gamepad frame sends.

pub mod number;
pub mod text;
pub mod sdk;
pub mod kinematics;
pub mod steps;
pub mod power;
pub mod move_to;
pub mod base_move;
pub mod command;
pub mod plan;
pub mod drive;
pub mod notes;
pub mod jog;
pub mod json;
pub mod protocol;
pub mod gamepad;
