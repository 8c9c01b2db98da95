//! Control plane of a synthesizer voice module: conditioning of the digital
//! inputs, the snapshot handed between tasks, the queue policies that bridge
//! tasks of different priority, and the timed digital outputs.

pub mod control_input;
pub mod control_output;
pub mod controller;
pub mod idle;
pub mod queue_utils;
