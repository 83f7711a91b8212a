//! Logic of a small utility that restarts one hardware device: enumerate the
//! devices of a class, locate the one whose instance identifier matches a
//! target, and ask the device-configuration subsystem to restart it.
//!
//! The operating-system calls themselves live outside this crate; here stand
//! the decisions around them, verified: decoding the identifier buffers that
//! the subsystem fills, scanning for the target identifier, and the
//! orchestration of the whole run, including the release of the enumeration
//! handle on every path.

pub mod action;
pub mod decode;
pub mod encode;
pub mod locate;
pub mod message;
pub mod orchestrate;
