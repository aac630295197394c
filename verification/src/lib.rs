//! Routing MIDI events between devices and small applications, with the
//! byte-level logic of the supported devices (image scaling, pad indices,
//! SysEx frames) and the decisions of the applications specified and proved with Verus.

pub mod apps;
pub mod image;
pub mod midi;
pub mod server;
pub mod spotify;
pub mod router;
pub mod cli;
pub mod launchpad;
