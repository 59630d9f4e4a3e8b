//! Control of a PulseAudio server without input or output: the session and
//! its event loop as a state machine, the volume arithmetic, and controllers
//! of devices and streams that say which request goes to the server next
//! and what the server's answers come to.

pub mod controllers;
pub mod errors;
pub mod pending;
pub mod session;
pub mod volume;
