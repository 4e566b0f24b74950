//! Host-side core of a remote-control agent: session epochs for cooperative
//! cancellation of capture workers, the capture worker's decisions, frame
//! encoding, display resolution, and translation of viewer input into
//! platform input events.

pub mod session;
pub mod encoder;
pub mod monitor;
pub mod keymap;
pub mod input;
pub mod worker;
