//! A permission-gated screen capture pipeline: the state machine that runs
//! one capture sequence at a time, the clamping of requested regions to the
//! displays, the binding of the global trigger key, and the permission
//! state that gates every capture.

pub mod bounds;
pub mod capture;
pub mod error;
pub mod hotkey;
pub mod orchestrator;
pub mod permission;
