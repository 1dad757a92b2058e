//! Native shell logic for the PlumaMD desktop markdown editor.
//!
//! The shell's observable behaviour is small and entirely decidable from
//! plain values: read the process argument vector minus the program name,
//! build a fixed two-level application menu, and dispatch on the signals the
//! windowing framework delivers (page load, menu activation, argument
//! query).  Everything here is that decision logic, stated and verified;
//! the surrounding process (window creation, event delivery, process exit)
//! performs the decided actions.

pub mod args;
pub mod dispatch;
pub mod menu;
