//! Control-and-coordination core of a tray-resident SMT (hyperthreading) switch.
//!
//! - [`smt`]: the status of the kernel's SMT knob and how its text is read.
//! - [`control`]: the protocol by which the setting is written, with its one
//!   step of privilege escalation.
//! - [`tray`]: the bridge from the tray menu to the application.
//! - [`app`]: the state machine that owns what the window shows.
//! - [`icon`]: the tray icon's picture.
//!
//! Nothing here touches a file, a process or a window. Each module says what
//! is to be done and what follows from what was done; doing it is the
//! caller's part.

pub mod app;
pub mod control;
pub mod icon;
pub mod smt;
pub mod tray;
