//! Per-application audio mixer control: a verified session registry and
//! control layer over an OS audio subsystem.
//!
//! The library materializes a snapshot of live audio sessions, derives a
//! display identity for each one, resolves a master session or a session
//! matched by name, and plans volume/mute writes together with the exact
//! confirmation messages. The OS subsystem calls themselves (enumeration,
//! handle reads and writes, icon extraction) live outside this crate; the
//! library works on the plain values they produce.

pub mod app_name;
pub mod control;
pub mod laws;
pub mod matching;
pub mod messages;
pub mod registry;
pub mod session;
