//! Decision logic of a small activity tracker: it parses the daemon's pid
//! file, frames the activity events it reports, decides what the monitor loop
//! does next, and builds the shell commands that the Windows build runs.

pub mod control;
pub mod event;
pub mod monitor;
pub mod pidfile;
pub mod text;
pub mod windows;
