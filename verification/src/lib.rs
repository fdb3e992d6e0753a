//! A verified path-translation core for a command-line shim that forwards a
//! Windows-style tool invocation to a POSIX-style subsystem.
//!
//! The library rewrites single tokens between Windows drive-letter paths
//! (`C:\Users\x`) and mount-style POSIX paths (`/mnt/c/Users/x`), quotes
//! arguments that contain spaces, and assembles the final command line.
//! Process spawning and filesystem probing stay outside the library; the
//! one filesystem fact the translator needs (whether a relative path exists)
//! is handed in as a boolean.

pub mod command;
pub mod text;
pub mod translate;
