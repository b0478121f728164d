//! The core of a desktop workbench for coding agents: what it decides when it runs one
//! worker process per agent session and one pseudo-terminal per terminal.
//!
//! The crate touches no process, pipe or terminal. It keeps the registries of
//! sessions and terminals, reads and writes the JSON lines that are exchanged with a
//! worker, says what a reader of a worker's output or of a terminal emits and when it
//! stops, and holds the rules by which project files are listed and labelled. The
//! application around it spawns, reads, writes and kills, and hands over what it saw.
//!
//! Every function states what it returns or changes, and Verus proves that it does.
//! The few calls into `serde_json`, `base64` and the standard library that are
//! believed rather than proved are marked as trusted where they stand.

pub mod commands;
pub mod debug_log;
pub mod error;
pub mod json;
pub mod notifications;
pub mod pty;
pub mod registry;
pub mod sidecar;
pub mod text;
