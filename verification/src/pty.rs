//! Pseudo-terminal sessions: the registry and the protocol of a terminal's reader.

pub mod manager;
pub mod reader;
pub mod transport;
pub mod types;

pub use manager::PtyManager;
pub use types::PtyEvent;
