//! Agent sessions: the wire protocol spoken with a session worker.

pub mod launch;
pub mod manager;
pub mod relay;
pub mod types;
pub mod wire;

pub use types::{AgentEventPayload, ProtocolError, SidecarCommand, SidecarEvent};
