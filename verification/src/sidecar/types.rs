//! The wire protocol between the manager and a session worker.
//!
//! Both directions carry one JSON object per line. Every object has a `type` member
//! that names the variant in snake case; the other members are the variant's fields,
//! keyed in camel case. A field that is absent is left out of the object: it is never
//! written as `null`.

use vstd::prelude::*;
use crate::json::{value_tree, JsonTree};
use crate::text::text_of;

verus! {

/// Commands sent from the manager to a session worker.
#[derive(Debug, Clone)]
pub enum SidecarCommand {
    StartSession {
        session_id: String,
        project_path: String,
        prompt: String,
        model: Option<String>,
        max_budget_usd: Option<serde_json::Number>,
        resume_session_id: Option<String>,
    },
    SendMessage { session_id: String, message: String },
    AbortSession { session_id: String },
    EndSession { session_id: String },
    ToolApprovalResponse {
        request_id: String,
        allowed: bool,
        updated_permissions: Option<serde_json::Value>,
    },
}

/// Events received from a session worker.
#[derive(Debug, Clone)]
pub enum SidecarEvent {
    SessionStarted { session_id: String, sdk_session_id: String },
    Message {
        session_id: String,
        role: String,
        content: String,
        thinking: Option<String>,
        tool_calls: Option<serde_json::Value>,
        usage: Option<serde_json::Value>,
    },
    ToolUse { session_id: String, tool_name: String, input: serde_json::Value },
    ToolResult { session_id: String, tool_name: String, output: String },
    ToolApprovalRequest {
        session_id: String,
        request_id: String,
        tool_name: String,
        input: serde_json::Value,
        suggestions: Option<serde_json::Value>,
    },
    ToolProgress { session_id: String, tool_name: String, elapsed_seconds: serde_json::Number },
    SessionCompleted {
        session_id: String,
        sdk_session_id: String,
        total_cost_usd: Option<serde_json::Number>,
        duration_ms: Option<serde_json::Number>,
    },
    SessionFailed { session_id: String, error: String },
    Error { message: String },
}

/// What is handed to the application's event sink for one decoded event.
#[derive(Debug, Clone)]
pub struct AgentEventPayload {
    pub event: SidecarEvent,
}

/// Why a line from a worker could not be decoded as an event.
#[derive(Debug, Clone, Copy, PartialEq, Eq, Structural)]
pub enum ProtocolError {
    /// The line is not JSON.
    InvalidJson,
    /// The line is JSON, but not an object.
    NotAnObject,
    /// The object has no `type` member.
    MissingType,
    /// The `type` member is not a string.
    InvalidType,
    /// The `type` member names no known event.
    UnknownType,
    /// A field that the event requires is absent.
    MissingField,
    /// A field holds a value of the wrong kind.
    InvalidField,
}

/// A command as plain values.
pub enum CommandView {
    StartSession {
        session_id: Seq<char>,
        project_path: Seq<char>,
        prompt: Seq<char>,
        model: Option<Seq<char>>,
        max_budget_usd: Option<serde_json::Number>,
        resume_session_id: Option<Seq<char>>,
    },
    SendMessage { session_id: Seq<char>, message: Seq<char> },
    AbortSession { session_id: Seq<char> },
    EndSession { session_id: Seq<char> },
    ToolApprovalResponse {
        request_id: Seq<char>,
        allowed: bool,
        updated_permissions: Option<JsonTree>,
    },
}

/// An event as plain values.
pub enum EventView {
    SessionStarted { session_id: Seq<char>, sdk_session_id: Seq<char> },
    Message {
        session_id: Seq<char>,
        role: Seq<char>,
        content: Seq<char>,
        thinking: Option<Seq<char>>,
        tool_calls: Option<JsonTree>,
        usage: Option<JsonTree>,
    },
    ToolUse { session_id: Seq<char>, tool_name: Seq<char>, input: JsonTree },
    ToolResult { session_id: Seq<char>, tool_name: Seq<char>, output: Seq<char> },
    ToolApprovalRequest {
        session_id: Seq<char>,
        request_id: Seq<char>,
        tool_name: Seq<char>,
        input: JsonTree,
        suggestions: Option<JsonTree>,
    },
    ToolProgress { session_id: Seq<char>, tool_name: Seq<char>, elapsed_seconds: serde_json::Number },
    SessionCompleted {
        session_id: Seq<char>,
        sdk_session_id: Seq<char>,
        total_cost_usd: Option<serde_json::Number>,
        duration_ms: Option<serde_json::Number>,
    },
    SessionFailed { session_id: Seq<char>, error: Seq<char> },
    Error { message: Seq<char> },
}

/// The tree of an optional value.
pub open spec fn tree_of(v: Option<serde_json::Value>) -> Option<JsonTree> {
    match v {
        Some(v) => Some(value_tree(v)),
        None => None,
    }
}

impl View for SidecarCommand {
    type V = CommandView;

    open spec fn view(&self) -> CommandView {
        match *self {
            SidecarCommand::StartSession {
                session_id,
                project_path,
                prompt,
                model,
                max_budget_usd,
                resume_session_id,
            } => CommandView::StartSession {
                session_id: session_id@,
                project_path: project_path@,
                prompt: prompt@,
                model: text_of(model),
                max_budget_usd,
                resume_session_id: text_of(resume_session_id),
            },
            SidecarCommand::SendMessage { session_id, message } => CommandView::SendMessage {
                session_id: session_id@,
                message: message@,
            },
            SidecarCommand::AbortSession { session_id } => CommandView::AbortSession {
                session_id: session_id@,
            },
            SidecarCommand::EndSession { session_id } => CommandView::EndSession {
                session_id: session_id@,
            },
            SidecarCommand::ToolApprovalResponse {
                request_id,
                allowed,
                updated_permissions,
            } => CommandView::ToolApprovalResponse {
                request_id: request_id@,
                allowed,
                updated_permissions: tree_of(updated_permissions),
            },
        }
    }
}

impl View for SidecarEvent {
    type V = EventView;

    open spec fn view(&self) -> EventView {
        match *self {
            SidecarEvent::SessionStarted { session_id, sdk_session_id } => EventView::SessionStarted {
                session_id: session_id@,
                sdk_session_id: sdk_session_id@,
            },
            SidecarEvent::Message { session_id, role, content, thinking, tool_calls, usage } => EventView::Message {
                session_id: session_id@,
                role: role@,
                content: content@,
                thinking: text_of(thinking),
                tool_calls: tree_of(tool_calls),
                usage: tree_of(usage),
            },
            SidecarEvent::ToolUse { session_id, tool_name, input } => EventView::ToolUse {
                session_id: session_id@,
                tool_name: tool_name@,
                input: value_tree(input),
            },
            SidecarEvent::ToolResult { session_id, tool_name, output } => EventView::ToolResult {
                session_id: session_id@,
                tool_name: tool_name@,
                output: output@,
            },
            SidecarEvent::ToolApprovalRequest {
                session_id,
                request_id,
                tool_name,
                input,
                suggestions,
            } => EventView::ToolApprovalRequest {
                session_id: session_id@,
                request_id: request_id@,
                tool_name: tool_name@,
                input: value_tree(input),
                suggestions: tree_of(suggestions),
            },
            SidecarEvent::ToolProgress { session_id, tool_name, elapsed_seconds } => EventView::ToolProgress {
                session_id: session_id@,
                tool_name: tool_name@,
                elapsed_seconds,
            },
            SidecarEvent::SessionCompleted {
                session_id,
                sdk_session_id,
                total_cost_usd,
                duration_ms,
            } => EventView::SessionCompleted {
                session_id: session_id@,
                sdk_session_id: sdk_session_id@,
                total_cost_usd,
                duration_ms,
            },
            SidecarEvent::SessionFailed { session_id, error } => EventView::SessionFailed {
                session_id: session_id@,
                error: error@,
            },
            SidecarEvent::Error { message } => EventView::Error { message: message@ },
        }
    }
}

impl View for AgentEventPayload {
    type V = EventView;

    open spec fn view(&self) -> EventView {
        self.event@
    }
}

/// The session that an event comes from. Only the global `Error` event names none.
pub open spec fn event_session(event: EventView) -> Option<Seq<char>> {
    match event {
        EventView::SessionStarted { session_id, .. } => Some(session_id),
        EventView::Message { session_id, .. } => Some(session_id),
        EventView::ToolUse { session_id, .. } => Some(session_id),
        EventView::ToolResult { session_id, .. } => Some(session_id),
        EventView::ToolApprovalRequest { session_id, .. } => Some(session_id),
        EventView::ToolProgress { session_id, .. } => Some(session_id),
        EventView::SessionCompleted { session_id, .. } => Some(session_id),
        EventView::SessionFailed { session_id, .. } => Some(session_id),
        EventView::Error { .. } => None,
    }
}

impl SidecarEvent {
    /// The id of the session that this event comes from, where it names one.
    pub fn session_id(&self) -> (id: Option<&String>)
        ensures
            match id {
                Some(id) => event_session(self@) == Some(id@),
                None => event_session(self@) is None,
            },
    {
        match self {
            SidecarEvent::SessionStarted { session_id, .. } => Some(session_id),
            SidecarEvent::Message { session_id, .. } => Some(session_id),
            SidecarEvent::ToolUse { session_id, .. } => Some(session_id),
            SidecarEvent::ToolResult { session_id, .. } => Some(session_id),
            SidecarEvent::ToolApprovalRequest { session_id, .. } => Some(session_id),
            SidecarEvent::ToolProgress { session_id, .. } => Some(session_id),
            SidecarEvent::SessionCompleted { session_id, .. } => Some(session_id),
            SidecarEvent::SessionFailed { session_id, .. } => Some(session_id),
            SidecarEvent::Error { .. } => None,
        }
    }
}

/// Every event but the global `Error` carries the id of the session that it comes from.
pub proof fn lemma_only_error_is_global(event: EventView)
    ensures
        event_session(event) is None <==> event is Error,
{
}

} // verus!
