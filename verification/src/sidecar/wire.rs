//! Reading and writing the protocol's JSON objects.
//!
//! The grammar of the protocol is stated here over `JsonTree`: which members an
//! object of each variant has, in which order they are written, which of them may be
//! absent, and what makes a received object unreadable. The executable functions build
//! and take apart `serde_json` values and are proved against that grammar.

use vstd::prelude::*;
use crate::json::{
    fold, keys_of, member_trees, parse_value, parsed_json, render_value, rendered_json, unfold,
    value_tree, JsonNode, JsonTree, Member,
};
use crate::sidecar::types::{tree_of, AgentEventPayload, CommandView, EventView, ProtocolError, SidecarCommand,
    SidecarEvent,
};
use crate::text::{same_text, text_of};

verus! {

/// `i` is the place of the first member of `members` that is keyed `key`.
pub open spec fn is_first(members: Seq<(Seq<char>, JsonTree)>, key: Seq<char>, i: int) -> bool {
    &&& 0 <= i < members.len()
    &&& members[i].0 == key
    &&& forall|k: int| 0 <= k < i ==> (#[trigger] members[k]).0 != key
}

/// The value of the first member of `members` that is keyed `key`.
pub open spec fn lookup(members: Seq<(Seq<char>, JsonTree)>, key: Seq<char>) -> Option<JsonTree> {
    if exists|i: int| is_first(members, key, i) {
        Some(members[choose|i: int| is_first(members, key, i)].1)
    } else {
        None
    }
}

/// A field that must be present and hold a string.
pub open spec fn required_text(members: Seq<(Seq<char>, JsonTree)>, key: Seq<char>) -> Result<
    Seq<char>,
    ProtocolError,
> {
    match lookup(members, key) {
        None => Err(ProtocolError::MissingField),
        Some(JsonTree::Text(s)) => Ok(s),
        Some(_) => Err(ProtocolError::InvalidField),
    }
}

/// A field that may be absent or `null`, and otherwise holds a string.
pub open spec fn optional_text(members: Seq<(Seq<char>, JsonTree)>, key: Seq<char>) -> Result<
    Option<Seq<char>>,
    ProtocolError,
> {
    match lookup(members, key) {
        None => Ok(None),
        Some(JsonTree::Null) => Ok(None),
        Some(JsonTree::Text(s)) => Ok(Some(s)),
        Some(_) => Err(ProtocolError::InvalidField),
    }
}

/// A field that must be present and hold a number.
pub open spec fn required_number(members: Seq<(Seq<char>, JsonTree)>, key: Seq<char>) -> Result<
    serde_json::Number,
    ProtocolError,
> {
    match lookup(members, key) {
        None => Err(ProtocolError::MissingField),
        Some(JsonTree::Number(n)) => Ok(n),
        Some(_) => Err(ProtocolError::InvalidField),
    }
}

/// A field that may be absent or `null`, and otherwise holds a number.
pub open spec fn optional_number(members: Seq<(Seq<char>, JsonTree)>, key: Seq<char>) -> Result<
    Option<serde_json::Number>,
    ProtocolError,
> {
    match lookup(members, key) {
        None => Ok(None),
        Some(JsonTree::Null) => Ok(None),
        Some(JsonTree::Number(n)) => Ok(Some(n)),
        Some(_) => Err(ProtocolError::InvalidField),
    }
}

/// A field that must be present and may hold any value.
pub open spec fn required_value(members: Seq<(Seq<char>, JsonTree)>, key: Seq<char>) -> Result<
    JsonTree,
    ProtocolError,
> {
    match lookup(members, key) {
        None => Err(ProtocolError::MissingField),
        Some(tree) => Ok(tree),
    }
}

/// A field that may be absent or `null`, and otherwise holds any value.
pub open spec fn optional_value(members: Seq<(Seq<char>, JsonTree)>, key: Seq<char>) -> Option<
    JsonTree,
> {
    match lookup(members, key) {
        None => None,
        Some(JsonTree::Null) => None,
        Some(tree) => Some(tree),
    }
}

/// The place of the first member keyed `key`.
fn find_member(members: &Vec<Member>, key: &str) -> (found: Option<usize>)
    ensures
        match found {
            Some(i) => is_first(member_trees(members@), key@, i as int) && lookup(
                member_trees(members@),
                key@,
            ) == Some(value_tree(members@[i as int].value)),
            None => lookup(member_trees(members@), key@) is None,
        },
{
    let ghost trees = member_trees(members@);
    let mut i: usize = 0;
    while i < members.len()
        invariant
            i <= members@.len(),
            trees == member_trees(members@),
            forall|k: int| 0 <= k < i ==> (#[trigger] trees[k]).0 != key@,
        decreases members@.len() - i,
    {
        if same_text(members[i].key.as_str(), key) {
            proof {
                assert(is_first(trees, key@, i as int));
                let j = choose|j: int| is_first(trees, key@, j);
                if j < i {
                    assert(trees[j].0 != key@);
                } else if i < j {
                    assert(trees[i as int].0 != key@);
                }
            }
            return Some(i);
        }
        i += 1;
    }
    proof {
        if exists|j: int| is_first(trees, key@, j) {
            let j = choose|j: int| is_first(trees, key@, j);
            assert(trees[j].0 != key@);
        }
    }
    None
}

/// The outcome of reading a string field, as plain values.
pub open spec fn text_outcome(r: Result<String, ProtocolError>) -> Result<Seq<char>, ProtocolError> {
    match r {
        Ok(s) => Ok(s@),
        Err(e) => Err(e),
    }
}

/// The outcome of reading an optional string field, as plain values.
pub open spec fn optional_text_outcome(r: Result<Option<String>, ProtocolError>) -> Result<
    Option<Seq<char>>,
    ProtocolError,
> {
    match r {
        Ok(s) => Ok(text_of(s)),
        Err(e) => Err(e),
    }
}

/// The outcome of reading a field that holds any value, as plain values.
pub open spec fn value_outcome(r: Result<serde_json::Value, ProtocolError>) -> Result<
    JsonTree,
    ProtocolError,
> {
    match r {
        Ok(v) => Ok(value_tree(v)),
        Err(e) => Err(e),
    }
}

/// Reads a field that must be present and hold a string.
fn read_text(members: &Vec<Member>, key: &str) -> (r: Result<String, ProtocolError>)
    ensures
        text_outcome(r) == required_text(member_trees(members@), key@),
{
    match find_member(members, key) {
        None => Err(ProtocolError::MissingField),
        Some(i) => match unfold(members[i].value.clone()) {
            JsonNode::Text(s) => Ok(s),
            _ => Err(ProtocolError::InvalidField),
        },
    }
}

/// Reads a field that may be absent or `null`, and otherwise holds a string.
fn read_optional_text(members: &Vec<Member>, key: &str) -> (r: Result<Option<String>, ProtocolError>)
    ensures
        optional_text_outcome(r) == optional_text(member_trees(members@), key@),
{
    match find_member(members, key) {
        None => Ok(None),
        Some(i) => match unfold(members[i].value.clone()) {
            JsonNode::Null => Ok(None),
            JsonNode::Text(s) => Ok(Some(s)),
            _ => Err(ProtocolError::InvalidField),
        },
    }
}

/// Reads a field that must be present and hold a number.
fn read_number(members: &Vec<Member>, key: &str) -> (r: Result<serde_json::Number, ProtocolError>)
    ensures
        r == required_number(member_trees(members@), key@),
{
    match find_member(members, key) {
        None => Err(ProtocolError::MissingField),
        Some(i) => match unfold(members[i].value.clone()) {
            JsonNode::Number(n) => Ok(n),
            _ => Err(ProtocolError::InvalidField),
        },
    }
}

/// Reads a field that may be absent or `null`, and otherwise holds a number.
fn read_optional_number(members: &Vec<Member>, key: &str) -> (r: Result<
    Option<serde_json::Number>,
    ProtocolError,
>)
    ensures
        r == optional_number(member_trees(members@), key@),
{
    match find_member(members, key) {
        None => Ok(None),
        Some(i) => match unfold(members[i].value.clone()) {
            JsonNode::Null => Ok(None),
            JsonNode::Number(n) => Ok(Some(n)),
            _ => Err(ProtocolError::InvalidField),
        },
    }
}

/// Reads a field that must be present and may hold any value.
fn read_value(members: &Vec<Member>, key: &str) -> (r: Result<serde_json::Value, ProtocolError>)
    ensures
        value_outcome(r) == required_value(member_trees(members@), key@),
{
    match find_member(members, key) {
        None => Err(ProtocolError::MissingField),
        Some(i) => Ok(members[i].value.clone()),
    }
}

/// Reads a field that may be absent or `null`, and otherwise holds any value.
fn read_optional_value(members: &Vec<Member>, key: &str) -> (r: Option<serde_json::Value>)
    ensures
        tree_of(r) == optional_value(member_trees(members@), key@),
{
    match find_member(members, key) {
        None => None,
        Some(i) => match unfold(members[i].value.clone()) {
            JsonNode::Null => None,
            _ => Some(members[i].value.clone()),
        },
    }
}

/// The event that an object of the given members spells, once its `type` member is
/// known to be `tag`.
pub open spec fn decoded_variant(tag: Seq<char>, m: Seq<(Seq<char>, JsonTree)>) -> Result<
    EventView,
    ProtocolError,
> {
    if tag == "session_started"@ {
        match required_text(m, "sessionId"@) {
            Err(e) => Err(e),
            Ok(session_id) => match required_text(m, "sdkSessionId"@) {
                Err(e) => Err(e),
                Ok(sdk_session_id) => Ok(EventView::SessionStarted { session_id, sdk_session_id }),
            },
        }
    } else if tag == "message"@ {
        match required_text(m, "sessionId"@) {
            Err(e) => Err(e),
            Ok(session_id) => match required_text(m, "role"@) {
                Err(e) => Err(e),
                Ok(role) => match required_text(m, "content"@) {
                    Err(e) => Err(e),
                    Ok(content) => match optional_text(m, "thinking"@) {
                        Err(e) => Err(e),
                        Ok(thinking) => Ok(
                            EventView::Message {
                                session_id,
                                role,
                                content,
                                thinking,
                                tool_calls: optional_value(m, "toolCalls"@),
                                usage: optional_value(m, "usage"@),
                            },
                        ),
                    },
                },
            },
        }
    } else if tag == "tool_use"@ {
        match required_text(m, "sessionId"@) {
            Err(e) => Err(e),
            Ok(session_id) => match required_text(m, "toolName"@) {
                Err(e) => Err(e),
                Ok(tool_name) => match required_value(m, "input"@) {
                    Err(e) => Err(e),
                    Ok(input) => Ok(EventView::ToolUse { session_id, tool_name, input }),
                },
            },
        }
    } else if tag == "tool_result"@ {
        match required_text(m, "sessionId"@) {
            Err(e) => Err(e),
            Ok(session_id) => match required_text(m, "toolName"@) {
                Err(e) => Err(e),
                Ok(tool_name) => match required_text(m, "output"@) {
                    Err(e) => Err(e),
                    Ok(output) => Ok(EventView::ToolResult { session_id, tool_name, output }),
                },
            },
        }
    } else if tag == "tool_approval_request"@ {
        match required_text(m, "sessionId"@) {
            Err(e) => Err(e),
            Ok(session_id) => match required_text(m, "requestId"@) {
                Err(e) => Err(e),
                Ok(request_id) => match required_text(m, "toolName"@) {
                    Err(e) => Err(e),
                    Ok(tool_name) => match required_value(m, "input"@) {
                        Err(e) => Err(e),
                        Ok(input) => Ok(
                            EventView::ToolApprovalRequest {
                                session_id,
                                request_id,
                                tool_name,
                                input,
                                suggestions: optional_value(m, "suggestions"@),
                            },
                        ),
                    },
                },
            },
        }
    } else if tag == "tool_progress"@ {
        match required_text(m, "sessionId"@) {
            Err(e) => Err(e),
            Ok(session_id) => match required_text(m, "toolName"@) {
                Err(e) => Err(e),
                Ok(tool_name) => match required_number(m, "elapsedSeconds"@) {
                    Err(e) => Err(e),
                    Ok(elapsed_seconds) => Ok(
                        EventView::ToolProgress { session_id, tool_name, elapsed_seconds },
                    ),
                },
            },
        }
    } else if tag == "session_completed"@ {
        match required_text(m, "sessionId"@) {
            Err(e) => Err(e),
            Ok(session_id) => match required_text(m, "sdkSessionId"@) {
                Err(e) => Err(e),
                Ok(sdk_session_id) => match optional_number(m, "totalCostUsd"@) {
                    Err(e) => Err(e),
                    Ok(total_cost_usd) => match optional_number(m, "durationMs"@) {
                        Err(e) => Err(e),
                        Ok(duration_ms) => Ok(
                            EventView::SessionCompleted {
                                session_id,
                                sdk_session_id,
                                total_cost_usd,
                                duration_ms,
                            },
                        ),
                    },
                },
            },
        }
    } else if tag == "session_failed"@ {
        match required_text(m, "sessionId"@) {
            Err(e) => Err(e),
            Ok(session_id) => match required_text(m, "error"@) {
                Err(e) => Err(e),
                Ok(error) => Ok(EventView::SessionFailed { session_id, error }),
            },
        }
    } else if tag == "error"@ {
        match required_text(m, "message"@) {
            Err(e) => Err(e),
            Ok(message) => Ok(EventView::Error { message }),
        }
    } else {
        Err(ProtocolError::UnknownType)
    }
}

/// The event that an object of the given members spells. The fields of a variant are
/// read in the order in which the variant declares them, and the first one that is
/// missing or of the wrong kind decides the error. Members that the variant does not
/// know are passed over.
pub open spec fn decoded_members(m: Seq<(Seq<char>, JsonTree)>) -> Result<EventView, ProtocolError> {
    match lookup(m, "type"@) {
        None => Err(ProtocolError::MissingType),
        Some(JsonTree::Text(tag)) => decoded_variant(tag, m),
        Some(_) => Err(ProtocolError::InvalidType),
    }
}

/// The event that a JSON document spells: only an object spells one.
pub open spec fn decoded_tree(tree: JsonTree) -> Result<EventView, ProtocolError> {
    match tree {
        JsonTree::Object(members) => decoded_members(members),
        _ => Err(ProtocolError::NotAnObject),
    }
}

/// The event that a line of text spells.
pub open spec fn decoded_line(line: Seq<char>) -> Result<EventView, ProtocolError> {
    match parsed_json(line) {
        None => Err(ProtocolError::InvalidJson),
        Some(tree) => decoded_tree(tree),
    }
}

/// The outcome of decoding, as plain values.
pub open spec fn event_outcome(r: Result<SidecarEvent, ProtocolError>) -> Result<
    EventView,
    ProtocolError,
> {
    match r {
        Ok(event) => Ok(event@),
        Err(e) => Err(e),
    }
}

/// Reads the fields of the event that `tag` names.
fn decode_variant(tag: &str, m: &Vec<Member>) -> (r: Result<SidecarEvent, ProtocolError>)
    ensures
        event_outcome(r) == decoded_variant(tag@, member_trees(m@)),
{
    if same_text(tag, "session_started") {
        let session_id = read_text(m, "sessionId")?;
        let sdk_session_id = read_text(m, "sdkSessionId")?;
        Ok(SidecarEvent::SessionStarted { session_id, sdk_session_id })
    } else if same_text(tag, "message") {
        let session_id = read_text(m, "sessionId")?;
        let role = read_text(m, "role")?;
        let content = read_text(m, "content")?;
        let thinking = read_optional_text(m, "thinking")?;
        let tool_calls = read_optional_value(m, "toolCalls");
        let usage = read_optional_value(m, "usage");
        Ok(SidecarEvent::Message { session_id, role, content, thinking, tool_calls, usage })
    } else if same_text(tag, "tool_use") {
        let session_id = read_text(m, "sessionId")?;
        let tool_name = read_text(m, "toolName")?;
        let input = read_value(m, "input")?;
        Ok(SidecarEvent::ToolUse { session_id, tool_name, input })
    } else if same_text(tag, "tool_result") {
        let session_id = read_text(m, "sessionId")?;
        let tool_name = read_text(m, "toolName")?;
        let output = read_text(m, "output")?;
        Ok(SidecarEvent::ToolResult { session_id, tool_name, output })
    } else if same_text(tag, "tool_approval_request") {
        let session_id = read_text(m, "sessionId")?;
        let request_id = read_text(m, "requestId")?;
        let tool_name = read_text(m, "toolName")?;
        let input = read_value(m, "input")?;
        let suggestions = read_optional_value(m, "suggestions");
        Ok(SidecarEvent::ToolApprovalRequest { session_id, request_id, tool_name, input, suggestions })
    } else if same_text(tag, "tool_progress") {
        let session_id = read_text(m, "sessionId")?;
        let tool_name = read_text(m, "toolName")?;
        let elapsed_seconds = read_number(m, "elapsedSeconds")?;
        Ok(SidecarEvent::ToolProgress { session_id, tool_name, elapsed_seconds })
    } else if same_text(tag, "session_completed") {
        let session_id = read_text(m, "sessionId")?;
        let sdk_session_id = read_text(m, "sdkSessionId")?;
        let total_cost_usd = read_optional_number(m, "totalCostUsd")?;
        let duration_ms = read_optional_number(m, "durationMs")?;
        Ok(SidecarEvent::SessionCompleted { session_id, sdk_session_id, total_cost_usd, duration_ms })
    } else if same_text(tag, "session_failed") {
        let session_id = read_text(m, "sessionId")?;
        let error = read_text(m, "error")?;
        Ok(SidecarEvent::SessionFailed { session_id, error })
    } else if same_text(tag, "error") {
        let message = read_text(m, "message")?;
        Ok(SidecarEvent::Error { message })
    } else {
        Err(ProtocolError::UnknownType)
    }
}

impl SidecarEvent {
    /// Reads an event from the members of a JSON object.
    pub fn from_members(members: &Vec<Member>) -> (r: Result<SidecarEvent, ProtocolError>)
        ensures
            event_outcome(r) == decoded_members(member_trees(members@)),
    {
        match find_member(members, "type") {
            None => Err(ProtocolError::MissingType),
            Some(i) => match unfold(members[i].value.clone()) {
                JsonNode::Text(tag) => decode_variant(tag.as_str(), members),
                _ => Err(ProtocolError::InvalidType),
            },
        }
    }

    /// Reads an event from a JSON value.
    pub fn from_value(value: serde_json::Value) -> (r: Result<SidecarEvent, ProtocolError>)
        ensures
            event_outcome(r) == decoded_tree(value_tree(value)),
    {
        match unfold(value) {
            JsonNode::Object(members) => SidecarEvent::from_members(&members),
            _ => Err(ProtocolError::NotAnObject),
        }
    }

    /// Reads an event from one line of a worker's output.
    pub fn from_json(line: &str) -> (r: Result<SidecarEvent, ProtocolError>)
        ensures
            event_outcome(r) == decoded_line(line@),
    {
        match parse_value(line) {
            None => Err(ProtocolError::InvalidJson),
            Some(value) => SidecarEvent::from_value(value),
        }
    }
}

/// `members`, followed by a member keyed `key` where `value` is present.
pub open spec fn with_optional(
    members: Seq<(Seq<char>, JsonTree)>,
    key: Seq<char>,
    value: Option<JsonTree>,
) -> Seq<(Seq<char>, JsonTree)> {
    match value {
        Some(tree) => members.push((key, tree)),
        None => members,
    }
}

/// An optional string as an optional tree.
pub open spec fn text_tree(text: Option<Seq<char>>) -> Option<JsonTree> {
    match text {
        Some(s) => Some(JsonTree::Text(s)),
        None => None,
    }
}

/// An optional number as an optional tree.
pub open spec fn number_tree(number: Option<serde_json::Number>) -> Option<JsonTree> {
    match number {
        Some(n) => Some(JsonTree::Number(n)),
        None => None,
    }
}

/// The members of the object that a command is written as, in order.
pub open spec fn command_members(command: CommandView) -> Seq<(Seq<char>, JsonTree)> {
    match command {
        CommandView::StartSession {
            session_id,
            project_path,
            prompt,
            model,
            max_budget_usd,
            resume_session_id,
        } => with_optional(
            with_optional(
                with_optional(
                    seq![
                        ("type"@, JsonTree::Text("start_session"@)),
                        ("sessionId"@, JsonTree::Text(session_id)),
                        ("projectPath"@, JsonTree::Text(project_path)),
                        ("prompt"@, JsonTree::Text(prompt)),
                    ],
                    "model"@,
                    text_tree(model),
                ),
                "maxBudgetUsd"@,
                number_tree(max_budget_usd),
            ),
            "resumeSessionId"@,
            text_tree(resume_session_id),
        ),
        CommandView::SendMessage { session_id, message } => seq![
            ("type"@, JsonTree::Text("send_message"@)),
            ("sessionId"@, JsonTree::Text(session_id)),
            ("message"@, JsonTree::Text(message)),
        ],
        CommandView::AbortSession { session_id } => seq![
            ("type"@, JsonTree::Text("abort_session"@)),
            ("sessionId"@, JsonTree::Text(session_id)),
        ],
        CommandView::EndSession { session_id } => seq![
            ("type"@, JsonTree::Text("end_session"@)),
            ("sessionId"@, JsonTree::Text(session_id)),
        ],
        CommandView::ToolApprovalResponse { request_id, allowed, updated_permissions } => with_optional(
            seq![
                ("type"@, JsonTree::Text("tool_approval_response"@)),
                ("requestId"@, JsonTree::Text(request_id)),
                ("allowed"@, JsonTree::Bool(allowed)),
            ],
            "updatedPermissions"@,
            updated_permissions,
        ),
    }
}

/// The JSON object that a command is written as.
pub open spec fn command_tree(command: CommandView) -> JsonTree {
    JsonTree::Object(command_members(command))
}

/// The members of the object that an event is written as, in order.
pub open spec fn event_members(event: EventView) -> Seq<(Seq<char>, JsonTree)> {
    match event {
        EventView::SessionStarted { session_id, sdk_session_id } => seq![
            ("type"@, JsonTree::Text("session_started"@)),
            ("sessionId"@, JsonTree::Text(session_id)),
            ("sdkSessionId"@, JsonTree::Text(sdk_session_id)),
        ],
        EventView::Message { session_id, role, content, thinking, tool_calls, usage } => with_optional(
            with_optional(
                with_optional(
                    seq![
                        ("type"@, JsonTree::Text("message"@)),
                        ("sessionId"@, JsonTree::Text(session_id)),
                        ("role"@, JsonTree::Text(role)),
                        ("content"@, JsonTree::Text(content)),
                    ],
                    "thinking"@,
                    text_tree(thinking),
                ),
                "toolCalls"@,
                tool_calls,
            ),
            "usage"@,
            usage,
        ),
        EventView::ToolUse { session_id, tool_name, input } => seq![
            ("type"@, JsonTree::Text("tool_use"@)),
            ("sessionId"@, JsonTree::Text(session_id)),
            ("toolName"@, JsonTree::Text(tool_name)),
            ("input"@, input),
        ],
        EventView::ToolResult { session_id, tool_name, output } => seq![
            ("type"@, JsonTree::Text("tool_result"@)),
            ("sessionId"@, JsonTree::Text(session_id)),
            ("toolName"@, JsonTree::Text(tool_name)),
            ("output"@, JsonTree::Text(output)),
        ],
        EventView::ToolApprovalRequest {
            session_id,
            request_id,
            tool_name,
            input,
            suggestions,
        } => with_optional(
            seq![
                ("type"@, JsonTree::Text("tool_approval_request"@)),
                ("sessionId"@, JsonTree::Text(session_id)),
                ("requestId"@, JsonTree::Text(request_id)),
                ("toolName"@, JsonTree::Text(tool_name)),
                ("input"@, input),
            ],
            "suggestions"@,
            suggestions,
        ),
        EventView::ToolProgress { session_id, tool_name, elapsed_seconds } => seq![
            ("type"@, JsonTree::Text("tool_progress"@)),
            ("sessionId"@, JsonTree::Text(session_id)),
            ("toolName"@, JsonTree::Text(tool_name)),
            ("elapsedSeconds"@, JsonTree::Number(elapsed_seconds)),
        ],
        EventView::SessionCompleted {
            session_id,
            sdk_session_id,
            total_cost_usd,
            duration_ms,
        } => with_optional(
            with_optional(
                seq![
                    ("type"@, JsonTree::Text("session_completed"@)),
                    ("sessionId"@, JsonTree::Text(session_id)),
                    ("sdkSessionId"@, JsonTree::Text(sdk_session_id)),
                ],
                "totalCostUsd"@,
                number_tree(total_cost_usd),
            ),
            "durationMs"@,
            number_tree(duration_ms),
        ),
        EventView::SessionFailed { session_id, error } => seq![
            ("type"@, JsonTree::Text("session_failed"@)),
            ("sessionId"@, JsonTree::Text(session_id)),
            ("error"@, JsonTree::Text(error)),
        ],
        EventView::Error { message } => seq![
            ("type"@, JsonTree::Text("error"@)),
            ("message"@, JsonTree::Text(message)),
        ],
    }
}

/// The JSON object that an event is written as.
pub open spec fn event_tree(event: EventView) -> JsonTree {
    JsonTree::Object(event_members(event))
}

/// The JSON object that carries an event to the application's sink.
pub open spec fn payload_tree(event: EventView) -> JsonTree {
    JsonTree::Object(seq![("event"@, event_tree(event))])
}

/// The keys and the type names of the protocol, by their lengths, and by their first
/// characters where two keys of one object have the same length: enough to tell them
/// apart.
proof fn lemma_keys()
    ensures
        "type"@.len() == 4,
        "sessionId"@.len() == 9,
        "projectPath"@.len() == 11,
        "prompt"@.len() == 6,
        "model"@.len() == 5,
        "maxBudgetUsd"@.len() == 12,
        "resumeSessionId"@.len() == 15,
        "message"@.len() == 7,
        "requestId"@.len() == 9,
        "allowed"@.len() == 7,
        "updatedPermissions"@.len() == 18,
        "sdkSessionId"@.len() == 12,
        "role"@.len() == 4,
        "content"@.len() == 7,
        "thinking"@.len() == 8,
        "toolCalls"@.len() == 9,
        "usage"@.len() == 5,
        "toolName"@.len() == 8,
        "input"@.len() == 5,
        "output"@.len() == 6,
        "suggestions"@.len() == 11,
        "elapsedSeconds"@.len() == 14,
        "totalCostUsd"@.len() == 12,
        "durationMs"@.len() == 10,
        "error"@.len() == 5,
        "event"@.len() == 5,
        "start_session"@.len() == 13,
        "send_message"@.len() == 12,
        "abort_session"@.len() == 13,
        "end_session"@.len() == 11,
        "tool_approval_response"@.len() == 22,
        "session_started"@.len() == 15,
        "tool_use"@.len() == 8,
        "tool_result"@.len() == 11,
        "tool_approval_request"@.len() == 21,
        "tool_progress"@.len() == 13,
        "session_completed"@.len() == 17,
        "session_failed"@.len() == 14,
        "role"@[0] != "type"@[0],
        "toolCalls"@[0] != "sessionId"@[0],
        "requestId"@[0] != "sessionId"@[0],
        "totalCostUsd"@[0] != "sdkSessionId"@[0],
{
    reveal_strlit("type");
    reveal_strlit("sessionId");
    reveal_strlit("projectPath");
    reveal_strlit("prompt");
    reveal_strlit("model");
    reveal_strlit("maxBudgetUsd");
    reveal_strlit("resumeSessionId");
    reveal_strlit("message");
    reveal_strlit("requestId");
    reveal_strlit("allowed");
    reveal_strlit("updatedPermissions");
    reveal_strlit("sdkSessionId");
    reveal_strlit("role");
    reveal_strlit("content");
    reveal_strlit("thinking");
    reveal_strlit("toolCalls");
    reveal_strlit("usage");
    reveal_strlit("toolName");
    reveal_strlit("input");
    reveal_strlit("output");
    reveal_strlit("suggestions");
    reveal_strlit("elapsedSeconds");
    reveal_strlit("totalCostUsd");
    reveal_strlit("durationMs");
    reveal_strlit("error");
    reveal_strlit("event");
    reveal_strlit("start_session");
    reveal_strlit("send_message");
    reveal_strlit("abort_session");
    reveal_strlit("end_session");
    reveal_strlit("tool_approval_response");
    reveal_strlit("session_started");
    reveal_strlit("tool_use");
    reveal_strlit("tool_result");
    reveal_strlit("tool_approval_request");
    reveal_strlit("tool_progress");
    reveal_strlit("session_completed");
    reveal_strlit("session_failed");
}

/// The members written so far name each key once, and `key` is not among them.
pub open spec fn fresh_key(members: Seq<Member>, key: Seq<char>) -> bool {
    &&& keys_of(member_trees(members)).no_duplicates()
    &&& !keys_of(member_trees(members)).contains(key)
}

/// Appends a member under a key that is not among the members yet.
fn push_member(members: &mut Vec<Member>, key: &str, value: serde_json::Value)
    requires
        fresh_key(old(members)@, key@),
    ensures
        member_trees(final(members)@) == member_trees(old(members)@).push(
            (key@, value_tree(value)),
        ),
        keys_of(member_trees(final(members)@)).no_duplicates(),
        forall|k: Seq<char>|
            keys_of(member_trees(final(members)@)).contains(k) <==> (keys_of(
                member_trees(old(members)@),
            ).contains(k) || k == key@),
{
    let ghost before = member_trees(members@);
    members.push(Member { key: key.to_owned(), value });
    proof {
        let after = member_trees(members@);
        assert(after =~= before.push((key@, value_tree(value))));
        let keys = keys_of(before);
        let keys2 = keys_of(after);
        assert(keys2 =~= keys.push(key@));
        assert forall|i: int, j: int| 0 <= i < keys2.len() && 0 <= j < keys2.len() && i != j implies keys2[i]
            != keys2[j] by {
            if i < keys.len() {
                assert(keys.contains(keys2[i]));
            }
            if j < keys.len() {
                assert(keys.contains(keys2[j]));
            }
        }
        assert forall|k: Seq<char>| keys2.contains(k) <==> (keys.contains(k) || k == key@) by {
            if keys.contains(k) {
                let i = keys.index_of(k);
                assert(keys2[i] == k);
            }
            if k == key@ {
                assert(keys2[keys.len() as int] == k);
            }
        }
    }
}

/// Appends a member that holds a string.
fn push_text(members: &mut Vec<Member>, key: &str, text: &String)
    requires
        fresh_key(old(members)@, key@),
    ensures
        member_trees(final(members)@) == member_trees(old(members)@).push(
            (key@, JsonTree::Text(text@)),
        ),
        keys_of(member_trees(final(members)@)).no_duplicates(),
        forall|k: Seq<char>|
            keys_of(member_trees(final(members)@)).contains(k) <==> (keys_of(
                member_trees(old(members)@),
            ).contains(k) || k == key@),
{
    let value = fold(JsonNode::Text(text.clone()));
    push_member(members, key, value);
}

/// Appends a member that holds a fixed string.
fn push_literal(members: &mut Vec<Member>, key: &str, text: &str)
    requires
        fresh_key(old(members)@, key@),
    ensures
        member_trees(final(members)@) == member_trees(old(members)@).push(
            (key@, JsonTree::Text(text@)),
        ),
        keys_of(member_trees(final(members)@)).no_duplicates(),
        forall|k: Seq<char>|
            keys_of(member_trees(final(members)@)).contains(k) <==> (keys_of(
                member_trees(old(members)@),
            ).contains(k) || k == key@),
{
    let value = fold(JsonNode::Text(text.to_owned()));
    push_member(members, key, value);
}

/// Appends a member that holds a string, where there is one.
fn push_optional_text(members: &mut Vec<Member>, key: &str, text: &Option<String>)
    requires
        fresh_key(old(members)@, key@),
    ensures
        member_trees(final(members)@) == with_optional(
            member_trees(old(members)@),
            key@,
            text_tree(text_of(*text)),
        ),
        keys_of(member_trees(final(members)@)).no_duplicates(),
        forall|k: Seq<char>|
            keys_of(member_trees(final(members)@)).contains(k) ==> (keys_of(
                member_trees(old(members)@),
            ).contains(k) || k == key@),
{
    if let Some(s) = text {
        push_text(members, key, s);
    }
}

/// Appends a member that holds a number.
fn push_number(members: &mut Vec<Member>, key: &str, number: &serde_json::Number)
    requires
        fresh_key(old(members)@, key@),
    ensures
        member_trees(final(members)@) == member_trees(old(members)@).push(
            (key@, JsonTree::Number(*number)),
        ),
        keys_of(member_trees(final(members)@)).no_duplicates(),
        forall|k: Seq<char>|
            keys_of(member_trees(final(members)@)).contains(k) <==> (keys_of(
                member_trees(old(members)@),
            ).contains(k) || k == key@),
{
    let value = fold(JsonNode::Number(number.clone()));
    push_member(members, key, value);
}

/// Appends a member that holds a number, where there is one.
fn push_optional_number(members: &mut Vec<Member>, key: &str, number: &Option<serde_json::Number>)
    requires
        fresh_key(old(members)@, key@),
    ensures
        member_trees(final(members)@) == with_optional(
            member_trees(old(members)@),
            key@,
            number_tree(*number),
        ),
        keys_of(member_trees(final(members)@)).no_duplicates(),
        forall|k: Seq<char>|
            keys_of(member_trees(final(members)@)).contains(k) ==> (keys_of(
                member_trees(old(members)@),
            ).contains(k) || k == key@),
{
    if let Some(n) = number {
        push_number(members, key, n);
    }
}

/// Appends a member that holds a value, where there is one.
fn push_optional_value(members: &mut Vec<Member>, key: &str, value: &Option<serde_json::Value>)
    requires
        fresh_key(old(members)@, key@),
    ensures
        member_trees(final(members)@) == with_optional(
            member_trees(old(members)@),
            key@,
            tree_of(*value),
        ),
        keys_of(member_trees(final(members)@)).no_duplicates(),
        forall|k: Seq<char>|
            keys_of(member_trees(final(members)@)).contains(k) ==> (keys_of(
                member_trees(old(members)@),
            ).contains(k) || k == key@),
{
    if let Some(v) = value {
        push_member(members, key, v.clone());
    }
}

/// A list of members that holds nothing yet.
fn no_members() -> (members: Vec<Member>)
    ensures
        member_trees(members@) == Seq::<(Seq<char>, JsonTree)>::empty(),
        keys_of(member_trees(members@)).no_duplicates(),
        forall|k: Seq<char>| !keys_of(member_trees(members@)).contains(k),
{
    let members: Vec<Member> = Vec::new();
    assert(member_trees(members@) =~= Seq::<(Seq<char>, JsonTree)>::empty());
    members
}

impl SidecarCommand {
    /// The members of the object that this command is written as.
    pub fn to_members(&self) -> (members: Vec<Member>)
        ensures
            member_trees(members@) == command_members(self@),
            keys_of(member_trees(members@)).no_duplicates(),
    {
        let mut m = no_members();
        match self {
            SidecarCommand::StartSession {
                session_id,
                project_path,
                prompt,
                model,
                max_budget_usd,
                resume_session_id,
            } => {
                proof {
                    lemma_keys();
                }
                push_literal(&mut m, "type", "start_session");
                push_text(&mut m, "sessionId", session_id);
                push_text(&mut m, "projectPath", project_path);
                push_text(&mut m, "prompt", prompt);
                assert(member_trees(m@) =~= seq![
                    ("type"@, JsonTree::Text("start_session"@)),
                    ("sessionId"@, JsonTree::Text(session_id@)),
                    ("projectPath"@, JsonTree::Text(project_path@)),
                    ("prompt"@, JsonTree::Text(prompt@)),
                ]);
                push_optional_text(&mut m, "model", model);
                push_optional_number(&mut m, "maxBudgetUsd", max_budget_usd);
                push_optional_text(&mut m, "resumeSessionId", resume_session_id);
            },
            SidecarCommand::SendMessage { session_id, message } => {
                proof {
                    lemma_keys();
                }
                push_literal(&mut m, "type", "send_message");
                push_text(&mut m, "sessionId", session_id);
                push_text(&mut m, "message", message);
                assert(member_trees(m@) =~= command_members(self@));
            },
            SidecarCommand::AbortSession { session_id } => {
                proof {
                    lemma_keys();
                }
                push_literal(&mut m, "type", "abort_session");
                push_text(&mut m, "sessionId", session_id);
                assert(member_trees(m@) =~= command_members(self@));
            },
            SidecarCommand::EndSession { session_id } => {
                proof {
                    lemma_keys();
                }
                push_literal(&mut m, "type", "end_session");
                push_text(&mut m, "sessionId", session_id);
                assert(member_trees(m@) =~= command_members(self@));
            },
            SidecarCommand::ToolApprovalResponse { request_id, allowed, updated_permissions } => {
                proof {
                    lemma_keys();
                }
                push_literal(&mut m, "type", "tool_approval_response");
                push_text(&mut m, "requestId", request_id);
                let flag = fold(JsonNode::Bool(*allowed));
                push_member(&mut m, "allowed", flag);
                assert(member_trees(m@) =~= seq![
                    ("type"@, JsonTree::Text("tool_approval_response"@)),
                    ("requestId"@, JsonTree::Text(request_id@)),
                    ("allowed"@, JsonTree::Bool(*allowed)),
                ]);
                push_optional_value(&mut m, "updatedPermissions", updated_permissions);
            },
        }
        m
    }

    /// The JSON value that this command is written as.
    pub fn to_value(&self) -> (value: serde_json::Value)
        ensures
            value_tree(value) == command_tree(self@),
    {
        fold(JsonNode::Object(self.to_members()))
    }

    /// The JSON text that this command is written as, without a line end: what the
    /// renderer writes for the command's object, and `None` where it writes nothing.
    pub fn to_json(&self) -> (text: Option<String>)
        ensures
            text_of(text) == rendered_json(command_tree(self@)),
    {
        render_value(&self.to_value())
    }
}

impl SidecarEvent {
    /// The members of the object that this event is written as.
    pub fn to_members(&self) -> (members: Vec<Member>)
        ensures
            member_trees(members@) == event_members(self@),
            keys_of(member_trees(members@)).no_duplicates(),
    {
        let mut m = no_members();
        match self {
            SidecarEvent::SessionStarted { session_id, sdk_session_id } => {
                proof {
                    lemma_keys();
                }
                push_literal(&mut m, "type", "session_started");
                push_text(&mut m, "sessionId", session_id);
                push_text(&mut m, "sdkSessionId", sdk_session_id);
                assert(member_trees(m@) =~= event_members(self@));
            },
            SidecarEvent::Message { session_id, role, content, thinking, tool_calls, usage } => {
                proof {
                    lemma_keys();
                }
                push_literal(&mut m, "type", "message");
                push_text(&mut m, "sessionId", session_id);
                push_text(&mut m, "role", role);
                push_text(&mut m, "content", content);
                assert(member_trees(m@) =~= seq![
                    ("type"@, JsonTree::Text("message"@)),
                    ("sessionId"@, JsonTree::Text(session_id@)),
                    ("role"@, JsonTree::Text(role@)),
                    ("content"@, JsonTree::Text(content@)),
                ]);
                push_optional_text(&mut m, "thinking", thinking);
                push_optional_value(&mut m, "toolCalls", tool_calls);
                push_optional_value(&mut m, "usage", usage);
            },
            SidecarEvent::ToolUse { session_id, tool_name, input } => {
                proof {
                    lemma_keys();
                }
                push_literal(&mut m, "type", "tool_use");
                push_text(&mut m, "sessionId", session_id);
                push_text(&mut m, "toolName", tool_name);
                push_member(&mut m, "input", input.clone());
                assert(member_trees(m@) =~= event_members(self@));
            },
            SidecarEvent::ToolResult { session_id, tool_name, output } => {
                proof {
                    lemma_keys();
                }
                push_literal(&mut m, "type", "tool_result");
                push_text(&mut m, "sessionId", session_id);
                push_text(&mut m, "toolName", tool_name);
                push_text(&mut m, "output", output);
                assert(member_trees(m@) =~= event_members(self@));
            },
            SidecarEvent::ToolApprovalRequest {
                session_id,
                request_id,
                tool_name,
                input,
                suggestions,
            } => {
                proof {
                    lemma_keys();
                }
                push_literal(&mut m, "type", "tool_approval_request");
                push_text(&mut m, "sessionId", session_id);
                push_text(&mut m, "requestId", request_id);
                push_text(&mut m, "toolName", tool_name);
                push_member(&mut m, "input", input.clone());
                assert(member_trees(m@) =~= seq![
                    ("type"@, JsonTree::Text("tool_approval_request"@)),
                    ("sessionId"@, JsonTree::Text(session_id@)),
                    ("requestId"@, JsonTree::Text(request_id@)),
                    ("toolName"@, JsonTree::Text(tool_name@)),
                    ("input"@, value_tree(*input)),
                ]);
                push_optional_value(&mut m, "suggestions", suggestions);
            },
            SidecarEvent::ToolProgress { session_id, tool_name, elapsed_seconds } => {
                proof {
                    lemma_keys();
                }
                push_literal(&mut m, "type", "tool_progress");
                push_text(&mut m, "sessionId", session_id);
                push_text(&mut m, "toolName", tool_name);
                push_number(&mut m, "elapsedSeconds", elapsed_seconds);
                assert(member_trees(m@) =~= event_members(self@));
            },
            SidecarEvent::SessionCompleted {
                session_id,
                sdk_session_id,
                total_cost_usd,
                duration_ms,
            } => {
                proof {
                    lemma_keys();
                }
                push_literal(&mut m, "type", "session_completed");
                push_text(&mut m, "sessionId", session_id);
                push_text(&mut m, "sdkSessionId", sdk_session_id);
                assert(member_trees(m@) =~= seq![
                    ("type"@, JsonTree::Text("session_completed"@)),
                    ("sessionId"@, JsonTree::Text(session_id@)),
                    ("sdkSessionId"@, JsonTree::Text(sdk_session_id@)),
                ]);
                push_optional_number(&mut m, "totalCostUsd", total_cost_usd);
                push_optional_number(&mut m, "durationMs", duration_ms);
            },
            SidecarEvent::SessionFailed { session_id, error } => {
                proof {
                    lemma_keys();
                }
                push_literal(&mut m, "type", "session_failed");
                push_text(&mut m, "sessionId", session_id);
                push_text(&mut m, "error", error);
                assert(member_trees(m@) =~= event_members(self@));
            },
            SidecarEvent::Error { message } => {
                proof {
                    lemma_keys();
                }
                push_literal(&mut m, "type", "error");
                push_text(&mut m, "message", message);
                assert(member_trees(m@) =~= event_members(self@));
            },
        }
        m
    }

    /// The JSON value that this event is written as.
    pub fn to_value(&self) -> (value: serde_json::Value)
        ensures
            value_tree(value) == event_tree(self@),
    {
        fold(JsonNode::Object(self.to_members()))
    }

    /// The JSON text that this event is written as: what the renderer writes for the
    /// event's object, and `None` where it writes nothing.
    pub fn to_json(&self) -> (text: Option<String>)
        ensures
            text_of(text) == rendered_json(event_tree(self@)),
    {
        render_value(&self.to_value())
    }
}

impl AgentEventPayload {
    /// The JSON value that is handed to the sink: an object whose one member, `event`,
    /// holds the event.
    pub fn to_value(&self) -> (value: serde_json::Value)
        ensures
            value_tree(value) == payload_tree(self@),
    {
        let mut m = no_members();
        push_member(&mut m, "event", self.event.to_value());
        assert(member_trees(m@) =~= seq![("event"@, event_tree(self@))]);
        fold(JsonNode::Object(m))
    }

    /// The JSON text that is handed to the sink: what the renderer writes for the
    /// payload's object, and `None` where it writes nothing.
    pub fn to_json(&self) -> (text: Option<String>)
        ensures
            text_of(text) == rendered_json(payload_tree(self@)),
    {
        render_value(&self.to_value())
    }
}

/// The key of an optional field, where the field is present.
pub open spec fn key_if_present<T>(key: Seq<char>, field: Option<T>) -> Seq<Seq<char>> {
    match field {
        Some(_) => seq![key],
        None => Seq::empty(),
    }
}

/// A `StartSession` command is written with its `type`, `sessionId`, `projectPath` and
/// `prompt`, followed by those of `model`, `maxBudgetUsd` and `resumeSessionId` that
/// are present, and by nothing else: a field that is absent has no key in the object.
pub proof fn lemma_start_session_keys(command: CommandView)
    requires
        command is StartSession,
    ensures
        keys_of(command_members(command)) == seq![
            "type"@,
            "sessionId"@,
            "projectPath"@,
            "prompt"@,
        ] + key_if_present("model"@, command->model) + key_if_present(
            "maxBudgetUsd"@,
            command->max_budget_usd,
        ) + key_if_present("resumeSessionId"@, command->resume_session_id),
        command->model is None && command->max_budget_usd is None && command->resume_session_id
            is None ==> keys_of(command_members(command)) == seq![
            "type"@,
            "sessionId"@,
            "projectPath"@,
            "prompt"@,
        ],
{
    let base = seq![
        ("type"@, JsonTree::Text("start_session"@)),
        ("sessionId"@, JsonTree::Text(command->StartSession_session_id)),
        ("projectPath"@, JsonTree::Text(command->project_path)),
        ("prompt"@, JsonTree::Text(command->prompt)),
    ];
    let base_keys = seq!["type"@, "sessionId"@, "projectPath"@, "prompt"@];
    assert(keys_of(base) =~= base_keys);
    let one = with_optional(base, "model"@, text_tree(command->model));
    assert(keys_of(one) =~= base_keys + key_if_present("model"@, command->model));
    let two = with_optional(one, "maxBudgetUsd"@, number_tree(command->max_budget_usd));
    assert(keys_of(two) =~= keys_of(one) + key_if_present(
        "maxBudgetUsd"@,
        command->max_budget_usd,
    ));
    let three = with_optional(two, "resumeSessionId"@, text_tree(command->resume_session_id));
    assert(keys_of(three) =~= keys_of(two) + key_if_present(
        "resumeSessionId"@,
        command->resume_session_id,
    ));
    assert(base_keys + Seq::<Seq<char>>::empty() =~= base_keys);
}

/// An optional field that has no member in the object is read as absent.
pub proof fn lemma_omitted_field_is_none(members: Seq<(Seq<char>, JsonTree)>, key: Seq<char>)
    requires
        lookup(members, key) is None,
    ensures
        optional_text(members, key) == Ok::<Option<Seq<char>>, ProtocolError>(None),
        optional_number(members, key) == Ok::<Option<serde_json::Number>, ProtocolError>(None),
        optional_value(members, key) is None,
{
}

/// The first member keyed `key` is the one that is looked up.
proof fn lemma_lookup_first(members: Seq<(Seq<char>, JsonTree)>, key: Seq<char>, i: int)
    requires
        is_first(members, key, i),
    ensures
        lookup(members, key) == Some(members[i].1),
{
    let j = choose|j: int| is_first(members, key, j);
    if j < i {
        assert(members[j].0 != key);
    } else if i < j {
        assert(members[i].0 != key);
    }
}

/// A key that no member has is looked up in vain.
proof fn lemma_lookup_absent(members: Seq<(Seq<char>, JsonTree)>, key: Seq<char>)
    requires
        forall|i: int| 0 <= i < members.len() ==> (#[trigger] members[i]).0 != key,
    ensures
        lookup(members, key) is None,
{
    if exists|j: int| is_first(members, key, j) {
        let j = choose|j: int| is_first(members, key, j);
        assert(members[j].0 != key);
    }
}

/// Appending a member under another key changes nothing of what `key` looks up.
proof fn lemma_lookup_push_other(
    members: Seq<(Seq<char>, JsonTree)>,
    key: Seq<char>,
    other: Seq<char>,
    value: JsonTree,
)
    requires
        other != key,
    ensures
        lookup(members.push((other, value)), key) == lookup(members, key),
{
    let longer = members.push((other, value));
    if exists|j: int| is_first(members, key, j) {
        let j = choose|j: int| is_first(members, key, j);
        assert(is_first(longer, key, j)) by {
            assert forall|k: int| 0 <= k < j implies (#[trigger] longer[k]).0 != key by {
                assert(members[k].0 != key);
            }
        }
        lemma_lookup_first(longer, key, j);
    } else {
        assert forall|i: int| 0 <= i < longer.len() implies (#[trigger] longer[i]).0 != key by {
            if i < members.len() {
                if members[i].0 == key {
                    lemma_some_first(members, key, i);
                }
            }
        }
        lemma_lookup_absent(longer, key);
    }
}

/// A key that occurs has a first place.
proof fn lemma_some_first(members: Seq<(Seq<char>, JsonTree)>, key: Seq<char>, i: int)
    requires
        0 <= i < members.len(),
        members[i].0 == key,
    ensures
        exists|j: int| is_first(members, key, j),
    decreases i,
{
    if exists|k: int| 0 <= k < i && (#[trigger] members[k]).0 == key {
        let k = choose|k: int| 0 <= k < i && (#[trigger] members[k]).0 == key;
        lemma_some_first(members, key, k);
    } else {
        assert(is_first(members, key, i));
    }
}

/// Appending a member under a key that was not there makes it the one looked up.
proof fn lemma_lookup_push_new(
    members: Seq<(Seq<char>, JsonTree)>,
    key: Seq<char>,
    value: JsonTree,
)
    requires
        lookup(members, key) is None,
    ensures
        lookup(members.push((key, value)), key) == Some(value),
{
    let longer = members.push((key, value));
    assert(is_first(longer, key, members.len() as int)) by {
        assert forall|k: int| 0 <= k < members.len() implies (#[trigger] longer[k]).0 != key by {
            if members[k].0 == key {
                lemma_some_first(members, key, k);
            }
        }
    }
    lemma_lookup_first(longer, key, members.len() as int);
}

/// What `key` looks up after an optional member has been appended under another key.
proof fn lemma_lookup_optional_other(
    members: Seq<(Seq<char>, JsonTree)>,
    key: Seq<char>,
    other: Seq<char>,
    value: Option<JsonTree>,
)
    requires
        other != key,
    ensures
        lookup(with_optional(members, other, value), key) == lookup(members, key),
{
    if let Some(tree) = value {
        lemma_lookup_push_other(members, key, other, tree);
    }
}

/// What `key` looks up after an optional member has been appended under it.
proof fn lemma_lookup_optional_new(
    members: Seq<(Seq<char>, JsonTree)>,
    key: Seq<char>,
    value: Option<JsonTree>,
)
    requires
        lookup(members, key) is None,
    ensures
        lookup(with_optional(members, key, value), key) == value,
{
    if let Some(tree) = value {
        lemma_lookup_push_new(members, key, tree);
    }
}

/// No optional field of the event is present and `null`.
pub open spec fn no_null_field(event: EventView) -> bool {
    match event {
        EventView::Message { tool_calls, usage, .. } => tool_calls != Some(JsonTree::Null) && usage
            != Some(JsonTree::Null),
        EventView::ToolApprovalRequest { suggestions, .. } => suggestions != Some(JsonTree::Null),
        _ => true,
    }
}

/// The round trip of an event of one variant.
proof fn lemma_round_trip_session_started(event: EventView)
    requires
        event is SessionStarted,
        no_null_field(event),
    ensures
        decoded_members(event_members(event)) == Ok::<EventView, ProtocolError>(event),
{
    lemma_keys();
    let m = event_members(event);
    if let EventView::SessionStarted { session_id, sdk_session_id } = event {
        assert(is_first(m, "type"@, 0));
        lemma_lookup_first(m, "type"@, 0);
        assert(is_first(m, "sessionId"@, 1));
        lemma_lookup_first(m, "sessionId"@, 1);
        assert(is_first(m, "sdkSessionId"@, 2));
        lemma_lookup_first(m, "sdkSessionId"@, 2);
    }
}

/// The round trip of an event of one variant.
proof fn lemma_round_trip_message(event: EventView)
    requires
        event is Message,
        no_null_field(event),
    ensures
        decoded_members(event_members(event)) == Ok::<EventView, ProtocolError>(event),
{
    lemma_keys();
    let m = event_members(event);
    if let EventView::Message { session_id, role, content, thinking, tool_calls, usage } = event {
        let base = seq![
            ("type"@, JsonTree::Text("message"@)),
            ("sessionId"@, JsonTree::Text(session_id)),
            ("role"@, JsonTree::Text(role)),
            ("content"@, JsonTree::Text(content)),
        ];
        let one = with_optional(base, "thinking"@, text_tree(thinking));
        let two = with_optional(one, "toolCalls"@, tool_calls);
        assert(is_first(base, "type"@, 0));
        lemma_lookup_first(base, "type"@, 0);
        assert(is_first(base, "sessionId"@, 1));
        lemma_lookup_first(base, "sessionId"@, 1);
        assert(is_first(base, "role"@, 2));
        lemma_lookup_first(base, "role"@, 2);
        assert(is_first(base, "content"@, 3));
        lemma_lookup_first(base, "content"@, 3);
        lemma_lookup_absent(base, "thinking"@);
        lemma_lookup_absent(base, "toolCalls"@);
        lemma_lookup_absent(base, "usage"@);
        lemma_lookup_optional_other(base, "type"@, "thinking"@, text_tree(thinking));
        lemma_lookup_optional_other(base, "sessionId"@, "thinking"@, text_tree(thinking));
        lemma_lookup_optional_other(base, "role"@, "thinking"@, text_tree(thinking));
        lemma_lookup_optional_other(base, "content"@, "thinking"@, text_tree(thinking));
        lemma_lookup_optional_other(base, "toolCalls"@, "thinking"@, text_tree(thinking));
        lemma_lookup_optional_other(base, "usage"@, "thinking"@, text_tree(thinking));
        lemma_lookup_optional_new(base, "thinking"@, text_tree(thinking));
        lemma_lookup_optional_other(one, "type"@, "toolCalls"@, tool_calls);
        lemma_lookup_optional_other(one, "sessionId"@, "toolCalls"@, tool_calls);
        lemma_lookup_optional_other(one, "role"@, "toolCalls"@, tool_calls);
        lemma_lookup_optional_other(one, "content"@, "toolCalls"@, tool_calls);
        lemma_lookup_optional_other(one, "thinking"@, "toolCalls"@, tool_calls);
        lemma_lookup_optional_other(one, "usage"@, "toolCalls"@, tool_calls);
        lemma_lookup_optional_new(one, "toolCalls"@, tool_calls);
        lemma_lookup_optional_other(two, "type"@, "usage"@, usage);
        lemma_lookup_optional_other(two, "sessionId"@, "usage"@, usage);
        lemma_lookup_optional_other(two, "role"@, "usage"@, usage);
        lemma_lookup_optional_other(two, "content"@, "usage"@, usage);
        lemma_lookup_optional_other(two, "thinking"@, "usage"@, usage);
        lemma_lookup_optional_other(two, "toolCalls"@, "usage"@, usage);
        lemma_lookup_optional_new(two, "usage"@, usage);
    }
}

/// The round trip of an event of one variant.
proof fn lemma_round_trip_tool_use(event: EventView)
    requires
        event is ToolUse,
        no_null_field(event),
    ensures
        decoded_members(event_members(event)) == Ok::<EventView, ProtocolError>(event),
{
    lemma_keys();
    let m = event_members(event);
    if let EventView::ToolUse { session_id, tool_name, input } = event {
        assert(is_first(m, "type"@, 0));
        lemma_lookup_first(m, "type"@, 0);
        assert(is_first(m, "sessionId"@, 1));
        lemma_lookup_first(m, "sessionId"@, 1);
        assert(is_first(m, "toolName"@, 2));
        lemma_lookup_first(m, "toolName"@, 2);
        assert(is_first(m, "input"@, 3));
        lemma_lookup_first(m, "input"@, 3);
    }
}

/// The round trip of an event of one variant.
proof fn lemma_round_trip_tool_result(event: EventView)
    requires
        event is ToolResult,
        no_null_field(event),
    ensures
        decoded_members(event_members(event)) == Ok::<EventView, ProtocolError>(event),
{
    lemma_keys();
    let m = event_members(event);
    if let EventView::ToolResult { session_id, tool_name, output } = event {
        assert(is_first(m, "type"@, 0));
        lemma_lookup_first(m, "type"@, 0);
        assert(is_first(m, "sessionId"@, 1));
        lemma_lookup_first(m, "sessionId"@, 1);
        assert(is_first(m, "toolName"@, 2));
        lemma_lookup_first(m, "toolName"@, 2);
        assert(is_first(m, "output"@, 3));
        lemma_lookup_first(m, "output"@, 3);
    }
}

/// The round trip of an event of one variant.
proof fn lemma_round_trip_tool_approval_request(event: EventView)
    requires
        event is ToolApprovalRequest,
        no_null_field(event),
    ensures
        decoded_members(event_members(event)) == Ok::<EventView, ProtocolError>(event),
{
    lemma_keys();
    let m = event_members(event);
    if let EventView::ToolApprovalRequest { session_id, request_id, tool_name, input, suggestions } = event {
        let base = seq![
            ("type"@, JsonTree::Text("tool_approval_request"@)),
            ("sessionId"@, JsonTree::Text(session_id)),
            ("requestId"@, JsonTree::Text(request_id)),
            ("toolName"@, JsonTree::Text(tool_name)),
            ("input"@, input),
        ];
        assert(is_first(base, "type"@, 0));
        lemma_lookup_first(base, "type"@, 0);
        assert(is_first(base, "sessionId"@, 1));
        lemma_lookup_first(base, "sessionId"@, 1);
        assert(is_first(base, "requestId"@, 2));
        lemma_lookup_first(base, "requestId"@, 2);
        assert(is_first(base, "toolName"@, 3));
        lemma_lookup_first(base, "toolName"@, 3);
        assert(is_first(base, "input"@, 4));
        lemma_lookup_first(base, "input"@, 4);
        lemma_lookup_absent(base, "suggestions"@);
        lemma_lookup_optional_other(base, "type"@, "suggestions"@, suggestions);
        lemma_lookup_optional_other(base, "sessionId"@, "suggestions"@, suggestions);
        lemma_lookup_optional_other(base, "requestId"@, "suggestions"@, suggestions);
        lemma_lookup_optional_other(base, "toolName"@, "suggestions"@, suggestions);
        lemma_lookup_optional_other(base, "input"@, "suggestions"@, suggestions);
        lemma_lookup_optional_new(base, "suggestions"@, suggestions);
    }
}

/// The round trip of an event of one variant.
proof fn lemma_round_trip_tool_progress(event: EventView)
    requires
        event is ToolProgress,
        no_null_field(event),
    ensures
        decoded_members(event_members(event)) == Ok::<EventView, ProtocolError>(event),
{
    lemma_keys();
    let m = event_members(event);
    if let EventView::ToolProgress { session_id, tool_name, elapsed_seconds } = event {
        assert(is_first(m, "type"@, 0));
        lemma_lookup_first(m, "type"@, 0);
        assert(is_first(m, "sessionId"@, 1));
        lemma_lookup_first(m, "sessionId"@, 1);
        assert(is_first(m, "toolName"@, 2));
        lemma_lookup_first(m, "toolName"@, 2);
        assert(is_first(m, "elapsedSeconds"@, 3));
        lemma_lookup_first(m, "elapsedSeconds"@, 3);
    }
}

/// The round trip of an event of one variant.
proof fn lemma_round_trip_session_completed(event: EventView)
    requires
        event is SessionCompleted,
        no_null_field(event),
    ensures
        decoded_members(event_members(event)) == Ok::<EventView, ProtocolError>(event),
{
    lemma_keys();
    let m = event_members(event);
    if let EventView::SessionCompleted { session_id, sdk_session_id, total_cost_usd, duration_ms } = event {
        let base = seq![
            ("type"@, JsonTree::Text("session_completed"@)),
            ("sessionId"@, JsonTree::Text(session_id)),
            ("sdkSessionId"@, JsonTree::Text(sdk_session_id)),
        ];
        let one = with_optional(base, "totalCostUsd"@, number_tree(total_cost_usd));
        assert(is_first(base, "type"@, 0));
        lemma_lookup_first(base, "type"@, 0);
        assert(is_first(base, "sessionId"@, 1));
        lemma_lookup_first(base, "sessionId"@, 1);
        assert(is_first(base, "sdkSessionId"@, 2));
        lemma_lookup_first(base, "sdkSessionId"@, 2);
        lemma_lookup_absent(base, "totalCostUsd"@);
        lemma_lookup_absent(base, "durationMs"@);
        lemma_lookup_optional_other(base, "type"@, "totalCostUsd"@, number_tree(total_cost_usd));
        lemma_lookup_optional_other(base, "sessionId"@, "totalCostUsd"@, number_tree(total_cost_usd));
        lemma_lookup_optional_other(base, "sdkSessionId"@, "totalCostUsd"@, number_tree(total_cost_usd));
        lemma_lookup_optional_other(base, "durationMs"@, "totalCostUsd"@, number_tree(total_cost_usd));
        lemma_lookup_optional_new(base, "totalCostUsd"@, number_tree(total_cost_usd));
        lemma_lookup_optional_other(one, "type"@, "durationMs"@, number_tree(duration_ms));
        lemma_lookup_optional_other(one, "sessionId"@, "durationMs"@, number_tree(duration_ms));
        lemma_lookup_optional_other(one, "sdkSessionId"@, "durationMs"@, number_tree(duration_ms));
        lemma_lookup_optional_other(one, "totalCostUsd"@, "durationMs"@, number_tree(duration_ms));
        lemma_lookup_optional_new(one, "durationMs"@, number_tree(duration_ms));
    }
}

/// The round trip of an event of one variant.
proof fn lemma_round_trip_session_failed(event: EventView)
    requires
        event is SessionFailed,
        no_null_field(event),
    ensures
        decoded_members(event_members(event)) == Ok::<EventView, ProtocolError>(event),
{
    lemma_keys();
    let m = event_members(event);
    if let EventView::SessionFailed { session_id, error } = event {
        assert(is_first(m, "type"@, 0));
        lemma_lookup_first(m, "type"@, 0);
        assert(is_first(m, "sessionId"@, 1));
        lemma_lookup_first(m, "sessionId"@, 1);
        assert(is_first(m, "error"@, 2));
        lemma_lookup_first(m, "error"@, 2);
    }
}

/// The round trip of an event of one variant.
proof fn lemma_round_trip_error(event: EventView)
    requires
        event is Error,
        no_null_field(event),
    ensures
        decoded_members(event_members(event)) == Ok::<EventView, ProtocolError>(event),
{
    lemma_keys();
    let m = event_members(event);
    if let EventView::Error { message } = event {
        assert(is_first(m, "type"@, 0));
        lemma_lookup_first(m, "type"@, 0);
        assert(is_first(m, "message"@, 1));
        lemma_lookup_first(m, "message"@, 1);
    }
}

/// An event that is written and read again is the same event. (An optional field that
/// holds `null` is the exception: it is read as absent.)
pub proof fn lemma_event_round_trip(event: EventView)
    requires
        no_null_field(event),
    ensures
        decoded_members(event_members(event)) == Ok::<EventView, ProtocolError>(event),
{
    match event {
        EventView::SessionStarted { .. } => lemma_round_trip_session_started(event),
        EventView::Message { .. } => lemma_round_trip_message(event),
        EventView::ToolUse { .. } => lemma_round_trip_tool_use(event),
        EventView::ToolResult { .. } => lemma_round_trip_tool_result(event),
        EventView::ToolApprovalRequest { .. } => lemma_round_trip_tool_approval_request(event),
        EventView::ToolProgress { .. } => lemma_round_trip_tool_progress(event),
        EventView::SessionCompleted { .. } => lemma_round_trip_session_completed(event),
        EventView::SessionFailed { .. } => lemma_round_trip_session_failed(event),
        EventView::Error { .. } => lemma_round_trip_error(event),
    }
}

} // verus!
