//! The session registry: at most one worker per session id.
//!
//! The registry decides; it does not touch a process. A worker handle `W` is whatever
//! the caller uses to reach the worker it has spawned. Operations that need something
//! done to a worker hand out the handle together with what is to be done: the line to
//! write to its input, or the handle itself once it has left the registry and has to be
//! killed.

use vstd::prelude::*;
use crate::error::{ErrorKind, Failure};
use crate::json::rendered_json;
use crate::registry::{entry_ids, entry_map, texts, Entry, Registry};
use crate::sidecar::types::{CommandView, SidecarCommand};
use crate::text::text_of;
use crate::sidecar::wire::command_tree;

verus! {

/// The session that a command is addressed to, as far as the command names one.
pub open spec fn addressed_session(command: CommandView) -> Option<Seq<char>> {
    match command {
        CommandView::StartSession { session_id, .. } => Some(session_id),
        CommandView::SendMessage { session_id, .. } => Some(session_id),
        CommandView::AbortSession { session_id } => Some(session_id),
        CommandView::EndSession { session_id } => Some(session_id),
        CommandView::ToolApprovalResponse { .. } => None,
    }
}

/// The line that carries a command to a worker: its JSON text and a line feed. There
/// is none where the command has no JSON text.
pub open spec fn wire_line(command: CommandView) -> Option<Seq<char>> {
    match rendered_json(command_tree(command)) {
        Some(json) => Some(json.push('\n')),
        None => None,
    }
}

/// The sessions after `worker` has been registered under `session_id`.
pub open spec fn started<W>(sessions: Map<Seq<char>, W>, session_id: Seq<char>, worker: W) -> Map<
    Seq<char>,
    W,
> {
    sessions.insert(session_id, worker)
}

/// The sessions after `session_id` has been removed.
pub open spec fn removed<W>(sessions: Map<Seq<char>, W>, session_id: Seq<char>) -> Map<Seq<char>, W> {
    sessions.remove(session_id)
}

/// The sessions after a shutdown: none.
pub open spec fn shut_down<W>(sessions: Map<Seq<char>, W>) -> Map<Seq<char>, W> {
    Map::empty()
}

/// The ids of the registered sessions.
pub open spec fn active_ids<W>(sessions: Map<Seq<char>, W>) -> Set<Seq<char>> {
    sessions.dom()
}

/// The message for a session id that is already taken.
pub open spec fn conflict_message(session_id: Seq<char>) -> Seq<char> {
    "Session "@ + session_id + " already has a running worker"@
}

/// The message for a session id that is not registered.
pub open spec fn not_found_message(session_id: Seq<char>) -> Seq<char> {
    "No worker found for session "@ + session_id
}

/// Whether a start with `command` is refused, and with which failure: a command other
/// than `StartSession` is invalid; a session id that is registered is a conflict.
pub open spec fn start_refusal<W>(sessions: Map<Seq<char>, W>, command: CommandView) -> Option<
    (ErrorKind, Seq<char>),
> {
    match command {
        CommandView::StartSession { session_id, .. } => if sessions.contains_key(session_id) {
            Some((ErrorKind::Conflict, conflict_message(session_id)))
        } else {
            None
        },
        _ => Some((ErrorKind::InvalidCommand, "Expected StartSession command"@)),
    }
}

/// The session id that a command carries. An approval response carries none.
pub fn command_session_id(command: &SidecarCommand) -> (id: Option<String>)
    ensures
        text_of(id) == addressed_session(command@),
{
    match command {
        SidecarCommand::StartSession { session_id, .. } => Some(session_id.clone()),
        SidecarCommand::SendMessage { session_id, .. } => Some(session_id.clone()),
        SidecarCommand::AbortSession { session_id } => Some(session_id.clone()),
        SidecarCommand::EndSession { session_id } => Some(session_id.clone()),
        SidecarCommand::ToolApprovalResponse { .. } => None,
    }
}

/// Frames rendered JSON as a line for a worker's input. Where rendering gave nothing,
/// the failure says so.
pub fn frame_line(rendered: Option<String>) -> (line: Result<String, Failure>)
    ensures
        match (rendered, line) {
            (Some(json), Ok(line)) => line@ == json@.push('\n'),
            (None, Err(failure)) => failure.kind == ErrorKind::ProtocolError && failure.message@
                == "Failed to serialize command"@,
            _ => false,
        },
{
    match rendered {
        Some(json) => {
            let mut line = json;
            proof {
                reveal_strlit("\n");
                assert("\n"@.len() == 1);
                assert(line@ + "\n"@ =~= line@.push('\n'));
            }
            line.append("\n");
            Ok(line)
        },
        None => Err(Failure::new(ErrorKind::ProtocolError, "Failed to serialize command")),
    }
}

/// The line that carries `command` to a worker.
pub fn command_line(command: &SidecarCommand) -> (line: Result<String, Failure>)
    ensures
        match line {
            Ok(line) => wire_line(command@) == Some(line@),
            Err(failure) => wire_line(command@) is None && failure.kind
                == ErrorKind::ProtocolError && failure.message@ == "Failed to serialize command"@,
        },
{
    frame_line(command.to_json())
}

/// A worker that has left the registry, with the notice to send it before it is killed.
#[derive(Debug)]
pub struct Removal<W> {
    /// The worker to kill and to wait for.
    pub worker: W,
    /// The `AbortSession` line for the worker; sending it is best effort. `None` where
    /// the command has no line.
    pub notice: Option<String>,
}

/// Workers by session id.
pub struct SidecarManager<W> {
    workers: Registry<W>,
}

impl<W> SidecarManager<W> {
    /// The registered sessions, each with its worker.
    pub closed spec fn view(&self) -> Map<Seq<char>, W> {
        self.workers@
    }

    /// A manager without sessions.
    pub fn new() -> (manager: Self)
        ensures
            manager@ == Map::<Seq<char>, W>::empty(),
    {
        SidecarManager { workers: Registry::new() }
    }

    /// Whether a worker is registered under `session_id`.
    pub fn is_registered(&self, session_id: &str) -> (registered: bool)
        ensures
            registered == self@.contains_key(session_id@),
    {
        self.workers.contains(session_id)
    }

    /// Decides whether a start with `command` may go ahead, before anything is
    /// spawned: gives the session id to spawn a worker for, or the refusal.
    pub fn prepare_start(&self, command: &SidecarCommand) -> (decision: Result<String, Failure>)
        ensures
            match decision {
                Ok(session_id) => start_refusal(self@, command@) is None && addressed_session(
                    command@,
                ) == Some(session_id@),
                Err(failure) => start_refusal(self@, command@) == Some(
                    (failure.kind, failure.message@),
                ),
            },
    {
        match command {
            SidecarCommand::StartSession { session_id, .. } => {
                if self.workers.contains(session_id.as_str()) {
                    Err(
                        Failure::about(
                            ErrorKind::Conflict,
                            "Session ",
                            session_id.as_str(),
                            " already has a running worker",
                        ),
                    )
                } else {
                    Ok(session_id.clone())
                }
            },
            _ => Err(Failure::new(ErrorKind::InvalidCommand, "Expected StartSession command")),
        }
    }

    /// Registers `worker`, which the caller has spawned for `command` and which has
    /// taken the command's line, under the command's session id. A refused start
    /// changes nothing and gives the worker back.
    pub fn start_session(&mut self, command: &SidecarCommand, worker: W) -> (outcome: Result<
        (),
        (Failure, W),
    >)
        ensures
            match outcome {
                Ok(()) => start_refusal(old(self)@, command@) is None && final(self)@ == started(
                    old(self)@,
                    addressed_session(command@).unwrap(),
                    worker,
                ),
                Err((failure, back)) => start_refusal(old(self)@, command@) == Some(
                    (failure.kind, failure.message@),
                ) && back == worker && final(self)@ == old(self)@,
            },
    {
        match command {
            SidecarCommand::StartSession { session_id, .. } => {
                match self.workers.insert(session_id.clone(), worker) {
                    Ok(()) => Ok(()),
                    Err(back) => Err(
                        (
                            Failure::about(
                                ErrorKind::Conflict,
                                "Session ",
                                session_id.as_str(),
                                " already has a running worker",
                            ),
                            back,
                        ),
                    ),
                }
            },
            _ => Err(
                (Failure::new(ErrorKind::InvalidCommand, "Expected StartSession command"), worker),
            ),
        }
    }

    /// Routes `command` to the worker of the session that it names.
    pub fn send_command(&mut self, command: &SidecarCommand) -> (route: Result<
        (&mut W, String),
        Failure,
    >)
        ensures
            match route {
                Ok((worker, line)) => match addressed_session(command@) {
                    Some(session_id) => old(self)@.contains_key(session_id) && *worker == old(
                        self,
                    )@[session_id] && wire_line(command@) == Some(line@) && final(self)@ == old(
                        self,
                    )@.insert(session_id, *final(worker)),
                    None => false,
                },
                Err(failure) => final(self)@ == old(self)@ && match addressed_session(command@) {
                    None => failure.kind == ErrorKind::InvalidCommand && failure.message@
                        == "Command has no session ID"@,
                    Some(session_id) => if old(self)@.contains_key(session_id) {
                        wire_line(command@) is None && failure.kind == ErrorKind::ProtocolError
                            && failure.message@ == "Failed to serialize command"@
                    } else {
                        failure.kind == ErrorKind::NotFound && failure.message@
                            == not_found_message(session_id)
                    },
                },
            },
    {
        match command_session_id(command) {
            Some(session_id) => self.send_to_session(session_id.as_str(), command),
            None => Err(Failure::new(ErrorKind::InvalidCommand, "Command has no session ID")),
        }
    }

    /// Routes `command` to the worker registered under `session_id`: gives the worker
    /// and the line to write to its input.
    pub fn send_to_session(&mut self, session_id: &str, command: &SidecarCommand) -> (route: Result<
        (&mut W, String),
        Failure,
    >)
        ensures
            match route {
                Ok((worker, line)) => old(self)@.contains_key(session_id@) && *worker == old(
                    self,
                )@[session_id@] && wire_line(command@) == Some(line@) && final(self)@ == old(
                    self,
                )@.insert(session_id@, *final(worker)),
                Err(failure) => final(self)@ == old(self)@ && if old(self)@.contains_key(
                    session_id@,
                ) {
                    wire_line(command@) is None && failure.kind == ErrorKind::ProtocolError
                        && failure.message@ == "Failed to serialize command"@
                } else {
                    failure.kind == ErrorKind::NotFound && failure.message@ == not_found_message(
                        session_id@,
                    )
                },
            },
    {
        self.route_line(session_id, command_line(command))
    }

    /// Routes a line, or the failure to produce one, to the worker registered under
    /// `session_id`. A session that is not registered is reported before the line is
    /// looked at.
    pub fn route_line(&mut self, session_id: &str, line: Result<String, Failure>) -> (route: Result<
        (&mut W, String),
        Failure,
    >)
        ensures
            match route {
                Ok((worker, text)) => old(self)@.contains_key(session_id@) && line == Ok::<
                    String,
                    Failure,
                >(text) && *worker == old(self)@[session_id@] && final(self)@ == old(
                    self,
                )@.insert(session_id@, *final(worker)),
                Err(failure) => final(self)@ == old(self)@ && if old(self)@.contains_key(
                    session_id@,
                ) {
                    line == Err::<String, Failure>(failure)
                } else {
                    failure.kind == ErrorKind::NotFound && failure.message@ == not_found_message(
                        session_id@,
                    )
                },
            },
    {
        match self.workers.get_mut(session_id) {
            Some(worker) => match line {
                Ok(text) => Ok((worker, text)),
                Err(failure) => {
                    assert(old(self)@.insert(session_id@, *worker) =~= old(self)@);
                    Err(failure)
                },
            },
            None => Err(
                Failure::naming(ErrorKind::NotFound, "No worker found for session ", session_id),
            ),
        }
    }

    /// Takes the worker of `session_id` out of the registry. A session that is not
    /// registered is left alone: nothing changes and nothing is returned.
    pub fn remove_session(&mut self, session_id: &str) -> (removal: Option<Removal<W>>)
        ensures
            final(self)@ == removed(old(self)@, session_id@),
            match removal {
                Some(removal) => old(self)@.contains_key(session_id@) && removal.worker == old(
                    self,
                )@[session_id@] && text_of(removal.notice) == wire_line(
                    CommandView::AbortSession { session_id: session_id@ },
                ),
                None => !old(self)@.contains_key(session_id@) && final(self)@ == old(self)@,
            },
    {
        match self.workers.remove(session_id) {
            Some(worker) => {
                let abort = SidecarCommand::AbortSession { session_id: session_id.to_owned() };
                let notice = match command_line(&abort) {
                    Ok(line) => Some(line),
                    Err(_) => None,
                };
                Some(Removal { worker, notice })
            },
            None => {
                assert(old(self)@.remove(session_id@) =~= old(self)@);
                None
            },
        }
    }

    /// A snapshot of the ids of the registered sessions, each once, in no particular
    /// order.
    pub fn active_session_ids(&self) -> (ids: Vec<String>)
        ensures
            texts(ids@).no_duplicates(),
            forall|id: Seq<char>| texts(ids@).contains(id) <==> active_ids(self@).contains(id),
    {
        self.workers.ids()
    }

    /// Empties the registry and hands out every worker, for the caller to kill.
    pub fn shutdown(&mut self) -> (workers: Vec<Entry<W>>)
        ensures
            final(self)@ == shut_down(old(self)@),
            entry_ids(workers@).no_duplicates(),
            entry_map(workers@) == old(self)@,
    {
        self.workers.drain()
    }
}

/// A start under a session id that is registered is refused as a conflict. Together
/// with the contract of `start_session`, which leaves the registry as it was on every
/// refusal, this says that neither the worker that is there nor the active ids change.
pub proof fn lemma_second_start_conflicts<W>(sessions: Map<Seq<char>, W>, command: CommandView)
    requires
        command is StartSession,
        sessions.contains_key(addressed_session(command).unwrap()),
    ensures
        start_refusal(sessions, command) == Some(
            (ErrorKind::Conflict, conflict_message(addressed_session(command).unwrap())),
        ),
{
}

/// After a start the session is active beside those that were; started from nothing it
/// is the only one. After its removal it is no longer active, and the others are as they
/// were before the start.
pub proof fn lemma_start_then_remove<W>(sessions: Map<Seq<char>, W>, session_id: Seq<char>, worker: W)
    ensures
        active_ids(started(sessions, session_id, worker)) == active_ids(sessions).insert(
            session_id,
        ),
        active_ids(started(Map::<Seq<char>, W>::empty(), session_id, worker)) == set![session_id],
        !active_ids(removed(started(sessions, session_id, worker), session_id)).contains(
            session_id,
        ),
        removed(started(sessions, session_id, worker), session_id) == removed(
            sessions,
            session_id,
        ),
{
    assert(active_ids(started(sessions, session_id, worker)) =~= active_ids(sessions).insert(
        session_id,
    ));
    assert(active_ids(started(Map::<Seq<char>, W>::empty(), session_id, worker)) =~= set![
        session_id,
    ]);
    assert(removed(started(sessions, session_id, worker), session_id) =~= removed(
        sessions,
        session_id,
    ));
}

/// Removing a session that is not registered changes nothing.
pub proof fn lemma_remove_unregistered<W>(sessions: Map<Seq<char>, W>, session_id: Seq<char>)
    requires
        !sessions.contains_key(session_id),
    ensures
        removed(sessions, session_id) == sessions,
{
    assert(removed(sessions, session_id) =~= sessions);
}

/// A shutdown leaves no session active, and so does a second one after it.
pub proof fn lemma_shutdown_twice<W>(sessions: Map<Seq<char>, W>)
    ensures
        active_ids(shut_down(sessions)) == Set::<Seq<char>>::empty(),
        shut_down(shut_down(sessions)) == shut_down(sessions),
        active_ids(shut_down(shut_down(sessions))) == Set::<Seq<char>>::empty(),
{
    assert(active_ids(shut_down(sessions)) =~= Set::<Seq<char>>::empty());
}

} // verus!
