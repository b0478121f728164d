//! The terminal registry: at most one terminal session per terminal id.
//!
//! As with agent sessions, the registry decides and the caller acts: a session handle
//! `S` is whatever the caller holds of an open terminal.

use vstd::prelude::*;
use crate::error::{ErrorKind, Failure};
use crate::pty::transport::{base64_bytes, decode_base64};
use crate::pty::types::TerminalSize;
use crate::registry::{entry_ids, entry_map, texts, Entry, Registry};

verus! {

/// A terminal session with the size that was last asked for.
#[derive(Debug)]
pub struct Terminal<S> {
    pub size: TerminalSize,
    pub session: S,
}

/// How to open a terminal for the user's interactive shell: where the shell runs, with
/// which additions to its environment and at which size.
#[derive(Debug, Clone)]
pub struct TerminalLaunch {
    pub cwd: String,
    pub env: Vec<(String, String)>,
    pub size: TerminalSize,
}

/// The message for a terminal id that is already taken.
pub open spec fn exists_message(session_id: Seq<char>) -> Seq<char> {
    "PTY session already exists: "@ + session_id
}

/// The message for a terminal id that is not registered.
pub open spec fn missing_message(session_id: Seq<char>) -> Seq<char> {
    "PTY session not found: "@ + session_id
}

/// The terminals after `session` has been registered under `session_id`.
pub open spec fn opened<S>(
    terminals: Map<Seq<char>, Terminal<S>>,
    session_id: Seq<char>,
    size: TerminalSize,
    session: S,
) -> Map<Seq<char>, Terminal<S>> {
    terminals.insert(session_id, Terminal { size, session })
}

/// The terminals after `session_id` has been closed.
pub open spec fn closed<S>(terminals: Map<Seq<char>, Terminal<S>>, session_id: Seq<char>) -> Map<
    Seq<char>,
    Terminal<S>,
> {
    terminals.remove(session_id)
}

/// Whether `launch` is the launch of a shell in `cwd` at `rows` by `cols` cells, in an
/// environment that asks for colour.
pub open spec fn shell_launch(launch: TerminalLaunch, cwd: Seq<char>, rows: u16, cols: u16) -> bool {
    &&& launch.cwd@ == cwd
    &&& launch.size == TerminalSize::cells(rows, cols)
    &&& launch.env@.len() == 1
    &&& launch.env@[0].0@ == "TERM"@
    &&& launch.env@[0].1@ == "xterm-256color"@
}

/// Describes the launch of a shell in `cwd` at `rows` by `cols` cells.
pub fn terminal_launch(cwd: &str, rows: u16, cols: u16) -> (launch: TerminalLaunch)
    ensures
        shell_launch(launch, cwd@, rows, cols),
{
    let mut env: Vec<(String, String)> = Vec::new();
    env.push(("TERM".to_owned(), "xterm-256color".to_owned()));
    TerminalLaunch { cwd: cwd.to_owned(), env, size: TerminalSize::of_cells(rows, cols) }
}

/// Terminal sessions by terminal id.
pub struct PtyManager<S> {
    sessions: Registry<Terminal<S>>,
}

/// The failure for a terminal id that is not registered.
fn missing<'a>(session_id: &'a str) -> (failure: Failure)
    ensures
        failure.kind == ErrorKind::NotFound,
        failure.message@ == missing_message(session_id@),
{
    Failure::naming(ErrorKind::NotFound, "PTY session not found: ", session_id)
}

/// The failure for a terminal id that is already taken.
fn taken<'a>(session_id: &'a str) -> (failure: Failure)
    ensures
        failure.kind == ErrorKind::Conflict,
        failure.message@ == exists_message(session_id@),
{
    Failure::naming(ErrorKind::Conflict, "PTY session already exists: ", session_id)
}

impl<S> PtyManager<S> {
    /// The registered terminals, each with its size and session.
    pub closed spec fn view(&self) -> Map<Seq<char>, Terminal<S>> {
        self.sessions@
    }

    /// A manager without terminals.
    pub fn new() -> (manager: Self)
        ensures
            manager@ == Map::<Seq<char>, Terminal<S>>::empty(),
    {
        PtyManager { sessions: Registry::new() }
    }

    /// Whether a terminal is registered under `session_id`.
    pub fn is_registered(&self, session_id: &str) -> (registered: bool)
        ensures
            registered == self@.contains_key(session_id@),
    {
        self.sessions.contains(session_id)
    }

    /// Decides whether a terminal may be opened under `session_id`, before anything is
    /// opened: gives the launch to carry out, or the conflict.
    pub fn prepare_start(&self, session_id: &str, cwd: &str, rows: u16, cols: u16) -> (decision: Result<
        TerminalLaunch,
        Failure,
    >)
        ensures
            match decision {
                Ok(launch) => !self@.contains_key(session_id@) && shell_launch(
                    launch,
                    cwd@,
                    rows,
                    cols,
                ),
                Err(failure) => self@.contains_key(session_id@) && failure.kind
                    == ErrorKind::Conflict && failure.message@ == exists_message(session_id@),
            },
    {
        if self.sessions.contains(session_id) {
            return Err(taken(session_id));
        }
        Ok(terminal_launch(cwd, rows, cols))
    }

    /// Registers `session`, which the caller has opened at `rows` by `cols`, under
    /// `session_id`. Where the id is taken nothing changes and the session comes back.
    pub fn start_terminal(&mut self, session_id: String, rows: u16, cols: u16, session: S) -> (outcome:
        Result<(), (Failure, S)>)
        ensures
            match outcome {
                Ok(()) => !old(self)@.contains_key(session_id@) && final(self)@ == opened(
                    old(self)@,
                    session_id@,
                    TerminalSize::cells(rows, cols),
                    session,
                ),
                Err((failure, back)) => old(self)@.contains_key(session_id@) && failure.kind
                    == ErrorKind::Conflict && failure.message@ == exists_message(session_id@)
                    && back == session && final(self)@ == old(self)@,
            },
    {
        let failure = taken(session_id.as_str());
        let terminal = Terminal { size: TerminalSize::of_cells(rows, cols), session };
        match self.sessions.insert(session_id, terminal) {
            Ok(()) => Ok(()),
            Err(back) => Err((failure, back.session)),
        }
    }

    /// Routes input to the terminal registered under `session_id`: gives the session
    /// and the bytes to write to it, which `data` spells in base64.
    pub fn write_input(&mut self, session_id: &str, data: &str) -> (route: Result<
        (&mut S, Vec<u8>),
        Failure,
    >)
        ensures
            match route {
                Ok((session, bytes)) => old(self)@.contains_key(session_id@) && *session == old(
                    self,
                )@[session_id@].session && base64_bytes(data@) == Some(bytes@) && final(self)@
                    == old(self)@.insert(
                    session_id@,
                    Terminal { size: old(self)@[session_id@].size, session: *final(session) },
                ),
                Err(failure) => final(self)@ == old(self)@ && if old(self)@.contains_key(
                    session_id@,
                ) {
                    base64_bytes(data@) is None && failure.kind == ErrorKind::ProtocolError
                        && "Base64 decode error: "@.is_prefix_of(failure.message@)
                } else {
                    failure.kind == ErrorKind::NotFound && failure.message@ == missing_message(
                        session_id@,
                    )
                },
            },
    {
        self.route_input(session_id, decode_base64(data))
    }

    /// Routes decoded input, or the complaint of the decoder, to the terminal
    /// registered under `session_id`. A terminal that is not registered is reported
    /// before the input is looked at.
    pub fn route_input(&mut self, session_id: &str, decoded: Result<Vec<u8>, String>) -> (route: Result<
        (&mut S, Vec<u8>),
        Failure,
    >)
        ensures
            match route {
                Ok((session, bytes)) => old(self)@.contains_key(session_id@) && decoded == Ok::<
                    Vec<u8>,
                    String,
                >(bytes) && *session == old(self)@[session_id@].session && final(self)@ == old(
                    self,
                )@.insert(
                    session_id@,
                    Terminal { size: old(self)@[session_id@].size, session: *final(session) },
                ),
                Err(failure) => final(self)@ == old(self)@ && if old(self)@.contains_key(
                    session_id@,
                ) {
                    decoded is Err && failure.kind == ErrorKind::ProtocolError && failure.message@
                        == "Base64 decode error: "@ + decoded->Err_0@
                } else {
                    failure.kind == ErrorKind::NotFound && failure.message@ == missing_message(
                        session_id@,
                    )
                },
            },
    {
        match self.sessions.get_mut(session_id) {
            Some(terminal) => match decoded {
                Ok(bytes) => Ok((&mut terminal.session, bytes)),
                Err(description) => {
                    assert(old(self)@.insert(session_id@, *terminal) =~= old(self)@);
                    Err(
                        Failure::naming(
                            ErrorKind::ProtocolError,
                            "Base64 decode error: ",
                            description.as_str(),
                        ),
                    )
                },
            },
            None => Err(missing(session_id)),
        }
    }

    /// Records the new size of the terminal registered under `session_id` and gives the
    /// session to resize.
    pub fn resize(&mut self, session_id: &str, rows: u16, cols: u16) -> (route: Result<
        (&mut S, TerminalSize),
        Failure,
    >)
        ensures
            match route {
                Ok((session, size)) => old(self)@.contains_key(session_id@) && *session == old(
                    self,
                )@[session_id@].session && size == TerminalSize::cells(rows, cols) && final(self)@
                    == old(self)@.insert(session_id@, Terminal { size, session: *final(session) })
                    && (*final(session) == *session ==> final(self)@ == resized(
                    old(self)@,
                    session_id@,
                    size,
                )),
                Err(failure) => !old(self)@.contains_key(session_id@) && final(self)@ == old(
                    self,
                )@ && failure.kind == ErrorKind::NotFound && failure.message@ == missing_message(
                    session_id@,
                ),
            },
    {
        match self.sessions.get_mut(session_id) {
            Some(terminal) => {
                let size = TerminalSize::of_cells(rows, cols);
                terminal.size = size;
                Ok((&mut terminal.session, size))
            },
            None => Err(missing(session_id)),
        }
    }

    /// The size that was last asked for of the terminal registered under `session_id`.
    pub fn size_of(&self, session_id: &str) -> (size: Option<TerminalSize>)
        ensures
            match size {
                Some(size) => self@.contains_key(session_id@) && size == self@[session_id@].size,
                None => !self@.contains_key(session_id@),
            },
    {
        match self.sessions.get(session_id) {
            Some(terminal) => Some(terminal.size),
            None => None,
        }
    }

    /// Takes the terminal of `session_id` out of the registry, for the caller to kill.
    /// A terminal that is not registered is left alone.
    pub fn close(&mut self, session_id: &str) -> (session: Option<S>)
        ensures
            final(self)@ == closed(old(self)@, session_id@),
            match session {
                Some(session) => old(self)@.contains_key(session_id@) && session == old(
                    self,
                )@[session_id@].session,
                None => !old(self)@.contains_key(session_id@) && final(self)@ == old(self)@,
            },
    {
        match self.sessions.remove(session_id) {
            Some(terminal) => Some(terminal.session),
            None => {
                assert(old(self)@.remove(session_id@) =~= old(self)@);
                None
            },
        }
    }

    /// A snapshot of the ids of the registered terminals, each once, in no particular
    /// order.
    pub fn terminal_ids(&self) -> (ids: Vec<String>)
        ensures
            texts(ids@).no_duplicates(),
            forall|id: Seq<char>| texts(ids@).contains(id) <==> self@.contains_key(id),
    {
        self.sessions.ids()
    }

    /// Closes every terminal: empties the registry and hands out every session, for the
    /// caller to kill.
    pub fn shutdown(&mut self) -> (sessions: Vec<Entry<Terminal<S>>>)
        ensures
            final(self)@ == Map::<Seq<char>, Terminal<S>>::empty(),
            entry_ids(sessions@).no_duplicates(),
            entry_map(sessions@) == old(self)@,
    {
        self.sessions.drain()
    }
}

/// An id that has been closed is free again: a terminal can be opened under it, and is
/// then registered. Terminals under other ids are not touched by either step.
pub proof fn lemma_closed_id_is_free<S>(
    terminals: Map<Seq<char>, Terminal<S>>,
    session_id: Seq<char>,
    size: TerminalSize,
    session: S,
)
    ensures
        !closed(terminals, session_id).contains_key(session_id),
        opened(closed(terminals, session_id), session_id, size, session).contains_key(session_id),
        forall|other: Seq<char>|
            other != session_id ==> (#[trigger] opened(
                closed(terminals, session_id),
                session_id,
                size,
                session,
            ).contains_key(other) <==> terminals.contains_key(other)),
{
}

/// Closing a terminal that is not registered changes nothing.
pub proof fn lemma_close_unregistered<S>(terminals: Map<Seq<char>, Terminal<S>>, session_id: Seq<char>)
    requires
        !terminals.contains_key(session_id),
    ensures
        closed(terminals, session_id) == terminals,
{
    assert(closed(terminals, session_id) =~= terminals);
}

/// The terminals after the terminal under `session_id` has been resized.
pub open spec fn resized<S>(
    terminals: Map<Seq<char>, Terminal<S>>,
    session_id: Seq<char>,
    size: TerminalSize,
) -> Map<Seq<char>, Terminal<S>> {
    terminals.insert(session_id, Terminal { size, session: terminals[session_id].session })
}

/// Resizing a terminal to the size that it has changes nothing, and resizing never
/// touches another terminal.
pub proof fn lemma_resize<S>(
    terminals: Map<Seq<char>, Terminal<S>>,
    session_id: Seq<char>,
    size: TerminalSize,
    other: Seq<char>,
)
    requires
        terminals.contains_key(session_id),
        other != session_id,
    ensures
        size == terminals[session_id].size ==> resized(terminals, session_id, size) == terminals,
        resized(terminals, session_id, size).contains_key(other) == terminals.contains_key(other),
        terminals.contains_key(other) ==> resized(terminals, session_id, size)[other]
            == terminals[other],
{
    if size == terminals[session_id].size {
        assert(resized(terminals, session_id, size) =~= terminals);
    }
}

} // verus!
