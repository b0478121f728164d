//! Shell terminals that report in plain text: their registry and what their reader and
//! their waiter report.

use vstd::prelude::*;
use vstd::string::StringSliceAdditionalSpecFns;
use crate::error::{ErrorKind, Failure};
use crate::registry::{entry_ids, entry_map, Entry, Registry};
use crate::text::{lossy_text, lossy_utf8};

verus! {

/// Output of a terminal, as text.
#[derive(Debug, Clone)]
pub struct PtyOutput {
    pub pty_id: String,
    pub data: String,
}

/// The exit of the process behind a terminal.
#[derive(Debug, Clone)]
pub struct PtyExit {
    pub pty_id: String,
    pub code: Option<i32>,
}

/// The message for a terminal id that is not registered.
pub open spec fn unknown_message(pty_id: Seq<char>) -> Seq<char> {
    "PTY not found: "@ + pty_id
}

/// An exit code as a signed number of the same 32 bits.
pub open spec fn signed_code(code: u32) -> i32 {
    if code <= 0x7fff_ffff {
        code as i32
    } else {
        (code - 0x1_0000_0000) as i32
    }
}

/// What the reader reports for `bytes` read from the terminal `pty_id`: their text, or
/// nothing where nothing was read, which ends the reader.
pub fn pty_output(pty_id: &str, bytes: &[u8]) -> (report: Option<PtyOutput>)
    ensures
        match report {
            Some(output) => bytes@.len() > 0 && output.pty_id@ == pty_id@ && output.data@
                == lossy_utf8(bytes@),
            None => bytes@.len() == 0,
        },
{
    if bytes.len() == 0 {
        None
    } else {
        Some(PtyOutput { pty_id: pty_id.to_owned(), data: lossy_text(bytes) })
    }
}

/// What the waiter reports when the process behind the terminal `pty_id` has been
/// waited for: its exit code where the wait gave one.
pub fn pty_exit(pty_id: &str, code: Option<u32>) -> (report: PtyExit)
    ensures
        report.pty_id@ == pty_id@,
        report.code == match code {
            Some(c) => Some(signed_code(c)),
            None => None,
        },
{
    let code = match code {
        Some(c) => {
            if c <= 0x7fff_ffff {
                Some(c as i32)
            } else {
                Some((c as i64 - 0x1_0000_0000) as i32)
            }
        },
        None => None,
    };
    PtyExit { pty_id: pty_id.to_owned(), code }
}

/// Shell terminals by id.
pub struct PtyState<S> {
    sessions: Registry<S>,
}

impl<S> PtyState<S> {
    /// The registered terminals.
    pub closed spec fn view(&self) -> Map<Seq<char>, S> {
        self.sessions@
    }

    /// A state without terminals.
    pub fn new() -> (state: Self)
        ensures
            state@ == Map::<Seq<char>, S>::empty(),
    {
        PtyState { sessions: Registry::new() }
    }
}

/// Registers `session` under `pty_id`. A session that was registered under the id makes
/// way and is handed out.
pub fn pty_spawn<S>(state: &mut PtyState<S>, pty_id: String, session: S) -> (previous: Option<S>)
    ensures
        final(state)@ == old(state)@.insert(pty_id@, session),
        match previous {
            Some(previous) => old(state)@.contains_key(pty_id@) && previous == old(state)@[pty_id@],
            None => !old(state)@.contains_key(pty_id@),
        },
{
    state.sessions.replace(pty_id, session)
}

/// Routes input to the terminal registered under `pty_id`: gives the session and the
/// bytes to write to it, which are those of `data`.
pub fn pty_write<'a, S>(state: &'a mut PtyState<S>, pty_id: &str, data: &str) -> (route: Result<
    (&'a mut S, Vec<u8>),
    Failure,
>)
    ensures
        match route {
            Ok((session, bytes)) => old(state)@.contains_key(pty_id@) && *session == old(
                state,
            )@[pty_id@] && bytes@ == data.spec_bytes() && final(state)@ == old(state)@.insert(
                pty_id@,
                *final(session),
            ),
            Err(failure) => !old(state)@.contains_key(pty_id@) && final(state)@ == old(state)@
                && failure.kind == ErrorKind::NotFound && failure.message@ == unknown_message(
                pty_id@,
            ),
        },
{
    match state.sessions.get_mut(pty_id) {
        Some(session) => Ok((session, data.as_bytes_vec())),
        None => Err(unknown(pty_id)),
    }
}

/// Gives the session of the terminal registered under `pty_id`, to be resized.
pub fn pty_resize<'a, S>(state: &'a PtyState<S>, pty_id: &str) -> (route: Result<&'a S, Failure>)
    ensures
        match route {
            Ok(session) => state@.contains_key(pty_id@) && *session == state@[pty_id@],
            Err(failure) => !state@.contains_key(pty_id@) && failure.kind == ErrorKind::NotFound
                && failure.message@ == unknown_message(pty_id@),
        },
{
    match state.sessions.get(pty_id) {
        Some(session) => Ok(session),
        None => Err(unknown(pty_id)),
    }
}

/// Takes the terminal of `pty_id` out of the state, if it is there.
pub fn pty_kill<S>(state: &mut PtyState<S>, pty_id: &str) -> (session: Option<S>)
    ensures
        final(state)@ == old(state)@.remove(pty_id@),
        match session {
            Some(session) => old(state)@.contains_key(pty_id@) && session == old(state)@[pty_id@],
            None => !old(state)@.contains_key(pty_id@),
        },
{
    state.sessions.remove(pty_id)
}

/// Empties the state and hands out every session.
pub fn shutdown_all_ptys<S>(state: &mut PtyState<S>) -> (sessions: Vec<Entry<S>>)
    ensures
        final(state)@ == Map::<Seq<char>, S>::empty(),
        entry_ids(sessions@).no_duplicates(),
        entry_map(sessions@) == old(state)@,
{
    state.sessions.drain()
}

/// The failure for a terminal id that is not registered.
fn unknown(pty_id: &str) -> (failure: Failure)
    ensures
        failure.kind == ErrorKind::NotFound,
        failure.message@ == unknown_message(pty_id@),
{
    Failure::naming(ErrorKind::NotFound, "PTY not found: ", pty_id)
}

} // verus!
