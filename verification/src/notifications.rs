//! Desktop notifications, shown by the system's script runner.

use vstd::prelude::*;
use crate::text::{quote, quoted};

verus! {

/// Prepares the notification system. There is nothing to prepare: this always succeeds.
pub fn init() -> (outcome: Result<(), String>)
    ensures
        outcome is Ok,
{
    Ok(())
}

/// The script that shows a notification. Title and body stand in double quotes, with a
/// backslash before each backslash and each double quote of theirs.
pub open spec fn script_for(title: Seq<char>, body: Seq<char>) -> Seq<char> {
    "display notification \""@ + quoted(body) + "\" with title \""@ + quoted(title) + "\""@
}

/// A notification as the command that shows it.
#[derive(Debug, Clone)]
pub struct Notification {
    /// The program to run.
    pub program: String,
    /// Its arguments.
    pub args: Vec<String>,
}

/// Describes the command that shows a notification with the given title and body. The
/// session that the notification is about does not show in it.
pub fn send(title: &str, body: &str, _session_id: &str) -> (notification: Notification)
    ensures
        notification.program@ == "/usr/bin/osascript"@,
        notification.args@.len() == 2,
        notification.args@[0]@ == "-e"@,
        notification.args@[1]@ == script_for(title@, body@),
{
    let title = quote(title);
    let body = quote(body);
    let mut script = "display notification \"".to_owned();
    script.append(body.as_str());
    script.append("\" with title \"");
    script.append(title.as_str());
    script.append("\"");
    let mut args: Vec<String> = Vec::new();
    args.push("-e".to_owned());
    args.push(script);
    Notification { program: "/usr/bin/osascript".to_owned(), args }
}

} // verus!
