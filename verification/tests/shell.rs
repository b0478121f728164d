use central::commands::greet;
use central::commands::terminal::{
    pty_exit, pty_kill, pty_output, pty_resize, pty_spawn, pty_write, shutdown_all_ptys, PtyState,
};
use central::debug_log::{log, timestamp};
use central::error::{ErrorKind, Failure};
use central::notifications::send;

#[test]
fn greet_includes_name() {
    let result = greet("Alice");
    assert_eq!(result, "Hello, Alice! Welcome to Central.");
}

#[test]
fn greet_handles_empty_name() {
    let result = greet("");
    assert_eq!(result, "Hello, ! Welcome to Central.");
}

#[test]
fn timestamp_is_the_time_of_day() {
    assert_eq!(timestamp(0), "00:00:00.000");
    assert_eq!(timestamp(1_000), "00:00:01.000");
    assert_eq!(timestamp(86_399_999), "23:59:59.999");
    assert_eq!(timestamp(86_400_000), "00:00:00.000");
    // 2023-11-14 22:13:20.045 UTC
    assert_eq!(timestamp(1_700_000_000_045), "22:13:20.045");
    assert_eq!(timestamp(3_723_007), "01:02:03.007");
    assert_eq!(timestamp(u64::MAX), "14:25:51.615");
}

#[test]
fn log_line_has_stamp_source_and_message() {
    assert_eq!(log("12:00:00.000", "RUST", "started"), "[12:00:00.000] [RUST] started\n");
    assert_eq!(log("", "", ""), "[] [] \n");
}

#[test]
fn notification_script_escapes_quotes_and_backslashes() {
    let n = send("Build \"done\"", "see C:\\logs", "s1");
    assert_eq!(n.program, "/usr/bin/osascript");
    assert_eq!(
        n.args,
        vec![
            "-e".to_string(),
            "display notification \"see C:\\\\logs\" with title \"Build \\\"done\\\"\"".to_string()
        ]
    );
    let plain = send("Title", "Body", "");
    assert_eq!(plain.args[1], "display notification \"Body\" with title \"Title\"");
    // A backslash in front of a quote: both are escaped, each once.
    let mixed = send("", "\\\"", "s");
    assert_eq!(mixed.args[1], "display notification \"\\\\\\\"\" with title \"\"");
}

#[test]
fn failure_shows_its_message() {
    let failure = Failure::new(ErrorKind::IoError, "Failed to write to worker stdin: broken pipe");
    assert_eq!(failure.kind, ErrorKind::IoError);
    assert_eq!(failure.to_string(), "Failed to write to worker stdin: broken pipe");
    let failure = Failure::about(ErrorKind::LockError, "Failed to lock ", "sidecar", ": poisoned");
    assert_eq!(failure.kind, ErrorKind::LockError);
    assert_eq!(failure.message, "Failed to lock sidecar: poisoned");
    let failure = Failure::new(ErrorKind::SpawnFailure, "");
    assert_eq!(failure.kind, ErrorKind::SpawnFailure);
    assert_eq!(failure.message, "");
}

#[test]
fn shell_output_is_text() {
    let out = pty_output("shell-a", b"hi \xe2\x9c\x93 \xff").unwrap();
    assert_eq!(out.pty_id, "shell-a");
    assert_eq!(out.data, "hi \u{2713} \u{fffd}");
    assert!(pty_output("shell-a", b"").is_none());
}

#[test]
fn shell_exit_carries_the_code() {
    assert_eq!(pty_exit("shell-a", Some(0)).code, Some(0));
    assert_eq!(pty_exit("shell-a", Some(130)).code, Some(130));
    assert_eq!(pty_exit("shell-a", Some(u32::MAX)).code, Some(-1));
    assert_eq!(pty_exit("shell-a", Some(0x8000_0000)).code, Some(i32::MIN));
    assert_eq!(pty_exit("shell-a", Some(0x7fff_ffff)).code, Some(i32::MAX));
    let exit = pty_exit("shell-z", None);
    assert_eq!(exit.code, None);
    assert_eq!(exit.pty_id, "shell-z");
}

#[test]
fn shell_state_routes_by_id() {
    let mut state: PtyState<u32> = PtyState::new();
    assert_eq!(pty_spawn(&mut state, "shell-a".to_string(), 1), None);
    assert_eq!(pty_spawn(&mut state, "shell-b".to_string(), 2), None);
    // A second spawn under one id replaces the session.
    assert_eq!(pty_spawn(&mut state, "shell-a".to_string(), 3), Some(1));

    let (session, bytes) = pty_write(&mut state, "shell-a", "ls\n").unwrap();
    assert_eq!(*session, 3);
    assert_eq!(bytes, b"ls\n".to_vec());
    assert_eq!(*pty_resize(&state, "shell-b").unwrap(), 2);

    let failure = pty_write(&mut state, "shell-c", "x").unwrap_err();
    assert_eq!(failure.kind, ErrorKind::NotFound);
    assert_eq!(failure.message, "PTY not found: shell-c");
    let failure = pty_resize(&state, "shell-c").unwrap_err();
    assert_eq!(failure.message, "PTY not found: shell-c");

    assert_eq!(pty_kill(&mut state, "shell-a"), Some(3));
    assert_eq!(pty_kill(&mut state, "shell-a"), None);
    let left: Vec<(String, u32)> =
        shutdown_all_ptys(&mut state).into_iter().map(|e| (e.id, e.handle)).collect();
    assert_eq!(left, vec![("shell-b".to_string(), 2)]);
    assert!(shutdown_all_ptys(&mut state).is_empty());
}
