use central::error::ErrorKind;
use central::pty::manager::{terminal_launch, PtyManager};
use central::pty::reader::{reader_events, reader_step, ChunkRead, CHUNK_SIZE};
use central::pty::types::{PtyEvent, TerminalSize};

#[test]
fn write_before_start_is_not_found() {
    let mut manager: PtyManager<u32> = PtyManager::new();
    let failure = manager.write_input("t1", "bHMK").unwrap_err();
    assert_eq!(failure.kind, ErrorKind::NotFound);
    assert_eq!(failure.message, "PTY session not found: t1");
}

#[test]
fn terminal_scenario_write_then_close() {
    let mut manager: PtyManager<Vec<u8>> = PtyManager::new();
    let launch = manager.prepare_start("t1", "/tmp", 24, 80).unwrap();
    assert_eq!(launch.cwd, "/tmp");
    assert_eq!(launch.size, TerminalSize { rows: 24, cols: 80, pixel_width: 0, pixel_height: 0 });
    assert_eq!(launch.env, vec![("TERM".to_string(), "xterm-256color".to_string())]);
    manager.start_terminal("t1".to_string(), 24, 80, Vec::new()).unwrap();

    // "ls\n" travels as base64 and arrives as the bytes themselves.
    let (session, bytes) = manager.write_input("t1", "bHMK").unwrap();
    assert_eq!(bytes, b"ls\n".to_vec());
    session.extend_from_slice(&bytes);

    // What the terminal echoes goes out as one Output event per read.
    let step = reader_step(&Ok(b"ls\n".to_vec()));
    assert!(!step.done);
    match step.event {
        PtyEvent::Output { data } => assert_eq!(data, "bHMK"),
        _ => panic!("Expected Output event"),
    }

    let closed = manager.close("t1").unwrap();
    assert_eq!(closed, b"ls\n".to_vec());
    let failure = manager.write_input("t1", "bHMK").unwrap_err();
    assert_eq!(failure.kind, ErrorKind::NotFound);
}

#[test]
fn closed_id_can_be_reused() {
    let mut manager: PtyManager<u32> = PtyManager::new();
    manager.start_terminal("t1".to_string(), 24, 80, 1).unwrap();
    assert_eq!(manager.close("t1"), Some(1));
    assert!(manager.prepare_start("t1", "/", 10, 20).is_ok());
    manager.start_terminal("t1".to_string(), 10, 20, 2).unwrap();
    let (session, _) = manager.write_input("t1", "").unwrap();
    assert_eq!(*session, 2);
}

#[test]
fn second_terminal_under_same_id_is_a_conflict() {
    let mut manager: PtyManager<u32> = PtyManager::new();
    manager.start_terminal("t1".to_string(), 24, 80, 1).unwrap();
    let failure = manager.prepare_start("t1", "/tmp", 24, 80).unwrap_err();
    assert_eq!(failure.kind, ErrorKind::Conflict);
    assert_eq!(failure.message, "PTY session already exists: t1");
    let (failure, back) = manager.start_terminal("t1".to_string(), 30, 90, 2).unwrap_err();
    assert_eq!(failure.kind, ErrorKind::Conflict);
    assert_eq!(back, 2);
    assert_eq!(manager.size_of("t1"), Some(TerminalSize { rows: 24, cols: 80, pixel_width: 0, pixel_height: 0 }));
    assert_eq!(manager.terminal_ids(), vec!["t1".to_string()]);
}

#[test]
fn malformed_input_is_refused() {
    let mut manager: PtyManager<u32> = PtyManager::new();
    manager.start_terminal("t1".to_string(), 24, 80, 1).unwrap();
    let failure = manager.write_input("t1", "not base64!").unwrap_err();
    assert_eq!(failure.kind, ErrorKind::ProtocolError);
    assert!(failure.message.starts_with("Base64 decode error: "));
    assert!(failure.message.len() > "Base64 decode error: ".len());
    // An unregistered id is reported before the input is looked at.
    let failure = manager.write_input("t2", "not base64!").unwrap_err();
    assert_eq!(failure.kind, ErrorKind::NotFound);
}

#[test]
fn resize_records_the_new_size() {
    let mut manager: PtyManager<u32> = PtyManager::new();
    manager.start_terminal("t1".to_string(), 24, 80, 1).unwrap();
    manager.start_terminal("t2".to_string(), 24, 80, 2).unwrap();
    let (session, size) = manager.resize("t1", 50, 132).unwrap();
    assert_eq!(*session, 1);
    assert_eq!(size, TerminalSize { rows: 50, cols: 132, pixel_width: 0, pixel_height: 0 });
    assert_eq!(manager.size_of("t1"), Some(size));
    assert_eq!(
        manager.size_of("t2"),
        Some(TerminalSize { rows: 24, cols: 80, pixel_width: 0, pixel_height: 0 })
    );
    // Resizing to the size that is set is allowed.
    assert!(manager.resize("t1", 50, 132).is_ok());
    assert_eq!(manager.size_of("t1"), Some(size));

    let failure = manager.resize("t3", 1, 1).unwrap_err();
    assert_eq!(failure.kind, ErrorKind::NotFound);
    assert_eq!(failure.message, "PTY session not found: t3");
    assert_eq!(manager.size_of("t3"), None);
}

#[test]
fn close_of_unregistered_terminal_changes_nothing() {
    let mut manager: PtyManager<u32> = PtyManager::new();
    assert_eq!(manager.close("t1"), None);
    manager.start_terminal("t1".to_string(), 24, 80, 1).unwrap();
    assert_eq!(manager.close("t2"), None);
    assert!(manager.is_registered("t1"));
}

#[test]
fn terminal_shutdown_is_idempotent() {
    let mut manager: PtyManager<u32> = PtyManager::new();
    manager.start_terminal("t1".to_string(), 24, 80, 1).unwrap();
    manager.start_terminal("t2".to_string(), 24, 80, 2).unwrap();
    let mut sessions: Vec<(String, u32)> =
        manager.shutdown().into_iter().map(|e| (e.id, e.handle.session)).collect();
    sessions.sort();
    assert_eq!(sessions, vec![("t1".to_string(), 1), ("t2".to_string(), 2)]);
    assert!(manager.terminal_ids().is_empty());
    assert!(manager.shutdown().is_empty());
    assert!(manager.terminal_ids().is_empty());
}

#[test]
fn end_of_stream_is_one_exit_event() {
    let step = reader_step(&Ok(Vec::new()));
    assert!(step.done);
    match step.event {
        PtyEvent::Exit { code } => assert_eq!(code, 0),
        _ => panic!("Expected Exit event"),
    }
}

#[test]
fn read_error_is_one_error_event() {
    let step = reader_step(&Err("broken pipe".to_string()));
    assert!(step.done);
    match step.event {
        PtyEvent::Error { message } => assert_eq!(message, "Read error: broken pipe"),
        _ => panic!("Expected Error event"),
    }
}

#[test]
fn output_carries_the_bytes_as_read() {
    let bytes: Vec<u8> = vec![0, 255, 27, b'[', b'1', b'm', 0xe2, 0x82];
    let step = reader_step(&Ok(bytes));
    assert!(!step.done);
    match step.event {
        PtyEvent::Output { data } => assert_eq!(data, "AP8bWzFt4oI="),
        _ => panic!("Expected Output event"),
    }
    let full = vec![b'a'; CHUNK_SIZE];
    match reader_step(&Ok(full)).event {
        PtyEvent::Output { data } => assert_eq!(data.len(), 5464),
        _ => panic!("Expected Output event"),
    }
}

fn describe(events: &[PtyEvent]) -> Vec<String> {
    events
        .iter()
        .map(|e| match e {
            PtyEvent::Output { data } => format!("output:{}", data),
            PtyEvent::Exit { code } => format!("exit:{}", code),
            PtyEvent::Error { message } => format!("error:{}", message),
        })
        .collect()
}

#[test]
fn reader_emits_in_order_and_stops_at_exit() {
    let reads: Vec<ChunkRead> = vec![
        Ok(b"one".to_vec()),
        Ok(b"two".to_vec()),
        Ok(Vec::new()),
        Ok(b"late".to_vec()),
        Err("never seen".to_string()),
    ];
    assert_eq!(
        describe(&reader_events(&reads)),
        vec!["output:b25l", "output:dHdv", "exit:0"]
    );
}

#[test]
fn reader_stops_at_error() {
    let reads: Vec<ChunkRead> =
        vec![Ok(b"one".to_vec()), Err("io".to_string()), Ok(Vec::new())];
    assert_eq!(describe(&reader_events(&reads)), vec!["output:b25l", "error:Read error: io"]);
    assert!(reader_events(&Vec::new()).is_empty());
}

#[test]
fn route_input_says_what_is_returned_for_each_outcome() {
    let mut manager: PtyManager<u32> = PtyManager::new();
    manager.start_terminal("t1".to_string(), 24, 80, 9).unwrap();

    let (session, bytes) = manager.route_input("t1", Ok(vec![1, 2, 3])).unwrap();
    assert_eq!(*session, 9);
    assert_eq!(bytes, vec![1, 2, 3]);

    let failure = manager.route_input("t1", Err("Invalid padding".to_string())).unwrap_err();
    assert_eq!(failure.kind, ErrorKind::ProtocolError);
    assert_eq!(failure.message, "Base64 decode error: Invalid padding");

    let failure = manager.route_input("t2", Ok(vec![1])).unwrap_err();
    assert_eq!(failure.kind, ErrorKind::NotFound);
    let failure = manager.route_input("t2", Err("Invalid padding".to_string())).unwrap_err();
    assert_eq!(failure.kind, ErrorKind::NotFound);
    assert_eq!(failure.message, "PTY session not found: t2");
}

#[test]
fn output_decodes_to_the_bytes_that_were_read() {
    let mut manager: PtyManager<u32> = PtyManager::new();
    manager.start_terminal("t1".to_string(), 24, 80, 1).unwrap();
    let read: Vec<u8> = (0..=255u8).chain([b'l', b's', b'\n']).collect();
    let data = match reader_step(&Ok(read.clone())).event {
        PtyEvent::Output { data } => data,
        _ => panic!("Expected Output event"),
    };
    assert!(data.is_ascii());
    let (_, bytes) = manager.write_input("t1", &data).unwrap();
    assert_eq!(bytes, read);
}

#[test]
fn shell_launch_asks_for_colour() {
    let launch = terminal_launch("/work", 40, 120);
    assert_eq!(launch.cwd, "/work");
    assert_eq!(launch.env, vec![("TERM".to_string(), "xterm-256color".to_string())]);
    assert_eq!(launch.size, TerminalSize { rows: 40, cols: 120, pixel_width: 0, pixel_height: 0 });
}
