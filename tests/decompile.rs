use luadec::{decompile, decompile_file, Action, DecompileError, Decompiler, Event, Session};

/// Answers each action of `session` with the next of `replies`, counting the
/// handles it is told to release, until the session is over.
fn drive(mut session: Session, replies: Vec<Event>) -> (Result<String, DecompileError>, usize) {
    let mut releases: usize = 0;
    for ev in replies {
        assert!(session.accepts(&ev));
        if session.next_action() == Action::Release {
            releases += 1;
        }
        session = session.advance(ev);
    }
    assert_eq!(session.next_action(), Action::Finish);
    (session.outcome().unwrap(), releases)
}

#[test]
fn test_empty_bytecode() {
    let result = decompile(&[]).outcome().unwrap();
    assert!(result.is_err());
    match result.unwrap_err() {
        DecompileError::InvalidBytecode(_) => {}
        other => panic!("Expected InvalidBytecode error, got: {:?}", other),
    }
}

#[test]
fn test_invalid_bytecode() {
    let invalid_bytecode = b"not lua bytecode";
    let session = decompile(invalid_bytecode);
    assert_eq!(session.next_action(), Action::CallDecompile);
    let replies = vec![
        Event::Handle(true),
        Event::ErrorRead(Some(b"bad header in precompiled chunk".to_vec())),
        Event::Released,
    ];
    let (result, _) = drive(session, replies);
    assert!(result.is_err());
}

#[test]
fn test_decompiler_struct() {
    let decompiler = Decompiler::new();
    let result = decompiler.decompile(&[]).outcome().unwrap();
    assert!(result.is_err());
}

#[test]
fn empty_input_asks_nothing_foreign() {
    let session = decompile(&[]);
    assert_eq!(session.next_action(), Action::Finish);
    assert!(!session.accepts(&Event::Handle(true)));
    match session.outcome() {
        Some(Err(DecompileError::InvalidBytecode(detail))) => assert_eq!(detail, "Empty bytecode"),
        other => panic!("unexpected outcome: {:?}", other),
    }
}

#[test]
fn success_copies_the_result_text() {
    let replies = vec![
        Event::Handle(true),
        Event::ErrorRead(None),
        Event::ResultRead(Some(b"print(\"hi\")\n".to_vec())),
        Event::Released,
    ];
    let (result, releases) = drive(decompile(&[0x1b, 0x4c, 0x75, 0x61]), replies);
    let source = result.unwrap();
    assert_eq!(source, "print(\"hi\")\n");
    assert!(source.contains("print"));
    assert_eq!(releases, 1);
}

#[test]
fn reported_error_becomes_decompilation_failed() {
    let replies = vec![
        Event::Handle(true),
        Event::ErrorRead(Some(b"bad header".to_vec())),
        Event::Released,
    ];
    let (result, releases) = drive(decompile(b"not lua bytecode"), replies);
    match result {
        Err(DecompileError::DecompilationFailed(detail)) => assert_eq!(detail, "bad header"),
        other => panic!("unexpected outcome: {:?}", other),
    }
    assert_eq!(releases, 1);
}

#[test]
fn error_is_read_before_result() {
    let mut session = decompile(&[1, 2, 3, 4, 5]);
    session = session.advance(Event::Handle(true));
    assert_eq!(session.next_action(), Action::ReadError);
    assert!(!session.accepts(&Event::ResultRead(None)));
    session = session.advance(Event::ErrorRead(None));
    assert_eq!(session.next_action(), Action::ReadResult);
}

#[test]
fn null_handle_is_internal_error_without_release() {
    let (result, releases) = drive(decompile(&[1, 2, 3]), vec![Event::Handle(false)]);
    match result {
        Err(DecompileError::InternalError(detail)) => assert_eq!(detail, "Failed to get result"),
        other => panic!("unexpected outcome: {:?}", other),
    }
    assert_eq!(releases, 0);
}

#[test]
fn null_result_is_internal_error_after_release() {
    let replies = vec![
        Event::Handle(true),
        Event::ErrorRead(None),
        Event::ResultRead(None),
        Event::Released,
    ];
    let (result, releases) = drive(decompile(&[1, 2, 3]), replies);
    match result {
        Err(DecompileError::InternalError(detail)) => assert_eq!(detail, "No result returned"),
        other => panic!("unexpected outcome: {:?}", other),
    }
    assert_eq!(releases, 1);
}

#[test]
fn outcome_waits_for_release() {
    let mut session = decompile(&[9]);
    session = session.advance(Event::Handle(true));
    session = session.advance(Event::ErrorRead(Some(b"boom".to_vec())));
    assert_eq!(session.next_action(), Action::Release);
    assert!(session.outcome().is_none());
}

#[test]
fn invalid_utf8_is_replaced() {
    let replies = vec![
        Event::Handle(true),
        Event::ErrorRead(Some(vec![b'x', 0xff])),
        Event::Released,
    ];
    let (result, _) = drive(decompile(&[7]), replies);
    match result {
        Err(DecompileError::DecompilationFailed(detail)) => assert_eq!(detail, "x\u{FFFD}"),
        other => panic!("unexpected outcome: {:?}", other),
    }
}

#[test]
fn failed_read_is_io_error() {
    let err = std::io::Error::new(std::io::ErrorKind::NotFound, "no such file");
    let session = decompile_file(Err(err));
    assert_eq!(session.next_action(), Action::Finish);
    match session.outcome() {
        Some(Err(DecompileError::Io(e))) => assert_eq!(e.kind(), std::io::ErrorKind::NotFound),
        other => panic!("unexpected outcome: {:?}", other),
    }
}

#[test]
fn file_contents_are_decompiled_like_a_buffer() {
    let data: Vec<u8> = vec![0x1b, 0x4c];
    let decompiler = Decompiler::default();
    let session = decompiler.decompile_file(Ok(data.as_slice()));
    assert_eq!(session.next_action(), Action::CallDecompile);
    let empty: Vec<u8> = Vec::new();
    let session = decompiler.decompile_file(Ok(empty.as_slice()));
    assert!(matches!(session.outcome(), Some(Err(DecompileError::InvalidBytecode(_)))));
}
