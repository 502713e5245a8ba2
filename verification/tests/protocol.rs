//! Scenario tests that drive the protocol engine event by event, checking
//! every action it requests along the way.

use transporter::engine::{Action, Engine, Event};
use transporter::error::{ScottyError, TransporterError};
use transporter::messages::ServerMessages;

const SHA512_HELLO: &str = "9b71d224bd62f3785d96d46ad3ea3d73319bfbc2890caadae2dff72519673ca72323c3d99ba5c11d7c7acc6e14b8c5da0c4663475c2e5c3adef46f73bcdec043";

/// Walk a fresh engine to the session loop under beam id 42.
fn started_session() -> Engine {
    let (engine, action) = Engine::new();
    assert_eq!(action, Action::ReadExact { count: 8 });
    let (engine, action) = engine.step(Event::Bytes(vec![0, 0, 0, 0, 0, 0, 0, 42]));
    assert_eq!(engine.beam_id, 42);
    assert_eq!(action, Action::ReadExact { count: 1 });
    engine
}

#[test]
fn end_to_end_single_file() {
    let engine = started_session();

    // StartBeamingFile "a.txt"
    let (engine, action) = engine.step(Event::Bytes(vec![1]));
    assert_eq!(action, Action::ReadExact { count: 2 });
    let (engine, action) = engine.step(Event::Bytes(vec![0, 5]));
    assert_eq!(action, Action::ReadExact { count: 5 });
    let (engine, action) = engine.step(Event::Bytes(b"a.txt".to_vec()));
    assert_eq!(
        action,
        Action::CallBeginFile { beam_id: 42, file_name: "a.txt".to_string() }
    );

    // The coordinator accepts with storage name "s1".
    let (engine, action) = engine.step(Event::BeginReply {
        file_id: "f1".to_string(),
        storage_name: "s1".to_string(),
        should_beam: true,
    });
    assert_eq!(action, Action::WriteReply { msg: ServerMessages::BeamFile });
    let (engine, action) = engine.step(Event::Written);
    assert_eq!(action, Action::CreateFile { storage_name: "s1".to_string() });
    let (engine, action) = engine.step(Event::Created);
    assert_eq!(action, Action::ReadExact { count: 1 });

    // One FileChunk of length 5: "hello".
    let (engine, action) = engine.step(Event::Bytes(vec![2]));
    assert_eq!(action, Action::ReadExact { count: 4 });
    let (engine, action) = engine.step(Event::Bytes(vec![0, 0, 0, 5]));
    assert_eq!(action, Action::ReadSome { max: 5 });
    let (engine, action) = engine.step(Event::Bytes(b"hello".to_vec()));
    assert_eq!(action, Action::WriteStorage { bytes: b"hello".to_vec() });
    let (engine, action) = engine.step(Event::StorageWritten);
    assert_eq!(action, Action::ReadExact { count: 1 });

    // FileDone: the success report carries size 5 and the SHA-512 of "hello".
    let (engine, action) = engine.step(Event::Bytes(vec![3]));
    assert_eq!(
        action,
        Action::CallEndFile {
            file_id: "f1".to_string(),
            success: true,
            size: Some(5),
            checksum: Some(SHA512_HELLO.to_string()),
        }
    );
    let (engine, action) = engine.step(Event::EndFileOk);
    assert_eq!(action, Action::WriteReply { msg: ServerMessages::FileBeamed });
    let (engine, action) = engine.step(Event::Written);
    assert_eq!(action, Action::ReadExact { count: 1 });

    // BeamComplete: one end-session(completed).
    let (engine, action) = engine.step(Event::Bytes(vec![0]));
    assert_eq!(
        action,
        Action::CallEndSession { beam_id: 42, success: true, error_message: None }
    );
    let (_engine, action) = engine.step(Event::EndSessionOk);
    assert_eq!(action, Action::Finished { result: None });
}

#[test]
fn chunk_larger_than_one_read_increment() {
    let engine = started_session();
    let (engine, _) = engine.step(Event::Bytes(vec![1]));
    let (engine, _) = engine.step(Event::Bytes(vec![0, 1]));
    let (engine, _) = engine.step(Event::Bytes(b"x".to_vec()));
    let (engine, _) = engine.step(Event::BeginReply {
        file_id: "f9".to_string(),
        storage_name: "s9".to_string(),
        should_beam: true,
    });
    let (engine, _) = engine.step(Event::Written);
    let (engine, _) = engine.step(Event::Created);

    // A five-byte chunk delivered in two reads of three and two bytes.
    let (engine, action) = engine.step(Event::Bytes(vec![2]));
    assert_eq!(action, Action::ReadExact { count: 4 });
    let (engine, action) = engine.step(Event::Bytes(vec![0, 0, 0, 5]));
    assert_eq!(action, Action::ReadSome { max: 5 });
    let (engine, action) = engine.step(Event::Bytes(b"hel".to_vec()));
    assert_eq!(action, Action::WriteStorage { bytes: b"hel".to_vec() });
    let (engine, action) = engine.step(Event::StorageWritten);
    assert_eq!(action, Action::ReadSome { max: 2 });
    let (engine, action) = engine.step(Event::Bytes(b"lo".to_vec()));
    assert_eq!(action, Action::WriteStorage { bytes: b"lo".to_vec() });
    let (engine, action) = engine.step(Event::StorageWritten);
    assert_eq!(action, Action::ReadExact { count: 1 });

    // The checksum spans both increments: still the SHA-512 of "hello".
    let (_engine, action) = engine.step(Event::Bytes(vec![3]));
    assert_eq!(
        action,
        Action::CallEndFile {
            file_id: "f9".to_string(),
            success: true,
            size: Some(5),
            checksum: Some(SHA512_HELLO.to_string()),
        }
    );
}

#[test]
fn skipped_file_touches_nothing() {
    let engine = started_session();
    let (engine, _) = engine.step(Event::Bytes(vec![1]));
    let (engine, _) = engine.step(Event::Bytes(vec![0, 5]));
    let (engine, action) = engine.step(Event::Bytes(b"b.txt".to_vec()));
    assert_eq!(
        action,
        Action::CallBeginFile { beam_id: 42, file_name: "b.txt".to_string() }
    );

    // The coordinator says no: the only reply is the SkipFile byte, then
    // straight back to the session loop. No storage, no end-file.
    let (engine, action) = engine.step(Event::BeginReply {
        file_id: "f2".to_string(),
        storage_name: "s2".to_string(),
        should_beam: false,
    });
    assert_eq!(action, Action::WriteReply { msg: ServerMessages::SkipFile });
    let (engine, action) = engine.step(Event::Written);
    assert_eq!(action, Action::ReadExact { count: 1 });

    // The session can still end cleanly.
    let (engine, action) = engine.step(Event::Bytes(vec![0]));
    assert_eq!(
        action,
        Action::CallEndSession { beam_id: 42, success: true, error_message: None }
    );
    let (_engine, action) = engine.step(Event::EndSessionOk);
    assert_eq!(action, Action::Finished { result: None });
}

#[test]
fn empty_file_name_is_passed_through() {
    let engine = started_session();
    let (engine, _) = engine.step(Event::Bytes(vec![1]));
    let (_engine, action) = engine.step(Event::Bytes(vec![0, 0]));
    assert_eq!(
        action,
        Action::CallBeginFile { beam_id: 42, file_name: String::new() }
    );
}

#[test]
fn zero_length_chunk_is_a_no_op() {
    let engine = started_session();
    let (engine, _) = engine.step(Event::Bytes(vec![1]));
    let (engine, _) = engine.step(Event::Bytes(vec![0, 1]));
    let (engine, _) = engine.step(Event::Bytes(b"c".to_vec()));
    let (engine, _) = engine.step(Event::BeginReply {
        file_id: "f3".to_string(),
        storage_name: "s3".to_string(),
        should_beam: true,
    });
    let (engine, _) = engine.step(Event::Written);
    let (engine, _) = engine.step(Event::Created);
    let (engine, _) = engine.step(Event::Bytes(vec![2]));
    let (engine, action) = engine.step(Event::Bytes(vec![0, 0, 0, 0]));
    assert_eq!(action, Action::ReadExact { count: 1 });

    // An empty transfer still succeeds, with the digest of no bytes.
    let (_engine, action) = engine.step(Event::Bytes(vec![3]));
    match action {
        Action::CallEndFile { file_id, success, size, checksum } => {
            assert_eq!(file_id, "f3".to_string());
            assert!(success);
            assert_eq!(size, Some(0));
            let empty_sha512 = "cf83e1357eefb8bdf1542850d66d8007d620e4050b5715dc83f4a921d36ce9ce47d0d13c5d85f2b0ff8318d2877eec2f63b931bd47417a81a538327af927da3e";
            assert_eq!(checksum, Some(empty_sha512.to_string()));
        }
        other => panic!("expected an end-file report, got {:?}", other),
    }
}

#[test]
fn unknown_code_in_session_loop_is_fatal() {
    let engine = started_session();
    let (engine, action) = engine.step(Event::Bytes(vec![9]));
    match action {
        Action::CallEndSession { beam_id, success, error_message } => {
            assert_eq!(beam_id, 42);
            assert!(!success);
            assert_eq!(error_message, Some("invalid client message code".to_string()));
        }
        other => panic!("expected a failed end-session report, got {:?}", other),
    }
    let (_engine, action) = engine.step(Event::EndSessionOk);
    assert_eq!(
        action,
        Action::Finished { result: Some(TransporterError::InvalidClientMessageCode(9)) }
    );
}

#[test]
fn chunk_code_in_session_loop_is_unexpected() {
    let engine = started_session();
    let (_engine, action) = engine.step(Event::Bytes(vec![2]));
    match action {
        Action::CallEndSession { success, error_message, .. } => {
            assert!(!success);
            assert_eq!(
                error_message,
                Some("unexpected client message code".to_string())
            );
        }
        other => panic!("expected a failed end-session report, got {:?}", other),
    }
}

#[test]
fn unknown_code_mid_stream_fails_file_then_session() {
    let engine = started_session();
    let (engine, _) = engine.step(Event::Bytes(vec![1]));
    let (engine, _) = engine.step(Event::Bytes(vec![0, 1]));
    let (engine, _) = engine.step(Event::Bytes(b"d".to_vec()));
    let (engine, _) = engine.step(Event::BeginReply {
        file_id: "f4".to_string(),
        storage_name: "s4".to_string(),
        should_beam: true,
    });
    let (engine, _) = engine.step(Event::Written);
    let (engine, _) = engine.step(Event::Created);

    // An unrecognized byte where FileChunk or FileDone is expected: the
    // failure is reported under the file's token, with no checksum.
    let (engine, action) = engine.step(Event::Bytes(vec![7]));
    assert_eq!(
        action,
        Action::CallEndFile {
            file_id: "f4".to_string(),
            success: false,
            size: None,
            checksum: None,
        }
    );

    // Then the session aborts: end-session(failure), then finished.
    let (engine, action) = engine.step(Event::EndFileOk);
    match action {
        Action::CallEndSession { beam_id, success, .. } => {
            assert_eq!(beam_id, 42);
            assert!(!success);
        }
        other => panic!("expected a failed end-session report, got {:?}", other),
    }
    let (_engine, action) = engine.step(Event::EndSessionOk);
    assert_eq!(
        action,
        Action::Finished { result: Some(TransporterError::InvalidClientMessageCode(7)) }
    );
}

#[test]
fn eof_mid_stream_aborts_and_no_further_files_are_requested() {
    let engine = started_session();
    let (engine, _) = engine.step(Event::Bytes(vec![1]));
    let (engine, _) = engine.step(Event::Bytes(vec![0, 1]));
    let (engine, _) = engine.step(Event::Bytes(b"e".to_vec()));
    let (engine, _) = engine.step(Event::BeginReply {
        file_id: "f5".to_string(),
        storage_name: "s5".to_string(),
        should_beam: true,
    });
    let (engine, _) = engine.step(Event::Written);
    let (engine, _) = engine.step(Event::Created);
    let (engine, _) = engine.step(Event::Bytes(vec![2]));
    let (engine, action) = engine.step(Event::Bytes(vec![0, 0, 0, 5]));
    assert_eq!(action, Action::ReadSome { max: 5 });

    // The client vanishes mid-chunk: end-file(failure), end-session(failure),
    // finished as a disconnection — never another begin-file.
    let (engine, action) = engine.step(Event::Eof);
    assert_eq!(
        action,
        Action::CallEndFile {
            file_id: "f5".to_string(),
            success: false,
            size: None,
            checksum: None,
        }
    );
    let (engine, action) = engine.step(Event::EndFileOk);
    match action {
        Action::CallEndSession { success, .. } => assert!(!success),
        other => panic!("expected a failed end-session report, got {:?}", other),
    }
    let (_engine, action) = engine.step(Event::EndSessionOk);
    match action {
        Action::Finished { result } => {
            let err = result.expect("the session must fail");
            assert!(err.is_disconnection());
        }
        other => panic!("expected the connection to finish, got {:?}", other),
    }
}

#[test]
fn coordinator_failure_aborts_session() {
    let engine = started_session();
    let (engine, _) = engine.step(Event::Bytes(vec![1]));
    let (engine, _) = engine.step(Event::Bytes(vec![0, 1]));
    let (engine, _) = engine.step(Event::Bytes(b"f".to_vec()));
    let (engine, action) = engine.step(Event::CoordinatorFailed(ScottyError::ScottyIsDown));
    match action {
        Action::CallEndSession { success, error_message, .. } => {
            assert!(!success);
            assert_eq!(error_message, Some("coordinator is down".to_string()));
        }
        other => panic!("expected a failed end-session report, got {:?}", other),
    }
    let (_engine, action) = engine.step(Event::EndSessionOk);
    assert_eq!(
        action,
        Action::Finished {
            result: Some(TransporterError::ScottyError(ScottyError::ScottyIsDown)),
        }
    );
}

#[test]
fn eof_before_beam_id_reports_nothing() {
    let (engine, _) = Engine::new();
    // The coordinator never heard of this session: no end-session call.
    let (_engine, action) = engine.step(Event::Eof);
    assert_eq!(
        action,
        Action::Finished { result: Some(TransporterError::ClientEOF) }
    );
}

#[test]
fn huge_chunk_is_read_in_bounded_increments() {
    let engine = started_session();
    let (engine, _) = engine.step(Event::Bytes(vec![1]));
    let (engine, _) = engine.step(Event::Bytes(vec![0, 1]));
    let (engine, _) = engine.step(Event::Bytes(b"g".to_vec()));
    let (engine, _) = engine.step(Event::BeginReply {
        file_id: "f6".to_string(),
        storage_name: "s6".to_string(),
        should_beam: true,
    });
    let (engine, _) = engine.step(Event::Written);
    let (engine, _) = engine.step(Event::Created);
    let (engine, _) = engine.step(Event::Bytes(vec![2]));

    // A chunk declared as large as the length field allows: the requested
    // read is still capped at the bounded increment.
    let (_engine, action) = engine.step(Event::Bytes(vec![0xff, 0xff, 0xff, 0xff]));
    assert_eq!(action, Action::ReadSome { max: transporter::engine::CHUNK_SIZE });
}

#[test]
fn storage_create_failure_is_reported_and_aborts() {
    let engine = started_session();
    let (engine, _) = engine.step(Event::Bytes(vec![1]));
    let (engine, _) = engine.step(Event::Bytes(vec![0, 1]));
    let (engine, _) = engine.step(Event::Bytes(b"h".to_vec()));
    let (engine, _) = engine.step(Event::BeginReply {
        file_id: "f7".to_string(),
        storage_name: "s7".to_string(),
        should_beam: true,
    });
    let (engine, _) = engine.step(Event::Written);

    // The artifact cannot be created: end-file(failure), then the session
    // aborts as a storage error, which is not a disconnection.
    let (engine, action) = engine.step(Event::StorageFailed);
    assert_eq!(
        action,
        Action::CallEndFile {
            file_id: "f7".to_string(),
            success: false,
            size: None,
            checksum: None,
        }
    );
    let (engine, action) = engine.step(Event::EndFileOk);
    match action {
        Action::CallEndSession { success, error_message, .. } => {
            assert!(!success);
            assert_eq!(error_message, Some("storage io error".to_string()));
        }
        other => panic!("expected a failed end-session report, got {:?}", other),
    }
    let (_engine, action) = engine.step(Event::EndSessionOk);
    match action {
        Action::Finished { result } => {
            let err = result.expect("the session must fail");
            assert!(!err.is_disconnection());
            assert_eq!(err, TransporterError::StorageIoError);
        }
        other => panic!("expected the connection to finish, got {:?}", other),
    }
}

#[test]
fn reply_write_failure_fails_session_without_end_file() {
    let engine = started_session();
    let (engine, _) = engine.step(Event::Bytes(vec![1]));
    let (engine, _) = engine.step(Event::Bytes(vec![0, 1]));
    let (engine, _) = engine.step(Event::Bytes(b"i".to_vec()));
    let (engine, action) = engine.step(Event::BeginReply {
        file_id: "f8".to_string(),
        storage_name: "s8".to_string(),
        should_beam: true,
    });
    assert_eq!(action, Action::WriteReply { msg: ServerMessages::BeamFile });

    // The BeamFile reply never reaches the client: the transfer has not
    // started, so no end-file report is made, only the failed end-session.
    let (_engine, action) = engine.step(Event::IoFailed);
    match action {
        Action::CallEndSession { success, .. } => assert!(!success),
        other => panic!("expected a failed end-session report, got {:?}", other),
    }
}

#[test]
fn invalid_utf8_file_name_is_a_client_error() {
    let engine = started_session();
    let (engine, _) = engine.step(Event::Bytes(vec![1]));
    let (engine, _) = engine.step(Event::Bytes(vec![0, 2]));
    let (_engine, action) = engine.step(Event::Bytes(vec![0xff, 0xfe]));
    match action {
        Action::CallEndSession { success, error_message, .. } => {
            assert!(!success);
            assert_eq!(error_message, Some("client io error".to_string()));
        }
        other => panic!("expected a failed end-session report, got {:?}", other),
    }
}
