//! Tests of the wire codec, the error taxonomy and the coordinator request
//! documents.

use transporter::config::Config;
use transporter::error::{ScottyError, TransporterError};
use transporter::messages::{be_u16, be_u32, be_u64, ClientMessages, ServerMessages};
use transporter::scotty::{
    beam_url, file_url, files_url, u64_to_dec_string, BeamUpdateRequest, FileUpdateRequest,
};
use transporter::storage::FileStorage;

#[test]
fn client_message_codes_decode() {
    assert_eq!(ClientMessages::from_u8(0), Ok(ClientMessages::BeamComplete));
    assert_eq!(ClientMessages::from_u8(1), Ok(ClientMessages::StartBeamingFile));
    assert_eq!(ClientMessages::from_u8(2), Ok(ClientMessages::FileChunk));
    assert_eq!(ClientMessages::from_u8(3), Ok(ClientMessages::FileDone));
    assert_eq!(
        ClientMessages::from_u8(4),
        Err(TransporterError::InvalidClientMessageCode(4))
    );
    assert_eq!(
        ClientMessages::from_u8(255),
        Err(TransporterError::InvalidClientMessageCode(255))
    );
}

#[test]
fn server_message_codes_encode() {
    assert_eq!(ServerMessages::SkipFile.code(), 0);
    assert_eq!(ServerMessages::BeamFile.code(), 1);
    assert_eq!(ServerMessages::FileBeamed.code(), 2);
}

#[test]
fn big_endian_decoding() {
    assert_eq!(be_u16(&vec![0, 5]), 5);
    assert_eq!(be_u16(&vec![0x12, 0x34]), 0x1234);
    assert_eq!(be_u16(&vec![0xff, 0xff]), 0xffff);
    assert_eq!(be_u32(&vec![0, 0, 0, 5]), 5);
    assert_eq!(be_u32(&vec![0xde, 0xad, 0xbe, 0xef]), 0xdeadbeef);
    assert_eq!(be_u64(&vec![0, 0, 0, 0, 0, 0, 0, 42]), 42);
    assert_eq!(
        be_u64(&vec![0x01, 0x23, 0x45, 0x67, 0x89, 0xab, 0xcd, 0xef]),
        0x0123456789abcdef
    );
    assert_eq!(be_u64(&vec![0xff; 8]), u64::MAX);
}

#[test]
fn disconnections_are_classified() {
    assert!(TransporterError::ClientEOF.is_disconnection());
    assert!(TransporterError::ClientIoError.is_disconnection());
    assert!(!TransporterError::StorageIoError.is_disconnection());
    assert!(!TransporterError::InvalidClientMessageCode(9).is_disconnection());
    assert!(
        !TransporterError::UnexpectedClientMessageCode(ClientMessages::FileDone)
            .is_disconnection()
    );
    assert!(!TransporterError::ScottyError(ScottyError::ScottyIsDown).is_disconnection());
}

#[test]
fn error_messages() {
    assert_eq!(
        TransporterError::ClientEOF.message(),
        "client closed the connection in the middle of a beam"
    );
    assert_eq!(TransporterError::StorageIoError.message(), "storage io error");
    assert_eq!(
        TransporterError::ScottyError(ScottyError::ScottyIsDown).message(),
        "coordinator is down"
    );
    assert_eq!(
        ScottyError::ScottyError { code: 500, url: "http://x".to_string() }.message(),
        "coordinator rejected the request"
    );
    assert_eq!(
        TransporterError::from(ScottyError::DecoderError),
        TransporterError::ScottyError(ScottyError::DecoderError)
    );
}

#[test]
fn decimal_rendering() {
    assert_eq!(u64_to_dec_string(0), "0");
    assert_eq!(u64_to_dec_string(7), "7");
    assert_eq!(u64_to_dec_string(42), "42");
    assert_eq!(u64_to_dec_string(1048576), "1048576");
    assert_eq!(u64_to_dec_string(u64::MAX), "18446744073709551615");
}

#[test]
fn coordinator_routes() {
    assert_eq!(files_url("http://scotty:8000"), "http://scotty:8000/files");
    assert_eq!(
        file_url("http://scotty:8000", "abc-123"),
        "http://scotty:8000/files/abc-123"
    );
    assert_eq!(beam_url("http://scotty:8000", 42), "http://scotty:8000/beams/42");
}

#[test]
fn file_update_request_success_mirrors_error() {
    let ok = FileUpdateRequest::new(None, Some(5), Some("abc".to_string()), None);
    assert!(ok.success);
    assert_eq!(ok.error, "");
    assert_eq!(ok.size, Some(5));
    assert_eq!(ok.checksum, Some("abc".to_string()));
    assert_eq!(ok.mtime, None);

    let failed = FileUpdateRequest::new(Some("storage io error"), None, None, None);
    assert!(!failed.success);
    assert_eq!(failed.error, "storage io error");
    assert_eq!(failed.size, None);
    assert_eq!(failed.checksum, None);
}

#[test]
fn beam_update_request_wraps_document() {
    let done = BeamUpdateRequest::new(true, None);
    assert!(done.beam.completed);
    assert_eq!(done.beam.error, None);

    let failed = BeamUpdateRequest::new(true, Some("coordinator is down"));
    assert_eq!(failed.beam.error, Some("coordinator is down"));
}

#[test]
fn storage_and_config_values() {
    let storage = FileStorage::new("/var/beams".to_string());
    assert_eq!(storage.base_directory, "/var/beams");
    let copy = storage.clone();
    assert_eq!(copy.base_directory, "/var/beams");

    let config = Config {
        storage_path: "/var/beams".to_string(),
        bind_address: "0.0.0.0:9000".to_string(),
        scotty_url: "http://scotty:8000".to_string(),
        sentry_dsn: String::new(),
        log_level: "info".to_string(),
    };
    let copy = config.clone();
    assert_eq!(copy.bind_address, "0.0.0.0:9000");
    assert_eq!(copy.scotty_url, "http://scotty:8000");
}
