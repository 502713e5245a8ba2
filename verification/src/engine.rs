//! The beam protocol engine: one state machine per connection.
//!
//! The engine owns every protocol decision but performs no I/O. Each call of
//! [`Engine::step`] consumes one [`Event`] — the outcome of the previously
//! requested [`Action`] — and returns the next action: read so many bytes
//! from the client, write a reply byte, call the coordinator, create or
//! write the storage artifact, or finish. The unverified connection driver
//! performs each action and feeds the outcome back in.
//!
//! A session reads an eight-byte beam id, then loops over client messages:
//! `StartBeamingFile` runs the file sub-protocol, `BeamComplete` ends the
//! session cleanly, anything else is a protocol violation. A file transfer
//! reads a length-prefixed file name, asks the coordinator whether to beam,
//! and either skips the file or streams chunks into storage while a SHA-512
//! checksum accumulates, reporting the outcome to the coordinator exactly
//! once. Any failure aborts the whole session, and the session outcome is
//! always reported with a final end-session call. Per session the
//! coordinator thus sees begin-file, then end-file (skipped files omit it),
//! file by file, and one end-session last, never reordered.

use vstd::prelude::*;

use vstd::pervasive::unreached;
use vstd::utf8::{decode_utf8, valid_utf8};

use crate::checksum::{sha512_fed, sha512_hex_of, sha512_input, sha512_new, sha512_result_str};
use crate::error::{ScottyError, TransporterError};
use crate::messages::{be_u16, be_u32, be_u64, spec_be_u16, spec_be_u32, spec_be_u64};
use crate::messages::{ClientMessages, ServerMessages};
use crypto::sha2::Sha512;

verus! {

/// Payload bytes are drained from the client in increments of at most this
/// many bytes, so memory use stays constant however large a chunk is.
pub const CHUNK_SIZE: u32 = 1048576;

/// One file transfer in flight: the coordinator-issued token to report the
/// outcome with, the checksum accumulator, and the running byte count. The
/// ghost `written` is the exact byte stream the engine has handed to
/// storage and seen acknowledged.
pub struct FileStream {
    pub file_id: String,
    pub digest: Sha512,
    pub length: u64,
    pub written: Ghost<Seq<u8>>,
}

impl FileStream {
    /// Between chunks, the bytes fed to the checksum are exactly the bytes
    /// acknowledged by storage, and `length` counts them.
    pub open spec fn synced(self) -> bool {
        &&& sha512_fed(self.digest) == self.written@
        &&& self.length == self.written@.len()
    }
}

/// Where in the protocol a connection stands; each phase waits for the
/// outcome of exactly one requested action.
pub enum Phase {
    /// Waiting for the eight-byte session id.
    AwaitBeamId,
    /// The session loop: waiting for one client message-code byte.
    AwaitCode,
    /// Waiting for the two-byte file-name length.
    AwaitNameLen,
    /// Waiting for the file-name bytes themselves.
    AwaitName { name_len: u16 },
    /// Waiting for the coordinator's begin-file decision.
    AwaitDecision,
    /// Waiting for the `SkipFile` reply byte to reach the client.
    SkipAck,
    /// Waiting for the `BeamFile` reply byte to reach the client.
    BeamAck { file_id: String, storage_name: String },
    /// Waiting for the storage artifact to be created.
    AwaitCreate { file_id: String },
    /// Waiting for one message-code byte inside the chunk stream.
    AwaitChunkCode { fs: FileStream },
    /// Waiting for the four-byte chunk length.
    AwaitChunkLen { fs: FileStream },
    /// Waiting for up to `remaining` more payload bytes of the current chunk.
    Receiving { fs: FileStream, remaining: u32 },
    /// Waiting for storage to acknowledge the bytes just handed over.
    AwaitWriteAck { fs: FileStream, remaining: u32, pending: Ghost<Seq<u8>> },
    /// Waiting for the coordinator to acknowledge a successful end-file report.
    AwaitFileReport,
    /// Waiting for the `FileBeamed` reply byte to reach the client.
    FileBeamedAck,
    /// Waiting for the coordinator to acknowledge a failed end-file report.
    AwaitFailReport { err: TransporterError },
    /// Waiting for the final end-session report; `None` is a clean session.
    AwaitSessionReport { result: Option<TransporterError> },
    /// The connection is over; no further events are accepted.
    Done,
}

/// The protocol engine of one connection.
pub struct Engine {
    pub beam_id: u64,
    pub phase: Phase,
}

/// What the driver must do next on behalf of the engine.
#[derive(Debug, Clone, PartialEq, Eq)]
pub enum Action {
    /// Read exactly `count` bytes from the client.
    ReadExact { count: u64 },
    /// Read at least one and at most `max` bytes from the client.
    ReadSome { max: u32 },
    /// Write the one-byte reply to the client.
    WriteReply { msg: ServerMessages },
    /// Ask the coordinator whether to beam this file.
    CallBeginFile { beam_id: u64, file_name: String },
    /// Create a fresh, empty storage artifact under this name.
    CreateFile { storage_name: String },
    /// Append these bytes to the current storage artifact.
    WriteStorage { bytes: Vec<u8> },
    /// Report the outcome of the current file to the coordinator.
    CallEndFile { file_id: String, success: bool, size: Option<u64>, checksum: Option<String> },
    /// Report the outcome of the whole session to the coordinator.
    CallEndSession { beam_id: u64, success: bool, error_message: Option<String> },
    /// The connection is over; `None` is a clean close.
    Finished { result: Option<TransporterError> },
}

/// What the driver observed while performing the requested action.
#[derive(Debug, Clone, PartialEq, Eq)]
pub enum Event {
    /// The requested bytes arrived.
    Bytes(Vec<u8>),
    /// The client's stream ended before the requested bytes arrived.
    Eof,
    /// Reading from or writing to the client failed.
    IoFailed,
    /// The reply byte was written to the client.
    Written,
    /// The coordinator's begin-file decision.
    BeginReply { file_id: String, storage_name: String, should_beam: bool },
    /// A coordinator call failed.
    CoordinatorFailed(ScottyError),
    /// The storage artifact was created.
    Created,
    /// Storage acknowledged the bytes handed over.
    StorageWritten,
    /// Creating or writing the storage artifact failed.
    StorageFailed,
    /// The coordinator acknowledged the end-file report.
    EndFileOk,
    /// The coordinator acknowledged the end-session report.
    EndSessionOk,
}

/// The read increment for a chunk with `remaining` payload bytes left.
pub open spec fn spec_read_limit(remaining: u32) -> u32 {
    if remaining <= CHUNK_SIZE {
        remaining
    } else {
        CHUNK_SIZE
    }
}

/// Compute the read increment for a chunk with `remaining` bytes left.
pub fn read_limit(remaining: u32) -> (r: u32)
    ensures
        r == spec_read_limit(remaining),
{
    if remaining <= CHUNK_SIZE {
        remaining
    } else {
        CHUNK_SIZE
    }
}

impl Engine {
    /// The engine's internal invariant: every in-flight file transfer keeps
    /// checksum, storage stream and byte count in lockstep.
    pub open spec fn wf(self) -> bool {
        match self.phase {
            Phase::AwaitChunkCode { fs } => fs.synced(),
            Phase::AwaitChunkLen { fs } => fs.synced(),
            Phase::Receiving { fs, remaining } => fs.synced() && remaining >= 1,
            Phase::AwaitWriteAck { fs, remaining, pending } => {
                &&& sha512_fed(fs.digest) == fs.written@ + pending@
                &&& fs.length == fs.written@.len() + pending@.len()
                &&& pending@.len() >= 1
            },
            _ => true,
        }
    }

    /// Which events answer the action this phase is waiting for. The driver
    /// establishes this by construction: it feeds back exactly the outcome
    /// of the action the engine just requested.
    pub open spec fn accepts(self, ev: Event) -> bool {
        match self.phase {
            Phase::AwaitBeamId => {
                ||| ev matches Event::Bytes(v) && v@.len() == 8
                ||| ev is Eof
                ||| ev is IoFailed
            },
            Phase::AwaitCode => {
                ||| ev matches Event::Bytes(v) && v@.len() == 1
                ||| ev is Eof
                ||| ev is IoFailed
            },
            Phase::AwaitNameLen => {
                ||| ev matches Event::Bytes(v) && v@.len() == 2
                ||| ev is Eof
                ||| ev is IoFailed
            },
            Phase::AwaitName { name_len } => {
                ||| ev matches Event::Bytes(v) && v@.len() == name_len
                ||| ev is Eof
                ||| ev is IoFailed
            },
            Phase::AwaitDecision => {
                ||| ev matches Event::BeginReply { .. }
                ||| ev matches Event::CoordinatorFailed(_)
            },
            Phase::SkipAck => ev is Written || ev is Eof || ev is IoFailed,
            Phase::BeamAck { .. } => ev is Written || ev is Eof || ev is IoFailed,
            Phase::AwaitCreate { .. } => ev is Created || ev is StorageFailed,
            Phase::AwaitChunkCode { .. } => {
                ||| ev matches Event::Bytes(v) && v@.len() == 1
                ||| ev is Eof
                ||| ev is IoFailed
            },
            Phase::AwaitChunkLen { .. } => {
                ||| ev matches Event::Bytes(v) && v@.len() == 4
                ||| ev is Eof
                ||| ev is IoFailed
            },
            Phase::Receiving { fs, remaining } => {
                ||| {
                    &&& ev matches Event::Bytes(v)
                    &&& 1 <= v@.len() <= spec_read_limit(remaining)
                    &&& fs.length + v@.len() <= u64::MAX
                }
                ||| ev is Eof
                ||| ev is IoFailed
            },
            Phase::AwaitWriteAck { .. } => ev is StorageWritten || ev is StorageFailed,
            Phase::AwaitFileReport => ev is EndFileOk || ev matches Event::CoordinatorFailed(_),
            Phase::FileBeamedAck => ev is Written || ev is Eof || ev is IoFailed,
            Phase::AwaitFailReport { .. } => {
                ev is EndFileOk || ev matches Event::CoordinatorFailed(_)
            },
            Phase::AwaitSessionReport { .. } => {
                ev is EndSessionOk || ev matches Event::CoordinatorFailed(_)
            },
            Phase::Done => false,
        }
    }
}

/// The session fails with `err`: the engine records it, reports the failed
/// session to the coordinator, and will finish once acknowledged.
pub open spec fn fails_session(
    pre: Engine,
    post: Engine,
    act: Action,
    err: TransporterError,
) -> bool {
    &&& post.beam_id == pre.beam_id
    &&& post.phase == (Phase::AwaitSessionReport { result: Some(err) })
    &&& act matches Action::CallEndSession { beam_id, success, error_message }
    &&& beam_id == pre.beam_id
    &&& success == false
    &&& error_message matches Some(m) && m@ == err.spec_message()
}

/// The current file fails with `err`: the failure is reported to the
/// coordinator under the file's token — with no size and no checksum, which
/// is never finalized for a failed transfer — and the session will abort
/// once the report is acknowledged.
pub open spec fn fails_file(
    pre: Engine,
    post: Engine,
    act: Action,
    file_id: String,
    err: TransporterError,
) -> bool {
    &&& post.beam_id == pre.beam_id
    &&& post.phase == (Phase::AwaitFailReport { err })
    &&& act == (Action::CallEndFile { file_id, success: false, size: None, checksum: None })
}

/// The engine stays in the session loop: back to waiting for one
/// message-code byte.
pub open spec fn continues_session(pre: Engine, post: Engine, act: Action) -> bool {
    &&& post.beam_id == pre.beam_id
    &&& post.phase is AwaitCode
    &&& act == (Action::ReadExact { count: 1 })
}

/// The complete transition relation of the engine: what one step from `pre`
/// on `ev` must produce, for every accepted event. It pins the next phase
/// and the requested action; only the checksum text of a successful
/// transfer is pinned separately, by [`reports_checksum`].
pub open spec fn transition(pre: Engine, ev: Event, post: Engine, act: Action) -> bool {
    match pre.phase {
        Phase::AwaitBeamId => match ev {
            Event::Bytes(v) => {
                &&& post.beam_id == spec_be_u64(v@)
                &&& post.phase is AwaitCode
                &&& act == (Action::ReadExact { count: 1 })
            },
            Event::Eof => {
                // The coordinator was never told of this session; there is
                // nothing to report.
                &&& post.phase is Done
                &&& act == (Action::Finished { result: Some(TransporterError::ClientEOF) })
            },
            _ => {
                &&& post.phase is Done
                &&& act == (Action::Finished { result: Some(TransporterError::ClientIoError) })
            },
        },
        Phase::AwaitCode => match ev {
            Event::Bytes(v) => {
                let c = v[0];
                if c == 0 {
                    // BeamComplete: the session ends cleanly.
                    &&& post.beam_id == pre.beam_id
                    &&& post.phase == (Phase::AwaitSessionReport { result: None })
                    &&& act == (Action::CallEndSession {
                        beam_id: pre.beam_id,
                        success: true,
                        error_message: None,
                    })
                } else if c == 1 {
                    // StartBeamingFile: the file sub-protocol begins.
                    &&& post.beam_id == pre.beam_id
                    &&& post.phase is AwaitNameLen
                    &&& act == (Action::ReadExact { count: 2 })
                } else if c == 2 {
                    fails_session(
                        pre,
                        post,
                        act,
                        TransporterError::UnexpectedClientMessageCode(ClientMessages::FileChunk),
                    )
                } else if c == 3 {
                    fails_session(
                        pre,
                        post,
                        act,
                        TransporterError::UnexpectedClientMessageCode(ClientMessages::FileDone),
                    )
                } else {
                    fails_session(pre, post, act, TransporterError::InvalidClientMessageCode(c))
                }
            },
            Event::Eof => fails_session(pre, post, act, TransporterError::ClientEOF),
            _ => fails_session(pre, post, act, TransporterError::ClientIoError),
        },
        Phase::AwaitNameLen => match ev {
            Event::Bytes(v) => {
                let n = spec_be_u16(v@);
                if n == 0 {
                    // An empty file name is permitted and passed through.
                    &&& post.beam_id == pre.beam_id
                    &&& post.phase is AwaitDecision
                    &&& act matches Action::CallBeginFile { beam_id, file_name }
                    &&& beam_id == pre.beam_id
                    &&& file_name@ == Seq::<char>::empty()
                } else {
                    &&& post.beam_id == pre.beam_id
                    &&& post.phase == (Phase::AwaitName { name_len: n as u16 })
                    &&& act == (Action::ReadExact { count: n as u64 })
                }
            },
            Event::Eof => fails_session(pre, post, act, TransporterError::ClientEOF),
            _ => fails_session(pre, post, act, TransporterError::ClientIoError),
        },
        Phase::AwaitName { .. } => match ev {
            Event::Bytes(v) => {
                if valid_utf8(v@) {
                    &&& post.beam_id == pre.beam_id
                    &&& post.phase is AwaitDecision
                    &&& act matches Action::CallBeginFile { beam_id, file_name }
                    &&& beam_id == pre.beam_id
                    &&& file_name@ == decode_utf8(v@)
                } else {
                    // A name that is not UTF-8 fails the read, a client I/O
                    // error.
                    fails_session(pre, post, act, TransporterError::ClientIoError)
                }
            },
            Event::Eof => fails_session(pre, post, act, TransporterError::ClientEOF),
            _ => fails_session(pre, post, act, TransporterError::ClientIoError),
        },
        Phase::AwaitDecision => match ev {
            Event::BeginReply { file_id, storage_name, should_beam } => {
                if should_beam {
                    &&& post.beam_id == pre.beam_id
                    &&& post.phase == (Phase::BeamAck { file_id, storage_name })
                    &&& act == (Action::WriteReply { msg: ServerMessages::BeamFile })
                } else {
                    // Skipped: no body is exchanged, storage is never
                    // touched, and no end-file report is made.
                    &&& post.beam_id == pre.beam_id
                    &&& post.phase is SkipAck
                    &&& act == (Action::WriteReply { msg: ServerMessages::SkipFile })
                }
            },
            Event::CoordinatorFailed(e) => {
                fails_session(pre, post, act, TransporterError::ScottyError(e))
            },
            _ => false,
        },
        Phase::SkipAck => match ev {
            Event::Written => continues_session(pre, post, act),
            Event::Eof => fails_session(pre, post, act, TransporterError::ClientEOF),
            _ => fails_session(pre, post, act, TransporterError::ClientIoError),
        },
        Phase::BeamAck { file_id, storage_name } => match ev {
            Event::Written => {
                &&& post.beam_id == pre.beam_id
                &&& post.phase == (Phase::AwaitCreate { file_id })
                &&& act == (Action::CreateFile { storage_name })
            },
            Event::Eof => fails_session(pre, post, act, TransporterError::ClientEOF),
            _ => fails_session(pre, post, act, TransporterError::ClientIoError),
        },
        Phase::AwaitCreate { file_id } => match ev {
            Event::Created => {
                &&& post.beam_id == pre.beam_id
                &&& post.phase matches Phase::AwaitChunkCode { fs }
                &&& fs.file_id == file_id
                &&& fs.length == 0
                &&& fs.written@ == Seq::<u8>::empty()
                &&& act == (Action::ReadExact { count: 1 })
            },
            _ => fails_file(pre, post, act, file_id, TransporterError::StorageIoError),
        },
        Phase::AwaitChunkCode { fs } => match ev {
            Event::Bytes(v) => {
                let c = v[0];
                if c == 2 {
                    // FileChunk: a four-byte length follows.
                    &&& post.beam_id == pre.beam_id
                    &&& post.phase == (Phase::AwaitChunkLen { fs })
                    &&& act == (Action::ReadExact { count: 4 })
                } else if c == 3 {
                    // FileDone: the transfer succeeded; its size and
                    // checksum go to the coordinator under the file's token.
                    &&& post.beam_id == pre.beam_id
                    &&& post.phase is AwaitFileReport
                    &&& act matches Action::CallEndFile { file_id, success, size, checksum }
                    &&& file_id == fs.file_id
                    &&& success == true
                    &&& size == Some(fs.length)
                    &&& checksum is Some
                } else if c == 0 {
                    fails_file(
                        pre,
                        post,
                        act,
                        fs.file_id,
                        TransporterError::UnexpectedClientMessageCode(ClientMessages::BeamComplete),
                    )
                } else if c == 1 {
                    fails_file(
                        pre,
                        post,
                        act,
                        fs.file_id,
                        TransporterError::UnexpectedClientMessageCode(
                            ClientMessages::StartBeamingFile,
                        ),
                    )
                } else {
                    fails_file(
                        pre,
                        post,
                        act,
                        fs.file_id,
                        TransporterError::InvalidClientMessageCode(c),
                    )
                }
            },
            Event::Eof => fails_file(pre, post, act, fs.file_id, TransporterError::ClientEOF),
            _ => fails_file(pre, post, act, fs.file_id, TransporterError::ClientIoError),
        },
        Phase::AwaitChunkLen { fs } => match ev {
            Event::Bytes(v) => {
                let n = spec_be_u32(v@);
                if n == 0 {
                    // An empty chunk is a no-op read.
                    &&& post.beam_id == pre.beam_id
                    &&& post.phase == (Phase::AwaitChunkCode { fs })
                    &&& act == (Action::ReadExact { count: 1 })
                } else {
                    &&& post.beam_id == pre.beam_id
                    &&& post.phase == (Phase::Receiving { fs, remaining: n as u32 })
                    &&& act == (Action::ReadSome { max: spec_read_limit(n as u32) })
                }
            },
            Event::Eof => fails_file(pre, post, act, fs.file_id, TransporterError::ClientEOF),
            _ => fails_file(pre, post, act, fs.file_id, TransporterError::ClientIoError),
        },
        Phase::Receiving { fs, remaining } => match ev {
            Event::Bytes(v) => {
                // The bytes feed the checksum first, then go to storage,
                // exactly as received.
                &&& post.beam_id == pre.beam_id
                &&& post.phase matches Phase::AwaitWriteAck { fs: fs2, remaining: rem2, pending }
                &&& fs2.file_id == fs.file_id
                &&& sha512_fed(fs2.digest) == sha512_fed(fs.digest) + v@
                &&& fs2.length == fs.length + v@.len()
                &&& fs2.written == fs.written
                &&& rem2 == remaining - v@.len()
                &&& pending@ == v@
                &&& act matches Action::WriteStorage { bytes }
                &&& bytes@ == v@
            },
            Event::Eof => fails_file(pre, post, act, fs.file_id, TransporterError::ClientEOF),
            _ => fails_file(pre, post, act, fs.file_id, TransporterError::ClientIoError),
        },
        Phase::AwaitWriteAck { fs, remaining, pending } => match ev {
            Event::StorageWritten => {
                if remaining == 0 {
                    &&& post.beam_id == pre.beam_id
                    &&& post.phase matches Phase::AwaitChunkCode { fs: fs2 }
                    &&& fs2.file_id == fs.file_id
                    &&& fs2.digest == fs.digest
                    &&& fs2.length == fs.length
                    &&& fs2.written@ == fs.written@ + pending@
                    &&& act == (Action::ReadExact { count: 1 })
                } else {
                    &&& post.beam_id == pre.beam_id
                    &&& post.phase matches Phase::Receiving { fs: fs2, remaining: rem2 }
                    &&& fs2.file_id == fs.file_id
                    &&& fs2.digest == fs.digest
                    &&& fs2.length == fs.length
                    &&& fs2.written@ == fs.written@ + pending@
                    &&& rem2 == remaining
                    &&& act == (Action::ReadSome { max: spec_read_limit(remaining) })
                }
            },
            _ => fails_file(pre, post, act, fs.file_id, TransporterError::StorageIoError),
        },
        Phase::AwaitFileReport => match ev {
            Event::EndFileOk => {
                &&& post.beam_id == pre.beam_id
                &&& post.phase is FileBeamedAck
                &&& act == (Action::WriteReply { msg: ServerMessages::FileBeamed })
            },
            Event::CoordinatorFailed(e) => {
                fails_session(pre, post, act, TransporterError::ScottyError(e))
            },
            _ => false,
        },
        Phase::FileBeamedAck => match ev {
            Event::Written => continues_session(pre, post, act),
            Event::Eof => fails_session(pre, post, act, TransporterError::ClientEOF),
            _ => fails_session(pre, post, act, TransporterError::ClientIoError),
        },
        Phase::AwaitFailReport { err } => match ev {
            // The file's own failure aborts the session; a failing end-file
            // report takes precedence over it.
            Event::EndFileOk => fails_session(pre, post, act, err),
            Event::CoordinatorFailed(e) => {
                fails_session(pre, post, act, TransporterError::ScottyError(e))
            },
            _ => false,
        },
        Phase::AwaitSessionReport { result } => {
            // The final report is best-effort: its own failure is only
            // logged by the driver and does not change the outcome.
            &&& post.beam_id == pre.beam_id
            &&& post.phase is Done
            &&& act == (Action::Finished { result })
        },
        Phase::Done => false,
    }
}

/// The checksum a successful transfer reports is the hex SHA-512 digest of
/// exactly the bytes written to storage.
pub open spec fn reports_checksum(pre: Engine, ev: Event, act: Action) -> bool {
    (pre.phase matches Phase::AwaitChunkCode { fs } && ev matches Event::Bytes(v) && v@.len() == 1
        && v[0] == 3) ==> {
        &&& act matches Action::CallEndFile { checksum, .. }
        &&& checksum matches Some(c)
        &&& c@ == sha512_hex_of(pre.phase->AwaitChunkCode_fs.written@)
    }
}

/// Relies on String::from_utf8: `Ok` exactly on valid UTF-8 input, and the
/// returned string then holds the decoded scalar values of `bytes`.
#[verifier::external_body]
fn utf8_decode(bytes: Vec<u8>) -> (r: Option<String>)
    ensures
        r is Some <==> valid_utf8(bytes@),
        r matches Some(s) ==> s@ == decode_utf8(bytes@),
{
    String::from_utf8(bytes).ok()
}

/// Record a session failure: the next action reports it to the coordinator.
fn report_session_failure(beam_id: u64, err: TransporterError) -> (r: (Engine, Action))
    ensures
        r.0.wf(),
        r.0.beam_id == beam_id,
        r.0.phase == (Phase::AwaitSessionReport { result: Some(err) }),
        r.1 matches Action::CallEndSession { beam_id: b, success, error_message },
        r.1->CallEndSession_beam_id == beam_id,
        r.1->CallEndSession_success == false,
        r.1->CallEndSession_error_message matches Some(m) && m@ == err.spec_message(),
{
    let message = err.message();
    let action = Action::CallEndSession {
        beam_id,
        success: false,
        error_message: Some(message.to_owned()),
    };
    (Engine { beam_id, phase: Phase::AwaitSessionReport { result: Some(err) } }, action)
}

/// Record a file failure: the next action reports it under the file's token.
fn report_file_failure(beam_id: u64, file_id: String, err: TransporterError) -> (r: (
    Engine,
    Action,
))
    ensures
        r.0.wf(),
        r.0.beam_id == beam_id,
        r.0.phase == (Phase::AwaitFailReport { err }),
        r.1 == (Action::CallEndFile { file_id, success: false, size: None, checksum: None }),
{
    let action = Action::CallEndFile { file_id, success: false, size: None, checksum: None };
    (Engine { beam_id, phase: Phase::AwaitFailReport { err } }, action)
}

impl Engine {
    /// A fresh engine for one connection, together with its first action:
    /// read the eight-byte beam id.
    pub fn new() -> (r: (Engine, Action))
        ensures
            r.0.wf(),
            r.0.phase is AwaitBeamId,
            r.1 == (Action::ReadExact { count: 8 }),
    {
        (Engine { beam_id: 0, phase: Phase::AwaitBeamId }, Action::ReadExact { count: 8 })
    }

    /// Consume the outcome of the last requested action and decide the next
    /// one. The engine takes every protocol decision here; the driver only
    /// performs the actions.
    pub fn step(self, ev: Event) -> (r: (Engine, Action))
        requires
            self.wf(),
            self.accepts(ev),
        ensures
            r.0.wf(),
            transition(self, ev, r.0, r.1),
            reports_checksum(self, ev, r.1),
    {
        let Engine { beam_id, phase } = self;
        match (phase, ev) {
            (Phase::AwaitBeamId, Event::Bytes(v)) => {
                let id = be_u64(&v);
                (Engine { beam_id: id, phase: Phase::AwaitCode }, Action::ReadExact { count: 1 })
            },
            (Phase::AwaitBeamId, Event::Eof) => {
                (
                    Engine { beam_id, phase: Phase::Done },
                    Action::Finished { result: Some(TransporterError::ClientEOF) },
                )
            },
            (Phase::AwaitBeamId, Event::IoFailed) => {
                (
                    Engine { beam_id, phase: Phase::Done },
                    Action::Finished { result: Some(TransporterError::ClientIoError) },
                )
            },
            (Phase::AwaitCode, Event::Bytes(v)) => {
                let c = v[0];
                if c == 0 {
                    (
                        Engine { beam_id, phase: Phase::AwaitSessionReport { result: None } },
                        Action::CallEndSession { beam_id, success: true, error_message: None },
                    )
                } else if c == 1 {
                    (
                        Engine { beam_id, phase: Phase::AwaitNameLen },
                        Action::ReadExact { count: 2 },
                    )
                } else if c == 2 {
                    report_session_failure(
                        beam_id,
                        TransporterError::UnexpectedClientMessageCode(ClientMessages::FileChunk),
                    )
                } else if c == 3 {
                    report_session_failure(
                        beam_id,
                        TransporterError::UnexpectedClientMessageCode(ClientMessages::FileDone),
                    )
                } else {
                    report_session_failure(
                        beam_id,
                        TransporterError::InvalidClientMessageCode(c),
                    )
                }
            },
            (Phase::AwaitCode, Event::Eof) => {
                report_session_failure(beam_id, TransporterError::ClientEOF)
            },
            (Phase::AwaitCode, Event::IoFailed) => {
                report_session_failure(beam_id, TransporterError::ClientIoError)
            },
            (Phase::AwaitNameLen, Event::Bytes(v)) => {
                let n = be_u16(&v);
                if n == 0 {
                    (
                        Engine { beam_id, phase: Phase::AwaitDecision },
                        Action::CallBeginFile { beam_id, file_name: String::new() },
                    )
                } else {
                    (
                        Engine { beam_id, phase: Phase::AwaitName { name_len: n } },
                        Action::ReadExact { count: n as u64 },
                    )
                }
            },
            (Phase::AwaitNameLen, Event::Eof) => {
                report_session_failure(beam_id, TransporterError::ClientEOF)
            },
            (Phase::AwaitNameLen, Event::IoFailed) => {
                report_session_failure(beam_id, TransporterError::ClientIoError)
            },
            (Phase::AwaitName { .. }, Event::Bytes(v)) => {
                match utf8_decode(v) {
                    Some(file_name) => {
                        (
                            Engine { beam_id, phase: Phase::AwaitDecision },
                            Action::CallBeginFile { beam_id, file_name },
                        )
                    },
                    None => report_session_failure(beam_id, TransporterError::ClientIoError),
                }
            },
            (Phase::AwaitName { .. }, Event::Eof) => {
                report_session_failure(beam_id, TransporterError::ClientEOF)
            },
            (Phase::AwaitName { .. }, Event::IoFailed) => {
                report_session_failure(beam_id, TransporterError::ClientIoError)
            },
            (Phase::AwaitDecision, Event::BeginReply { file_id, storage_name, should_beam }) => {
                if should_beam {
                    (
                        Engine { beam_id, phase: Phase::BeamAck { file_id, storage_name } },
                        Action::WriteReply { msg: ServerMessages::BeamFile },
                    )
                } else {
                    (
                        Engine { beam_id, phase: Phase::SkipAck },
                        Action::WriteReply { msg: ServerMessages::SkipFile },
                    )
                }
            },
            (Phase::AwaitDecision, Event::CoordinatorFailed(e)) => {
                report_session_failure(beam_id, TransporterError::ScottyError(e))
            },
            (Phase::SkipAck, Event::Written) => {
                (Engine { beam_id, phase: Phase::AwaitCode }, Action::ReadExact { count: 1 })
            },
            (Phase::SkipAck, Event::Eof) => {
                report_session_failure(beam_id, TransporterError::ClientEOF)
            },
            (Phase::SkipAck, Event::IoFailed) => {
                report_session_failure(beam_id, TransporterError::ClientIoError)
            },
            (Phase::BeamAck { file_id, storage_name }, Event::Written) => {
                (
                    Engine { beam_id, phase: Phase::AwaitCreate { file_id } },
                    Action::CreateFile { storage_name },
                )
            },
            (Phase::BeamAck { .. }, Event::Eof) => {
                report_session_failure(beam_id, TransporterError::ClientEOF)
            },
            (Phase::BeamAck { .. }, Event::IoFailed) => {
                report_session_failure(beam_id, TransporterError::ClientIoError)
            },
            (Phase::AwaitCreate { file_id }, Event::Created) => {
                let digest = sha512_new();
                let fs = FileStream { file_id, digest, length: 0, written: Ghost(Seq::empty()) };
                (
                    Engine { beam_id, phase: Phase::AwaitChunkCode { fs } },
                    Action::ReadExact { count: 1 },
                )
            },
            (Phase::AwaitCreate { file_id }, Event::StorageFailed) => {
                report_file_failure(beam_id, file_id, TransporterError::StorageIoError)
            },
            (Phase::AwaitChunkCode { fs }, Event::Bytes(v)) => {
                let c = v[0];
                if c == 2 {
                    (
                        Engine { beam_id, phase: Phase::AwaitChunkLen { fs } },
                        Action::ReadExact { count: 4 },
                    )
                } else if c == 3 {
                    let FileStream { file_id, digest, length, written } = fs;
                    let checksum = sha512_result_str(digest);
                    (
                        Engine { beam_id, phase: Phase::AwaitFileReport },
                        Action::CallEndFile {
                            file_id,
                            success: true,
                            size: Some(length),
                            checksum: Some(checksum),
                        },
                    )
                } else if c == 0 {
                    report_file_failure(
                        beam_id,
                        fs.file_id,
                        TransporterError::UnexpectedClientMessageCode(ClientMessages::BeamComplete),
                    )
                } else if c == 1 {
                    report_file_failure(
                        beam_id,
                        fs.file_id,
                        TransporterError::UnexpectedClientMessageCode(
                            ClientMessages::StartBeamingFile,
                        ),
                    )
                } else {
                    report_file_failure(
                        beam_id,
                        fs.file_id,
                        TransporterError::InvalidClientMessageCode(c),
                    )
                }
            },
            (Phase::AwaitChunkCode { fs }, Event::Eof) => {
                report_file_failure(beam_id, fs.file_id, TransporterError::ClientEOF)
            },
            (Phase::AwaitChunkCode { fs }, Event::IoFailed) => {
                report_file_failure(beam_id, fs.file_id, TransporterError::ClientIoError)
            },
            (Phase::AwaitChunkLen { fs }, Event::Bytes(v)) => {
                let n = be_u32(&v);
                if n == 0 {
                    (
                        Engine { beam_id, phase: Phase::AwaitChunkCode { fs } },
                        Action::ReadExact { count: 1 },
                    )
                } else {
                    let max = read_limit(n);
                    (
                        Engine { beam_id, phase: Phase::Receiving { fs, remaining: n } },
                        Action::ReadSome { max },
                    )
                }
            },
            (Phase::AwaitChunkLen { fs }, Event::Eof) => {
                report_file_failure(beam_id, fs.file_id, TransporterError::ClientEOF)
            },
            (Phase::AwaitChunkLen { fs }, Event::IoFailed) => {
                report_file_failure(beam_id, fs.file_id, TransporterError::ClientIoError)
            },
            (Phase::Receiving { mut fs, remaining }, Event::Bytes(v)) => {
                let k = v.len();
                sha512_input(&mut fs.digest, &v);
                fs.length = fs.length + k as u64;
                let rem2 = remaining - k as u32;
                let ghost pending = v@;
                (
                    Engine {
                        beam_id,
                        phase: Phase::AwaitWriteAck {
                            fs,
                            remaining: rem2,
                            pending: Ghost(pending),
                        },
                    },
                    Action::WriteStorage { bytes: v },
                )
            },
            (Phase::Receiving { fs, .. }, Event::Eof) => {
                report_file_failure(beam_id, fs.file_id, TransporterError::ClientEOF)
            },
            (Phase::Receiving { fs, .. }, Event::IoFailed) => {
                report_file_failure(beam_id, fs.file_id, TransporterError::ClientIoError)
            },
            (Phase::AwaitWriteAck { mut fs, remaining, pending }, Event::StorageWritten) => {
                proof {
                    fs.written@ = fs.written@ + pending@;
                }
                if remaining == 0 {
                    (
                        Engine { beam_id, phase: Phase::AwaitChunkCode { fs } },
                        Action::ReadExact { count: 1 },
                    )
                } else {
                    let max = read_limit(remaining);
                    (
                        Engine { beam_id, phase: Phase::Receiving { fs, remaining } },
                        Action::ReadSome { max },
                    )
                }
            },
            (Phase::AwaitWriteAck { fs, .. }, Event::StorageFailed) => {
                report_file_failure(beam_id, fs.file_id, TransporterError::StorageIoError)
            },
            (Phase::AwaitFileReport, Event::EndFileOk) => {
                (
                    Engine { beam_id, phase: Phase::FileBeamedAck },
                    Action::WriteReply { msg: ServerMessages::FileBeamed },
                )
            },
            (Phase::AwaitFileReport, Event::CoordinatorFailed(e)) => {
                report_session_failure(beam_id, TransporterError::ScottyError(e))
            },
            (Phase::FileBeamedAck, Event::Written) => {
                (Engine { beam_id, phase: Phase::AwaitCode }, Action::ReadExact { count: 1 })
            },
            (Phase::FileBeamedAck, Event::Eof) => {
                report_session_failure(beam_id, TransporterError::ClientEOF)
            },
            (Phase::FileBeamedAck, Event::IoFailed) => {
                report_session_failure(beam_id, TransporterError::ClientIoError)
            },
            (Phase::AwaitFailReport { err }, Event::EndFileOk) => {
                report_session_failure(beam_id, err)
            },
            (Phase::AwaitFailReport { .. }, Event::CoordinatorFailed(e)) => {
                report_session_failure(beam_id, TransporterError::ScottyError(e))
            },
            (Phase::AwaitSessionReport { result }, _) => {
                (Engine { beam_id, phase: Phase::Done }, Action::Finished { result })
            },
            _ => unreached(),
        }
    }
}

/// For any accepted transfer that completes, the size the engine reports is
/// exactly the number of bytes it handed to storage and saw acknowledged,
/// which is also exactly the number of bytes fed to the checksum: the bytes
/// counted, the bytes written and the bytes digested are one stream, the
/// concatenation of the chunk payloads received before `FileDone`.
pub proof fn lemma_completed_file_report(pre: Engine, ev: Event, post: Engine, act: Action)
    requires
        pre.wf(),
        pre.phase matches Phase::AwaitChunkCode { .. },
        ev matches Event::Bytes(v) && v@.len() == 1 && v[0] == 3,
        transition(pre, ev, post, act),
    ensures
        act matches Action::CallEndFile { success, size, .. } && success == true && size == Some(
            pre.phase->AwaitChunkCode_fs.length,
        ),
        pre.phase->AwaitChunkCode_fs.length == pre.phase->AwaitChunkCode_fs.written@.len(),
        sha512_fed(pre.phase->AwaitChunkCode_fs.digest) == pre.phase->AwaitChunkCode_fs.written@,
{
}

/// A skipped file exchanges no body bytes and leaves storage untouched: the
/// engine's only reply is the `SkipFile` byte, the begin-file call stays the
/// file's only coordinator interaction, and the next step either returns to
/// the session loop or — if even the one reply byte cannot be written —
/// reports the failed session.
pub proof fn lemma_skipped_file(
    pre: Engine,
    ev: Event,
    post: Engine,
    act: Action,
    ev2: Event,
    post2: Engine,
    act2: Action,
)
    requires
        pre.phase is AwaitDecision,
        ev matches Event::BeginReply { should_beam, .. } && !should_beam,
        transition(pre, ev, post, act),
        transition(post, ev2, post2, act2),
    ensures
        act == (Action::WriteReply { msg: ServerMessages::SkipFile }),
        post.phase is SkipAck,
        !(act2 matches Action::ReadSome { .. }),
        !(act2 matches Action::CreateFile { .. }),
        !(act2 matches Action::WriteStorage { .. }),
        !(act2 matches Action::CallBeginFile { .. }),
        !(act2 matches Action::CallEndFile { .. }),
        ev2 is Written ==> continues_session(post, post2, act2),
{
}

/// Once a failure is recorded — a failed end-file report pending, or a
/// failed end-session report pending — the engine never again reads from
/// the client, writes to it, touches storage, or asks the coordinator to
/// begin a file: it only finishes reporting the failure and stops. In a
/// session of many files, a failure at file `k` therefore means no file
/// after `k` is ever requested from the coordinator, and the session is
/// reported as failed.
pub proof fn lemma_failure_aborts_session(pre: Engine, ev: Event, post: Engine, act: Action)
    requires
        pre.phase matches Phase::AwaitFailReport { .. } || pre.phase matches
            Phase::AwaitSessionReport { result: Some(_) },
        transition(pre, ev, post, act),
    ensures
        !(act matches Action::ReadExact { .. }),
        !(act matches Action::ReadSome { .. }),
        !(act matches Action::WriteReply { .. }),
        !(act matches Action::CreateFile { .. }),
        !(act matches Action::WriteStorage { .. }),
        !(act matches Action::CallBeginFile { .. }),
        post.phase matches Phase::AwaitSessionReport { result: Some(_) } || post.phase is Done,
        pre.phase matches Phase::AwaitSessionReport { result: Some(e) } ==> post.phase is Done
            && act == (Action::Finished { result: Some(e) }),
{
}

/// A failure has been recorded: a failed end-file report is pending, the
/// failed session report is pending, or the connection is already over.
pub open spec fn failure_pending(e: Engine) -> bool {
    ||| e.phase matches Phase::AwaitFailReport { .. }
    ||| e.phase matches Phase::AwaitSessionReport { result: Some(_) }
    ||| e.phase is Done
}

/// A run of the engine: from `states[0]`, event `i` turns `states[i]` into
/// `states[i + 1]` while requesting `actions[i]`, by the transition
/// relation.
pub open spec fn is_run(states: Seq<Engine>, events: Seq<Event>, actions: Seq<Action>) -> bool {
    &&& states.len() == events.len() + 1
    &&& actions.len() == events.len()
    &&& forall|i: int|
        0 <= i < events.len() ==> transition(
            states[i],
            events[i],
            #[trigger] states[i + 1],
            actions[i],
        )
}

/// One step from a recorded failure stays failed, asks the coordinator for
/// no further file, and can only report failure.
proof fn lemma_failure_step(pre: Engine, ev: Event, post: Engine, act: Action)
    requires
        failure_pending(pre),
        transition(pre, ev, post, act),
    ensures
        failure_pending(post),
        !(act is CallBeginFile),
        act matches Action::CallEndSession { success, .. } ==> !success,
        act matches Action::Finished { result } ==> result is Some,
{
}

/// In any run of the engine, once a failure is recorded after file `k`,
/// every later step keeps the failure: no file after `k` is ever requested
/// from the coordinator (no further begin-file call), the session is only
/// ever reported to the coordinator as failed, and the connection can only
/// finish with an error.
pub proof fn lemma_failed_session_requests_no_more_files(
    states: Seq<Engine>,
    events: Seq<Event>,
    actions: Seq<Action>,
    k: int,
)
    requires
        is_run(states, events, actions),
        0 <= k < states.len(),
        failure_pending(states[k]),
    ensures
        forall|j: int| k <= j < states.len() ==> failure_pending(#[trigger] states[j]),
        forall|j: int| k <= j < actions.len() ==> !((#[trigger] actions[j]) is CallBeginFile),
        forall|j: int|
            k <= j < actions.len() ==> ((#[trigger] actions[j]) matches Action::CallEndSession {
                success,
                ..
            } ==> !success),
        forall|j: int|
            k <= j < actions.len() ==> ((#[trigger] actions[j]) matches Action::Finished {
                result,
            } ==> result is Some),
    decreases states.len() - k,
{
    if k + 1 < states.len() {
        lemma_failure_step(states[k], events[k], states[k + 1], actions[k]);
        lemma_failed_session_requests_no_more_files(states, events, actions, k + 1);
    }
}

/// An unrecognized message-code byte, at either position where a code is
/// expected, is a protocol violation: this step writes nothing to storage,
/// and the engine turns to reporting the failure, terminating the
/// connection. Storage keeps only what was already flushed for prior,
/// distinct files.
pub proof fn lemma_unknown_code_is_fatal(pre: Engine, ev: Event, post: Engine, act: Action)
    requires
        pre.phase is AwaitCode || pre.phase matches Phase::AwaitChunkCode { .. },
        ev matches Event::Bytes(v) && v@.len() == 1 && v[0] > 3,
        transition(pre, ev, post, act),
    ensures
        !(act matches Action::WriteStorage { .. }),
        !(act matches Action::CreateFile { .. }),
        pre.phase is AwaitCode ==> fails_session(
            pre,
            post,
            act,
            TransporterError::InvalidClientMessageCode(ev->Bytes_0[0]),
        ),
        pre.phase matches Phase::AwaitChunkCode { fs } ==> fails_file(
            pre,
            post,
            act,
            fs.file_id,
            TransporterError::InvalidClientMessageCode(ev->Bytes_0[0]),
        ),
{
}

} // verus!
