//! Core of a file-upload ("beaming") server: clients open a connection,
//! declare a session id, and stream files in a small binary protocol; each
//! file is persisted to storage while a SHA-512 checksum is computed, and a
//! coordinator service is consulted before and after every transfer.
//!
//! The protocol engine, the retry policy of the coordinator client, the wire
//! codec and the error taxonomy live here, verified. The surrounding I/O
//! (sockets, files, HTTP) drives the engine through its event/action
//! interface from unverified glue code.

pub mod checksum;
pub mod config;
pub mod engine;
pub mod error;
pub mod messages;
pub mod retry;
pub mod scotty;
pub mod storage;
