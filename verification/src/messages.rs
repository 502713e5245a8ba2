//! Wire-level message codes and big-endian integer decoding.
//!
//! All integers on the wire are big-endian. A message code is a single byte;
//! any unrecognized code byte at a code position is a protocol error.

use vstd::prelude::*;

use crate::error::{TransporterError, TransporterResult};

verus! {

/// Message codes a client may send, one byte each on the wire:
/// `BeamComplete` = 0, `StartBeamingFile` = 1, `FileChunk` = 2, `FileDone` = 3.
#[derive(Debug, Clone, Copy, PartialEq, Eq, Structural)]
pub enum ClientMessages {
    BeamComplete,
    StartBeamingFile,
    FileChunk,
    FileDone,
}

impl ClientMessages {
    /// The byte that encodes this message on the wire.
    pub open spec fn spec_code(self) -> u8 {
        match self {
            ClientMessages::BeamComplete => 0,
            ClientMessages::StartBeamingFile => 1,
            ClientMessages::FileChunk => 2,
            ClientMessages::FileDone => 3,
        }
    }

    /// The decoding of one code byte: the matching message for 0 through 3,
    /// a protocol error for every other byte.
    pub open spec fn spec_from_u8(code: u8) -> TransporterResult<ClientMessages> {
        if code == 0 {
            Ok(ClientMessages::BeamComplete)
        } else if code == 1 {
            Ok(ClientMessages::StartBeamingFile)
        } else if code == 2 {
            Ok(ClientMessages::FileChunk)
        } else if code == 3 {
            Ok(ClientMessages::FileDone)
        } else {
            Err(TransporterError::InvalidClientMessageCode(code))
        }
    }

    /// Decode one message-code byte.
    pub fn from_u8(code: u8) -> (r: TransporterResult<ClientMessages>)
        ensures
            r == ClientMessages::spec_from_u8(code),
    {
        match code {
            0 => Ok(ClientMessages::BeamComplete),
            1 => Ok(ClientMessages::StartBeamingFile),
            2 => Ok(ClientMessages::FileChunk),
            3 => Ok(ClientMessages::FileDone),
            _ => Err(TransporterError::InvalidClientMessageCode(code)),
        }
    }
}

/// Message codes the server sends back, one byte each:
/// `SkipFile` = 0, `BeamFile` = 1, `FileBeamed` = 2.
#[derive(Debug, Clone, Copy, PartialEq, Eq, Structural)]
pub enum ServerMessages {
    SkipFile,
    BeamFile,
    FileBeamed,
}

impl ServerMessages {
    /// The byte that encodes this reply on the wire.
    pub open spec fn spec_code(self) -> u8 {
        match self {
            ServerMessages::SkipFile => 0,
            ServerMessages::BeamFile => 1,
            ServerMessages::FileBeamed => 2,
        }
    }

    /// Encode this reply as its wire byte.
    pub fn code(&self) -> (r: u8)
        ensures
            r == self.spec_code(),
    {
        match self {
            ServerMessages::SkipFile => 0,
            ServerMessages::BeamFile => 1,
            ServerMessages::FileBeamed => 2,
        }
    }
}

/// The value of two bytes read as a big-endian integer.
pub open spec fn spec_be_u16(b: Seq<u8>) -> int
    recommends
        b.len() == 2,
{
    b[0] * 0x100 + b[1]
}

/// The value of four bytes read as a big-endian integer.
pub open spec fn spec_be_u32(b: Seq<u8>) -> int
    recommends
        b.len() == 4,
{
    b[0] * 0x1000000 + b[1] * 0x10000 + b[2] * 0x100 + b[3]
}

/// The value of eight bytes read as a big-endian integer.
pub open spec fn spec_be_u64(b: Seq<u8>) -> int
    recommends
        b.len() == 8,
{
    b[0] * 0x100000000000000 + b[1] * 0x1000000000000 + b[2] * 0x10000000000
        + b[3] * 0x100000000 + b[4] * 0x1000000 + b[5] * 0x10000 + b[6] * 0x100 + b[7]
}

/// Decode a big-endian 16-bit integer from exactly two bytes.
pub fn be_u16(b: &Vec<u8>) -> (r: u16)
    requires
        b@.len() == 2,
    ensures
        r == spec_be_u16(b@),
{
    (b[0] as u16) * 0x100 + (b[1] as u16)
}

/// Decode a big-endian 32-bit integer from exactly four bytes.
pub fn be_u32(b: &Vec<u8>) -> (r: u32)
    requires
        b@.len() == 4,
    ensures
        r == spec_be_u32(b@),
{
    (b[0] as u32) * 0x1000000 + (b[1] as u32) * 0x10000 + (b[2] as u32) * 0x100 + (b[3] as u32)
}

/// Decode a big-endian 64-bit integer from exactly eight bytes.
pub fn be_u64(b: &Vec<u8>) -> (r: u64)
    requires
        b@.len() == 8,
    ensures
        r == spec_be_u64(b@),
{
    (b[0] as u64) * 0x100000000000000 + (b[1] as u64) * 0x1000000000000
        + (b[2] as u64) * 0x10000000000 + (b[3] as u64) * 0x100000000 + (b[4] as u64) * 0x1000000
        + (b[5] as u64) * 0x10000 + (b[6] as u64) * 0x100 + (b[7] as u64)
}

} // verus!
