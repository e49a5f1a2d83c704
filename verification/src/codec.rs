//! Fixed four-word command/response framing for the doorbell protocol.
//!
//! A command is encoded as four little-endian 32-bit words
//! `[opcode, arg0, arg1, arg2]`; unused trailing arguments are zero. A
//! response frame is decoded back into a tagged `Response`; any frame that
//! matches no known response shape is rejected as `InvalidResponse`.

use vstd::prelude::*;

verus! {

/// Identity of the external serial flash chip, reported by the stub as a
/// manufacturer/device id pair.
#[derive(Clone, Copy, Debug, PartialEq, Eq, Structural)]
pub struct Xflash {
    pub manufacturer_id: u32,
    pub device_id: u32,
}

impl Xflash {
    pub fn from_id(manufacturer_id: u32, device_id: u32) -> (r: Xflash)
        ensures
            r == (Xflash { manufacturer_id, device_id }),
    {
        Xflash { manufacturer_id, device_id }
    }
}

/// A request the host can place in the doorbell command slot.
#[derive(Clone, Copy, Debug, PartialEq, Eq, Structural)]
pub enum Command {
    GetXflashInfo,
    SectorErase { offset: u32, length: u32 },
    MassErase,
    ReadBlock { offset: u32, length: u32 },
    WriteBlock { offset: u32, length: u32 },
}

/// A reply the stub can place in the doorbell response slot.
#[derive(Clone, Copy, Debug, PartialEq, Eq, Structural)]
pub enum Response {
    Okay,
    XflashInfo(Xflash),
}

/// The closed set of failures the protocol engine can report.
///
/// `NoResponse` and `ErrorResponse` are reserved for stub-signalled failures;
/// no current engine path produces them.
#[derive(Clone, Copy, Debug, PartialEq, Eq)]
pub enum Error {
    NoResponse,
    InvalidResponse { bytes: [u32; 4] },
    BadResponse { response: Response },
    ErrorResponse { kind: u32 },
    FirmwareTimeout,
}

pub const OPCODE_GET_XFLASH_INFO: u32 = 0xC0;

pub const OPCODE_SECTOR_ERASE: u32 = 0xC1;

pub const OPCODE_MASS_ERASE: u32 = 0xC2;

pub const OPCODE_READ_BLOCK: u32 = 0xC3;

pub const OPCODE_WRITE_BLOCK: u32 = 0xC4;

pub const RESPONSE_OK: u32 = 0xD0;

pub const RESPONSE_XFLASH_INFO: u32 = 0xD1;

/// The four words a command encodes to.
pub open spec fn spec_encode(c: Command) -> Seq<u32> {
    match c {
        Command::GetXflashInfo => seq![OPCODE_GET_XFLASH_INFO, 0u32, 0u32, 0u32],
        Command::SectorErase { offset, length } => seq![OPCODE_SECTOR_ERASE, offset, length, 0u32],
        Command::MassErase => seq![OPCODE_MASS_ERASE, 0u32, 0u32, 0u32],
        Command::ReadBlock { offset, length } => seq![OPCODE_READ_BLOCK, offset, length, 0u32],
        Command::WriteBlock { offset, length } => seq![OPCODE_WRITE_BLOCK, offset, length, 0u32],
    }
}

/// The response (or framing error) a four-word frame decodes to.
pub open spec fn spec_decode(bytes: [u32; 4]) -> Result<Response, Error> {
    if bytes[0] == RESPONSE_OK && bytes[1] == 0 && bytes[2] == 0 && bytes[3] == 0 {
        Ok(Response::Okay)
    } else if bytes[0] == RESPONSE_XFLASH_INFO && bytes[3] == 0 {
        Ok(
            Response::XflashInfo(
                Xflash { manufacturer_id: bytes[1], device_id: bytes[2] },
            ),
        )
    } else {
        Err(Error::InvalidResponse { bytes })
    }
}

impl Command {
    /// Encode this command as the four-word frame the stub expects.
    pub fn to_bytes(&self) -> (r: [u32; 4])
        ensures
            r@ == spec_encode(*self),
    {
        let r: [u32; 4] = match self {
            Command::GetXflashInfo => [OPCODE_GET_XFLASH_INFO, 0, 0, 0],
            Command::SectorErase { offset, length } => [
                OPCODE_SECTOR_ERASE,
                *offset,
                *length,
                0,
            ],
            Command::MassErase => [OPCODE_MASS_ERASE, 0, 0, 0],
            Command::ReadBlock { offset, length } => [OPCODE_READ_BLOCK, *offset, *length, 0],
            Command::WriteBlock { offset, length } => [OPCODE_WRITE_BLOCK, *offset, *length, 0],
        };
        proof {
            assert(r@ =~= spec_encode(*self));
        }
        r
    }
}

impl Response {
    /// Decode a four-word response frame; a frame of unknown shape fails with
    /// `InvalidResponse` carrying the raw words.
    pub fn from_bytes(bytes: &[u32; 4]) -> (r: Result<Response, Error>)
        ensures
            r == spec_decode(*bytes),
    {
        if bytes[0] == RESPONSE_OK && bytes[1] == 0 && bytes[2] == 0 && bytes[3] == 0 {
            Ok(Response::Okay)
        } else if bytes[0] == RESPONSE_XFLASH_INFO && bytes[3] == 0 {
            Ok(Response::XflashInfo(Xflash::from_id(bytes[1], bytes[2])))
        } else {
            Err(Error::InvalidResponse { bytes: *bytes })
        }
    }
}

} // verus!
