//! Per-operation rules of the flash facade: which command each operation
//! issues, which timeout budget it grants, and which response it accepts.

use vstd::prelude::*;

use crate::codec::{Command, Error, Response, Xflash};
use crate::doorbell::DEFAULT_TIMEOUT_MS;
use crate::layout::BUF_SIZE;

verus! {

/// Timeout budget for a mass erase, independent of everything else.
pub const MASS_ERASE_TIMEOUT_MS: u64 = 240_000;

/// Per-sector allowance used to budget a sector erase.
pub const SECTOR_ERASE_UNIT_MS: u64 = 500;

/// The erase budget grows with the range: one allowance per whole buffer-size
/// unit, plus one for margin, since the range may straddle a sector boundary
/// at each end.
pub open spec fn spec_sector_erase_timeout_ms(length: u32) -> int {
    (length / BUF_SIZE + 1) * SECTOR_ERASE_UNIT_MS
}

pub fn sector_erase_timeout_ms(length: u32) -> (r: u64)
    ensures
        r == spec_sector_erase_timeout_ms(length),
{
    let num_sectors: u64 = (length / BUF_SIZE) as u64 + 1;
    num_sectors * SECTOR_ERASE_UNIT_MS
}

/// The exchange a `get_xflash_info` operation performs: the info command
/// under the default timeout.
pub fn get_xflash_info_request() -> (r: (Command, u64))
    ensures
        r == (Command::GetXflashInfo, DEFAULT_TIMEOUT_MS),
{
    (Command::GetXflashInfo, DEFAULT_TIMEOUT_MS)
}

/// The exchange a `sector_erase` operation performs: the erase command for
/// the given range, under the range-dependent budget.
pub fn sector_erase_request(offset: u32, length: u32) -> (r: (Command, u64))
    ensures
        r.0 == (Command::SectorErase { offset, length }),
        r.1 == spec_sector_erase_timeout_ms(length),
{
    (Command::SectorErase { offset, length }, sector_erase_timeout_ms(length))
}

/// The exchange a `mass_erase` operation performs: always the fixed 240 s
/// budget, whatever was erased or configured before.
pub fn mass_erase_request() -> (r: (Command, u64))
    ensures
        r == (Command::MassErase, MASS_ERASE_TIMEOUT_MS),
{
    (Command::MassErase, MASS_ERASE_TIMEOUT_MS)
}

/// Accept only a plain `Okay`; any other well-formed response is a protocol
/// contract failure.
pub fn expect_okay(response: Response) -> (r: Result<(), Error>)
    ensures
        response is Okay ==> r == Ok::<(), Error>(()),
        !(response is Okay) ==> r == Err::<(), Error>(Error::BadResponse { response }),
{
    match response {
        Response::Okay => Ok(()),
        _ => Err(Error::BadResponse { response }),
    }
}

/// Accept only an `XflashInfo`; in particular a plain `Okay` in its place
/// fails with `BadResponse` and carries no chip identity.
pub fn expect_xflash_info(response: Response) -> (r: Result<Xflash, Error>)
    ensures
        response matches Response::XflashInfo(x) ==> r == Ok::<Xflash, Error>(x),
        response is Okay ==> r == Err::<Xflash, Error>(Error::BadResponse { response }),
{
    match response {
        Response::XflashInfo(x) => Ok(x),
        response => Err(Error::BadResponse { response }),
    }
}

} // verus!
