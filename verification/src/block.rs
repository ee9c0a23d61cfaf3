use vstd::prelude::*;

use crate::error::SDError;

verus! {

/// Size in bytes of one block (sector) of the underlying device.
pub const BLOCK_SIZE: usize = 512;

/// Decides whether a block read brought back a full block: `actual` is the
/// number of bytes the device returned, `expected` the number requested.
/// Anything short of a full block is reported as a distinguishable
/// `ShortRead` error so that no caller ever decodes partial data.
pub fn check_read_exact(expected: usize, actual: usize) -> (r: Result<(), SDError>)
    ensures
        r is Ok <==> actual == expected,
        r is Err ==> r->Err_0 == (SDError::ShortRead { expected, actual }),
{
    if actual == expected {
        Ok(())
    } else {
        Err(SDError::ShortRead { expected, actual })
    }
}

} // verus!
