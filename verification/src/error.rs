use vstd::prelude::*;

verus! {

/// Every way a decode / layout run can fail, one variant per failure kind, so
/// that callers can branch on the kind without string matching.
///
/// `DeviceNotFound` and `Io` describe failures of the block source that
/// supplies raw sectors; they are surfaced by the surrounding I/O layer and
/// never produced by the functions of this library.
#[derive(Debug, Clone, Copy, PartialEq, Eq, Structural)]
pub enum SDError {
    /// The underlying device could not be opened.
    DeviceNotFound,
    /// A generic transport failure while reading from the device.
    Io,
    /// The device returned fewer bytes than one full block.
    ShortRead { expected: usize, actual: usize },
    /// The input block is too short to hold all boot-sector fields.
    Truncated,
    /// The boot sector declares zero bytes per sector, so no layout exists.
    InvalidGeometry,
}

} // verus!
