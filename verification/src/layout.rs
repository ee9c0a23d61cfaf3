use vstd::prelude::*;

use crate::boot::FATBootSector;
use crate::error::SDError;

verus! {

/// The starting sectors of the three major regions of a FAT16 volume, all
/// absolute sector indices on the device.
#[derive(Debug, Clone, Copy, PartialEq, Eq, Structural)]
pub struct FATLayout {
    /// First sector of the first file allocation table.
    pub fat_start: u32,
    /// First sector of the fixed-size root directory.
    pub root_dir_start: u32,
    /// First sector of the data area.
    pub data_start: u32,
}

/// Size in bytes of one root-directory entry.
pub const DIR_ENTRY_SIZE: u16 = 32;

/// Number of sectors the root directory occupies: its byte size divided by
/// the sector size, rounded up to whole sectors.
pub open spec fn spec_root_dir_sectors(b: FATBootSector) -> int
    recommends
        b.bytes_per_sector > 0,
{
    (b.root_dir_entries * DIR_ENTRY_SIZE + b.bytes_per_sector - 1) / (b.bytes_per_sector as int)
}

/// The FAT region begins right after the reserved sectors.
pub open spec fn spec_fat_start(b: FATBootSector) -> int {
    b.reserved_sectors as int
}

/// The root directory begins after all file allocation tables.
pub open spec fn spec_root_dir_start(b: FATBootSector) -> int {
    spec_fat_start(b) + b.number_of_fats * b.sectors_per_fat
}

/// The data area begins after the root directory.
pub open spec fn spec_data_start(b: FATBootSector) -> int {
    spec_root_dir_start(b) + spec_root_dir_sectors(b)
}

/// The layout derived from a boot sector with a nonzero sector size.
pub open spec fn spec_layout(b: FATBootSector) -> FATLayout
    recommends
        b.bytes_per_sector > 0,
{
    FATLayout {
        fat_start: spec_fat_start(b) as u32,
        root_dir_start: spec_root_dir_start(b) as u32,
        data_start: spec_data_start(b) as u32,
    }
}

/// Every derived sector index fits comfortably in 32 bits: the fields are at
/// most 8 or 16 bits wide, so the sums and products stay far below `u32::MAX`.
pub proof fn lemma_layout_bounds(b: FATBootSector)
    requires
        b.bytes_per_sector >= 1,
    ensures
        0 <= spec_fat_start(b) <= spec_root_dir_start(b) <= spec_data_start(b) < 0x100000000,
{
    let num = b.root_dir_entries * DIR_ENTRY_SIZE + b.bytes_per_sector - 1;
    assert(0 <= b.number_of_fats * b.sectors_per_fat <= 255 * 65535) by (nonlinear_arith)
        requires
            0 <= b.number_of_fats <= 255,
            0 <= b.sectors_per_fat <= 65535,
    ;
    assert(0 <= num / (b.bytes_per_sector as int) <= num) by (nonlinear_arith)
        requires
            0 <= num,
            b.bytes_per_sector >= 1,
    ;
}

/// Deriving the layout is deterministic and idempotent: any two layouts
/// derived from one and the same boot sector are identical.
pub proof fn lemma_layout_deterministic(b: FATBootSector, first: FATLayout, second: FATLayout)
    requires
        first == spec_layout(b),
        second == spec_layout(b),
    ensures
        first == second,
{
}

/// A boot sector with nonzero geometry in every region — a nonzero sector
/// size, at least one FAT of at least one sector, and at least one
/// root-directory entry — puts the three region starts in strictly
/// increasing order.
pub proof fn lemma_layout_strictly_increasing(b: FATBootSector)
    requires
        b.bytes_per_sector >= 1,
        b.number_of_fats >= 1,
        b.sectors_per_fat >= 1,
        b.root_dir_entries >= 1,
    ensures
        spec_layout(b).fat_start < spec_layout(b).root_dir_start,
        spec_layout(b).root_dir_start < spec_layout(b).data_start,
{
    lemma_layout_bounds(b);
    let num = b.root_dir_entries * DIR_ENTRY_SIZE + b.bytes_per_sector - 1;
    assert(b.number_of_fats * b.sectors_per_fat >= 1) by (nonlinear_arith)
        requires
            b.number_of_fats >= 1,
            b.sectors_per_fat >= 1,
    ;
    assert(num / (b.bytes_per_sector as int) >= 1) by (nonlinear_arith)
        requires
            num >= b.bytes_per_sector,
            b.bytes_per_sector >= 1,
    ;
}

/// A volume with no root-directory entries has an empty root-directory
/// region: it occupies zero sectors, and the data area begins exactly where
/// the root directory would.
pub proof fn lemma_empty_root_dir(b: FATBootSector)
    requires
        b.bytes_per_sector >= 1,
        b.root_dir_entries == 0,
    ensures
        spec_root_dir_sectors(b) == 0,
        spec_layout(b).root_dir_start == spec_layout(b).data_start,
{
    lemma_layout_bounds(b);
    assert((b.bytes_per_sector - 1) / (b.bytes_per_sector as int) == 0) by (nonlinear_arith)
        requires
            b.bytes_per_sector >= 1,
    ;
}

/// Derives the region layout from a boot sector.
///
/// A boot sector with a nonzero `bytes_per_sector` always yields exactly the
/// layout that `spec_layout` gives, with the three region starts in order;
/// one declaring zero bytes per sector is rejected as `InvalidGeometry`
/// before any arithmetic is attempted.
pub fn calculate_layout(boot: &FATBootSector) -> (r: Result<FATLayout, SDError>)
    ensures
        boot.bytes_per_sector > 0 ==> r == Ok::<FATLayout, SDError>(spec_layout(*boot)),
        boot.bytes_per_sector > 0 ==> (r matches Ok(l)
            && l.fat_start <= l.root_dir_start <= l.data_start),
        boot.bytes_per_sector == 0 ==> r == Err::<FATLayout, SDError>(SDError::InvalidGeometry),
{
    if boot.bytes_per_sector == 0 {
        return Err(SDError::InvalidGeometry);
    }
    proof {
        lemma_layout_bounds(*boot);
    }
    let bps: u32 = boot.bytes_per_sector as u32;
    let root_dir_sectors: u32 = ((boot.root_dir_entries as u32) * (DIR_ENTRY_SIZE as u32) + (bps
        - 1)) / bps;
    let fat_start: u32 = boot.reserved_sectors as u32;
    let root_dir_start: u32 = fat_start + (boot.number_of_fats as u32) * (boot.sectors_per_fat
        as u32);
    let data_start: u32 = root_dir_start + root_dir_sectors;
    Ok(FATLayout { fat_start, root_dir_start, data_start })
}

} // verus!
