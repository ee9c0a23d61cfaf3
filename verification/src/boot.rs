use vstd::prelude::*;

use crate::block::BLOCK_SIZE;
use crate::error::SDError;

verus! {

/// The fields of a FAT16 BIOS Parameter Block that the layout calculation
/// reads, as decoded from the first sector of the volume.
#[derive(Debug, Clone, Copy, PartialEq, Eq, Structural)]
pub struct FATBootSector {
    /// Sector size in bytes as declared by the filesystem; must be nonzero
    /// for the layout arithmetic to be defined.
    pub bytes_per_sector: u16,
    pub sectors_per_cluster: u8,
    /// Sectors preceding the first FAT, the boot sector itself included.
    pub reserved_sectors: u16,
    /// Number of file allocation tables, typically 1 or 2.
    pub number_of_fats: u8,
    /// Number of fixed-size (32-byte) root-directory entries.
    pub root_dir_entries: u16,
    /// Total sector count; zero means the 32-bit field holds the true count.
    pub total_sectors_16: u16,
    pub media_descriptor: u8,
    pub sectors_per_fat: u16,
    /// Total sector count used when `total_sectors_16` is zero.
    pub total_sectors_32: u32,
}

/// The highest field offset read by the decoder is 32 with a width of 4, so
/// any block of at least this many bytes decodes without truncation.
pub const MIN_DECODE_LEN: usize = 36;

/// The value of a 2-byte little-endian integer with the given bytes.
pub open spec fn le16(lo: u8, hi: u8) -> int {
    lo + 0x100 * hi
}

/// The value of a 4-byte little-endian integer with the given bytes.
pub open spec fn le32(b0: u8, b1: u8, b2: u8, b3: u8) -> int {
    b0 + 0x100 * b1 + 0x10000 * b2 + 0x1000000 * b3
}

/// The boot-sector record held by a block, field by field at the documented
/// offsets, each multi-byte field read little-endian.
pub open spec fn spec_decode(block: Seq<u8>) -> FATBootSector
    recommends
        block.len() >= MIN_DECODE_LEN,
{
    FATBootSector {
        bytes_per_sector: le16(block[11], block[12]) as u16,
        sectors_per_cluster: block[13],
        reserved_sectors: le16(block[14], block[15]) as u16,
        number_of_fats: block[16],
        root_dir_entries: le16(block[17], block[18]) as u16,
        total_sectors_16: le16(block[19], block[20]) as u16,
        media_descriptor: block[21],
        sectors_per_fat: le16(block[22], block[23]) as u16,
        total_sectors_32: le32(block[32], block[33], block[34], block[35]) as u32,
    }
}

/// Reads a 2-byte little-endian integer at offset `at` of `block`.
fn read_le16(block: &Vec<u8>, at: usize) -> (r: u16)
    requires
        at + 2 <= block.len(),
    ensures
        r == le16(block@[at as int], block@[at + 1]),
{
    (block[at] as u16) + (block[at + 1] as u16) * 0x100
}

/// Reads a 4-byte little-endian integer at offset `at` of `block`.
fn read_le32(block: &Vec<u8>, at: usize) -> (r: u32)
    requires
        at + 4 <= block.len(),
    ensures
        r == le32(block@[at as int], block@[at + 1], block@[at + 2], block@[at + 3]),
{
    (block[at] as u32) + (block[at + 1] as u32) * 0x100 + (block[at + 2] as u32) * 0x10000
        + (block[at + 3] as u32) * 0x1000000
}

/// Parses one raw block as a FAT16 boot sector.
///
/// A block of at least `MIN_DECODE_LEN` bytes always decodes, to exactly the
/// record that `spec_decode` gives; a shorter block is rejected as
/// `Truncated` and no partial record is ever returned.
pub fn decode_boot_sector(block: &Vec<u8>) -> (r: Result<FATBootSector, SDError>)
    ensures
        block@.len() >= MIN_DECODE_LEN ==> r == Ok::<FATBootSector, SDError>(
            spec_decode(block@),
        ),
        block@.len() < MIN_DECODE_LEN ==> r == Err::<FATBootSector, SDError>(SDError::Truncated),
{
    if block.len() < MIN_DECODE_LEN {
        return Err(SDError::Truncated);
    }
    Ok(
        FATBootSector {
            bytes_per_sector: read_le16(block, 11),
            sectors_per_cluster: block[13],
            reserved_sectors: read_le16(block, 14),
            number_of_fats: block[16],
            root_dir_entries: read_le16(block, 17),
            total_sectors_16: read_le16(block, 19),
            media_descriptor: block[21],
            sectors_per_fat: read_le16(block, 22),
            total_sectors_32: read_le32(block, 32),
        },
    )
}

/// The low byte of the little-endian encoding of a 16-bit value.
pub open spec fn u16_lo(x: u16) -> u8 {
    (x % 0x100) as u8
}

/// The high byte of the little-endian encoding of a 16-bit value.
pub open spec fn u16_hi(x: u16) -> u8 {
    (x / 0x100) as u8
}

/// Byte 0 (lowest) of the little-endian encoding of a 32-bit value.
pub open spec fn u32_b0(x: u32) -> u8 {
    (x % 0x100) as u8
}

/// Byte 1 of the little-endian encoding of a 32-bit value.
pub open spec fn u32_b1(x: u32) -> u8 {
    ((x / 0x100) % 0x100) as u8
}

/// Byte 2 of the little-endian encoding of a 32-bit value.
pub open spec fn u32_b2(x: u32) -> u8 {
    ((x / 0x10000) % 0x100) as u8
}

/// Byte 3 (highest) of the little-endian encoding of a 32-bit value.
pub open spec fn u32_b3(x: u32) -> u8 {
    (x / 0x1000000) as u8
}

/// Reading back the two little-endian bytes of a 16-bit value gives the
/// value itself.
pub proof fn lemma_le16_round_trip(x: u16)
    ensures
        le16(u16_lo(x), u16_hi(x)) == x,
{
    assert(x % 0x100 + 0x100 * (x / 0x100) == x) by (nonlinear_arith);
}

/// Reading back the four little-endian bytes of a 32-bit value gives the
/// value itself.
pub proof fn lemma_le32_round_trip(x: u32)
    ensures
        le32(u32_b0(x), u32_b1(x), u32_b2(x), u32_b3(x)) == x,
{
    assert(x % 0x100 + 0x100 * ((x / 0x100) % 0x100) + 0x10000 * ((x / 0x10000) % 0x100)
        + 0x1000000 * (x / 0x1000000) == x) by (nonlinear_arith);
}

/// Any block of full sector length whose bytes at offsets 11 and 12 are
/// `0x00` and `0x02` — the little-endian encoding of 512 — decodes to a boot
/// sector that reports 512 bytes per sector.
pub proof fn lemma_decode_bytes_per_sector_512(block: Seq<u8>)
    requires
        block.len() == BLOCK_SIZE,
        block[11] == 0x00u8,
        block[12] == 0x02u8,
    ensures
        spec_decode(block).bytes_per_sector == 512,
{
}

/// Round trip: a block that holds, at the documented offsets, the
/// little-endian encodings of the fields of `b` decodes back to exactly `b`.
pub proof fn lemma_decode_round_trip(block: Seq<u8>, b: FATBootSector)
    requires
        block.len() >= MIN_DECODE_LEN,
        block[11] == u16_lo(b.bytes_per_sector),
        block[12] == u16_hi(b.bytes_per_sector),
        block[13] == b.sectors_per_cluster,
        block[14] == u16_lo(b.reserved_sectors),
        block[15] == u16_hi(b.reserved_sectors),
        block[16] == b.number_of_fats,
        block[17] == u16_lo(b.root_dir_entries),
        block[18] == u16_hi(b.root_dir_entries),
        block[19] == u16_lo(b.total_sectors_16),
        block[20] == u16_hi(b.total_sectors_16),
        block[21] == b.media_descriptor,
        block[22] == u16_lo(b.sectors_per_fat),
        block[23] == u16_hi(b.sectors_per_fat),
        block[32] == u32_b0(b.total_sectors_32),
        block[33] == u32_b1(b.total_sectors_32),
        block[34] == u32_b2(b.total_sectors_32),
        block[35] == u32_b3(b.total_sectors_32),
    ensures
        spec_decode(block) == b,
{
    lemma_le16_round_trip(b.bytes_per_sector);
    lemma_le16_round_trip(b.reserved_sectors);
    lemma_le16_round_trip(b.root_dir_entries);
    lemma_le16_round_trip(b.total_sectors_16);
    lemma_le16_round_trip(b.sectors_per_fat);
    lemma_le32_round_trip(b.total_sectors_32);
}

/// The effective total sector count of a volume: the 16-bit field where it is
/// nonzero, the 32-bit field otherwise.
pub open spec fn spec_effective_total_sectors(b: FATBootSector) -> u32 {
    if b.total_sectors_16 > 0 {
        b.total_sectors_16 as u32
    } else {
        b.total_sectors_32
    }
}

/// Applies the total-sector disambiguation rule: when the 16-bit count is
/// nonzero it is the total, otherwise the 32-bit count is.
pub fn effective_total_sectors(boot: &FATBootSector) -> (r: u32)
    ensures
        r == spec_effective_total_sectors(*boot),
{
    if boot.total_sectors_16 > 0 {
        boot.total_sectors_16 as u32
    } else {
        boot.total_sectors_32
    }
}

} // verus!
