//! Decoder and layout calculator for FAT16 boot sectors.
//!
//! The library parses the BIOS Parameter Block found in the first sector of a
//! FAT16 volume and derives the starting sector of the three major filesystem
//! regions: the file allocation tables, the root directory and the data area.
//! Reading sectors from a device is left to the caller, who hands the raw
//! bytes in.

pub mod block;
pub mod boot;
pub mod error;
pub mod layout;

pub use block::check_read_exact;
pub use block::BLOCK_SIZE;
pub use boot::decode_boot_sector;
pub use boot::effective_total_sectors;
pub use boot::FATBootSector;
pub use error::SDError;
pub use layout::calculate_layout;
pub use layout::FATLayout;
