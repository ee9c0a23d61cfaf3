use fat16::calculate_layout;
use fat16::check_read_exact;
use fat16::effective_total_sectors;
use fat16::FATBootSector;
use fat16::SDError;
use fat16::BLOCK_SIZE;

fn boot(
    bytes_per_sector: u16,
    reserved_sectors: u16,
    number_of_fats: u8,
    sectors_per_fat: u16,
    root_dir_entries: u16,
) -> FATBootSector {
    FATBootSector {
        bytes_per_sector,
        sectors_per_cluster: 4,
        reserved_sectors,
        number_of_fats,
        root_dir_entries,
        total_sectors_16: 20480,
        media_descriptor: 0xF8,
        sectors_per_fat,
        total_sectors_32: 0,
    }
}

#[test]
fn known_layout() {
    let b = boot(512, 1, 2, 32, 512);
    let layout = calculate_layout(&b).unwrap();
    assert_eq!(layout.fat_start, 1);
    assert_eq!(layout.root_dir_start, 65);
    assert_eq!(layout.data_start, 97);
}

#[test]
fn layout_strictly_increasing() {
    let b = boot(512, 1, 2, 32, 512);
    let layout = calculate_layout(&b).unwrap();
    assert!(layout.fat_start < layout.root_dir_start);
    assert!(layout.root_dir_start < layout.data_start);
}

#[test]
fn layout_deterministic() {
    let b = boot(512, 4, 2, 64, 224);
    let first = calculate_layout(&b).unwrap();
    let second = calculate_layout(&b).unwrap();
    assert_eq!(first, second);
}

#[test]
fn layout_rounds_partial_sector_up() {
    // 224 entries of 32 bytes are 7168 bytes: 14 full sectors of 512.
    let b = boot(512, 1, 2, 9, 224);
    let layout = calculate_layout(&b).unwrap();
    assert_eq!(layout.data_start - layout.root_dir_start, 14);
    // One extra entry forces a 15th, partly used, sector.
    let b = boot(512, 1, 2, 9, 225);
    let layout = calculate_layout(&b).unwrap();
    assert_eq!(layout.data_start - layout.root_dir_start, 15);
}

#[test]
fn empty_root_dir_collapses_region() {
    let b = boot(512, 1, 2, 32, 0);
    let layout = calculate_layout(&b).unwrap();
    assert_eq!(layout.root_dir_start, layout.data_start);
}

#[test]
fn zero_bytes_per_sector_is_invalid_geometry() {
    let b = boot(0, 1, 2, 32, 512);
    assert_eq!(calculate_layout(&b), Err(SDError::InvalidGeometry));
}

#[test]
fn effective_total_sectors_prefers_16_bit_field() {
    let mut b = boot(512, 1, 2, 32, 512);
    b.total_sectors_16 = 100;
    b.total_sectors_32 = 0;
    assert_eq!(effective_total_sectors(&b), 100);
    b.total_sectors_16 = 0;
    b.total_sectors_32 = 500000;
    assert_eq!(effective_total_sectors(&b), 500000);
}

#[test]
fn short_read_is_distinguishable() {
    assert_eq!(
        check_read_exact(BLOCK_SIZE, 400),
        Err(SDError::ShortRead { expected: 512, actual: 400 })
    );
    assert_eq!(check_read_exact(BLOCK_SIZE, 512), Ok(()));
}
