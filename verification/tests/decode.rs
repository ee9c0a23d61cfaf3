use fat16::decode_boot_sector;
use fat16::SDError;
use fat16::BLOCK_SIZE;

fn sector_with(fields: &[(usize, u8)]) -> Vec<u8> {
    let mut block = vec![0u8; BLOCK_SIZE];
    for &(offset, value) in fields {
        block[offset] = value;
    }
    block
}

#[test]
fn decode_reports_512_bytes_per_sector() {
    let block = sector_with(&[(11, 0x00), (12, 0x02)]);
    let boot = decode_boot_sector(&block).unwrap();
    assert_eq!(boot.bytes_per_sector, 512);
}

#[test]
fn decode_round_trip() {
    let block = sector_with(&[
        (11, 0x00),
        (12, 0x02), // bytes_per_sector = 512
        (13, 4),    // sectors_per_cluster
        (14, 0x01),
        (15, 0x00), // reserved_sectors = 1
        (16, 2),    // number_of_fats
        (17, 0x00),
        (18, 0x02), // root_dir_entries = 512
        (19, 0x00),
        (20, 0x50), // total_sectors_16 = 20480
        (21, 0xF8), // media_descriptor
        (22, 0x20),
        (23, 0x00), // sectors_per_fat = 32
        (32, 0x78),
        (33, 0x56),
        (34, 0x34),
        (35, 0x12), // total_sectors_32 = 0x12345678
    ]);
    let boot = decode_boot_sector(&block).unwrap();
    assert_eq!(boot.bytes_per_sector, 512);
    assert_eq!(boot.sectors_per_cluster, 4);
    assert_eq!(boot.reserved_sectors, 1);
    assert_eq!(boot.number_of_fats, 2);
    assert_eq!(boot.root_dir_entries, 512);
    assert_eq!(boot.total_sectors_16, 20480);
    assert_eq!(boot.media_descriptor, 0xF8);
    assert_eq!(boot.sectors_per_fat, 32);
    assert_eq!(boot.total_sectors_32, 0x12345678);
}

#[test]
fn decode_rejects_truncated_block() {
    let block = vec![0u8; 35];
    assert_eq!(decode_boot_sector(&block), Err(SDError::Truncated));
    let empty: Vec<u8> = Vec::new();
    assert_eq!(decode_boot_sector(&empty), Err(SDError::Truncated));
}

#[test]
fn decode_accepts_shortest_complete_block() {
    let block = vec![0u8; 36];
    let boot = decode_boot_sector(&block).unwrap();
    assert_eq!(boot.bytes_per_sector, 0);
    assert_eq!(boot.total_sectors_32, 0);
}
