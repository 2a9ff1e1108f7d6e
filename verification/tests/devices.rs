use vmm::devices::{build_config_space, SECTOR_SIZE};

#[test]
fn config_space_holds_the_number_of_sectors() {
    assert_eq!(build_config_space(0), vec![0, 0, 0, 0, 0, 0, 0, 0]);
    assert_eq!(build_config_space(SECTOR_SIZE), vec![1, 0, 0, 0, 0, 0, 0, 0]);
    assert_eq!(build_config_space(SECTOR_SIZE * 0x0102), vec![2, 1, 0, 0, 0, 0, 0, 0]);
    assert_eq!(
        build_config_space(u64::MAX),
        vec![0xff, 0xff, 0xff, 0xff, 0xff, 0xff, 0x7f, 0]
    );
}

#[test]
fn config_space_leaves_out_what_is_beyond_the_last_whole_sector() {
    assert_eq!(build_config_space(SECTOR_SIZE * 3 + 17), vec![3, 0, 0, 0, 0, 0, 0, 0]);
    assert_eq!(build_config_space(SECTOR_SIZE - 1), vec![0, 0, 0, 0, 0, 0, 0, 0]);
    assert_eq!(
        u64::from_le_bytes([3, 0, 0, 0, 0, 0, 0, 0]) * SECTOR_SIZE,
        SECTOR_SIZE * 3
    );
}
