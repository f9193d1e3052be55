use bme280::ident::chip_info;

#[test]
fn chip_info_two_digit_id() {
    assert_eq!(chip_info(96, 0), "ChipID: 96, ChipVersion: 0");
}

#[test]
fn chip_info_extremes() {
    assert_eq!(chip_info(0, 255), "ChipID: 0, ChipVersion: 255");
    assert_eq!(chip_info(255, 0), "ChipID: 255, ChipVersion: 0");
}

#[test]
fn chip_info_digit_boundaries() {
    assert_eq!(chip_info(9, 10), "ChipID: 9, ChipVersion: 10");
    assert_eq!(chip_info(99, 100), "ChipID: 99, ChipVersion: 100");
    assert_eq!(chip_info(101, 199), "ChipID: 101, ChipVersion: 199");
}
