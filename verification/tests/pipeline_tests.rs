use bme280::calibration::{CalibrationCoefficients, CalibrationWords};
use bme280::device;
use bme280::device::DeviceProfile;
use bme280::engine::compensate_temperature;
use bme280::ident::chip_info;
use bme280::sample::RawSample;

/// A fake bus: every register read answers with fixed fixture bytes.
struct FakeBus;

impl FakeBus {
    fn read_word(&self, register: u8) -> u16 {
        match register {
            device::REGISTER_DIG_T1 => 27504,
            device::REGISTER_DIG_T2 => 26435,
            device::REGISTER_DIG_T3 => 0xFC18,
            device::REGISTER_DIG_P1 => 36477,
            device::REGISTER_DIG_P2 => 0xD643,
            device::REGISTER_DIG_P3 => 3024,
            device::REGISTER_DIG_P4 => 2855,
            device::REGISTER_DIG_P5 => 140,
            device::REGISTER_DIG_P6 => 0xFFF9,
            device::REGISTER_DIG_P7 => 15500,
            device::REGISTER_DIG_P8 => 0xC6F8,
            device::REGISTER_DIG_P9 => 6000,
            device::REGISTER_DIG_H2 => 363,
            _ => panic!("unexpected word read"),
        }
    }

    fn read_byte(&self, register: u8) -> u8 {
        match register {
            device::REGISTER_DIG_H1 => 75,
            device::REGISTER_DIG_H3 => 0,
            device::REGISTER_DIG_H6 => 30,
            _ => panic!("unexpected byte read"),
        }
    }

    fn block_read(&self, register: u8, buffer: &mut [u8]) {
        match register {
            device::REGISTER_CHIP_ID => buffer.copy_from_slice(&[0x60, 0x00]),
            device::REGISTER_DIG_H4_H5 => buffer.copy_from_slice(&[0x14, 0x09, 0x00]),
            device::REGISTER_DATA => {
                buffer.copy_from_slice(&[0x65, 0x5A, 0xC0, 0x7E, 0xED, 0x00, 0x7A, 0x12])
            }
            _ => panic!("unexpected block read"),
        }
    }
}

#[test]
fn end_to_end_fixture_readings() {
    let bus = FakeBus;
    let profile = DeviceProfile::standard();

    let mut id = [0u8; 2];
    bus.block_read(device::REGISTER_CHIP_ID, &mut id);
    assert_eq!(chip_info(id[0], id[1]), "ChipID: 96, ChipVersion: 0");

    let mut h45 = [0u8; 3];
    bus.block_read(device::REGISTER_DIG_H4_H5, &mut h45);
    let words = CalibrationWords {
        t1: bus.read_word(device::REGISTER_DIG_T1),
        t2: bus.read_word(device::REGISTER_DIG_T2),
        t3: bus.read_word(device::REGISTER_DIG_T3),
        p1: bus.read_word(device::REGISTER_DIG_P1),
        p2: bus.read_word(device::REGISTER_DIG_P2),
        p3: bus.read_word(device::REGISTER_DIG_P3),
        p4: bus.read_word(device::REGISTER_DIG_P4),
        p5: bus.read_word(device::REGISTER_DIG_P5),
        p6: bus.read_word(device::REGISTER_DIG_P6),
        p7: bus.read_word(device::REGISTER_DIG_P7),
        p8: bus.read_word(device::REGISTER_DIG_P8),
        p9: bus.read_word(device::REGISTER_DIG_P9),
        h1: bus.read_byte(device::REGISTER_DIG_H1),
        h2: bus.read_word(device::REGISTER_DIG_H2),
        h3: bus.read_byte(device::REGISTER_DIG_H3),
        e4: h45[0],
        e5: h45[1],
        e6: h45[2],
        h6: bus.read_byte(device::REGISTER_DIG_H6),
    };
    let calib = CalibrationCoefficients::decode(&words);
    assert_eq!(calib.dig_t1, 27504);
    assert_eq!(calib.dig_h4, 329);
    assert_eq!(calib.dig_h5, 0);

    assert_eq!(profile.wait_time_ms(), 17);

    let mut data = [0u8; 8];
    bus.block_read(device::REGISTER_DATA, &mut data);
    let sample = RawSample::unpack(&data);
    assert_eq!(sample.pressure_raw, 415136);
    assert_eq!(sample.temperature_raw, 519888);
    assert_eq!(sample.humidity_raw, 31250);

    let (t_fine, temperature) = compensate_temperature(&calib, &sample);
    assert_eq!(t_fine, 390566);
    assert_eq!(temperature, 7628);
}
