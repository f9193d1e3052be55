use bme280::calibration::CalibrationCoefficients;
use bme280::engine::{compensate_temperature, refine_temperature, temperature_fine};
use bme280::sample::RawSample;

#[test]
fn fine_temperature_known_values() {
    assert_eq!(temperature_fine(27504, 26435, -1000, 519888), 390566);
    assert_eq!(temperature_fine(28000, 26000, 2500, 524288), 121908);
}

#[test]
fn refine_temperature_known_values() {
    assert_eq!(refine_temperature(390566), 7628);
    assert_eq!(refine_temperature(121908), 2381);
    assert_eq!(refine_temperature(0), 0);
}

#[test]
fn compensate_temperature_composes() {
    let calib = CalibrationCoefficients {
        dig_t1: 27504,
        dig_t2: 26435,
        dig_t3: -1000,
        dig_p1: 36477,
        dig_p2: -10685,
        dig_p3: 3024,
        dig_p4: 2855,
        dig_p5: 140,
        dig_p6: -7,
        dig_p7: 15500,
        dig_p8: -14600,
        dig_p9: 6000,
        dig_h1: 75,
        dig_h2: 363,
        dig_h3: 0,
        dig_h4: 329,
        dig_h5: 0,
        dig_h6: 30,
    };
    let sample = RawSample {
        pressure_raw: 415136,
        temperature_raw: 519888,
        humidity_raw: 31250,
    };
    let (t_fine, temperature) = compensate_temperature(&calib, &sample);
    assert_eq!(t_fine, 390566);
    assert_eq!(temperature, 7628);
}
