//! The fixed device profile: bus index, target address, oversampling policy
//! and power mode, with the control-byte encodings and the conversion wait
//! time derived from it.

use vstd::prelude::*;

verus! {

/// Register that holds the chip identity and version bytes.
pub const REGISTER_CHIP_ID: u8 = 0xD0;

/// Register of the 8-byte packed measurement data block.
pub const REGISTER_DATA: u8 = 0xF7;

/// Measurement control register (temperature/pressure oversampling, mode).
pub const REGISTER_CONTROL: u8 = 0xF4;

/// Humidity oversampling control register.
pub const REGISTER_CONTROL_HUMIDITY: u8 = 0xF2;

/// First temperature calibration word (t1); t2 and t3 follow word-wise.
pub const REGISTER_DIG_T1: u8 = 0x88;
pub const REGISTER_DIG_T2: u8 = 0x8A;
pub const REGISTER_DIG_T3: u8 = 0x8C;

/// First pressure calibration word (p1); p2 through p9 follow word-wise.
pub const REGISTER_DIG_P1: u8 = 0x8E;
pub const REGISTER_DIG_P2: u8 = 0x90;
pub const REGISTER_DIG_P3: u8 = 0x92;
pub const REGISTER_DIG_P4: u8 = 0x94;
pub const REGISTER_DIG_P5: u8 = 0x96;
pub const REGISTER_DIG_P6: u8 = 0x98;
pub const REGISTER_DIG_P7: u8 = 0x9A;
pub const REGISTER_DIG_P8: u8 = 0x9C;
pub const REGISTER_DIG_P9: u8 = 0x9E;

/// Humidity calibration registers; h4 and h5 are packed into the three
/// bytes starting at `REGISTER_DIG_H4_H5`.
pub const REGISTER_DIG_H1: u8 = 0xA1;
pub const REGISTER_DIG_H2: u8 = 0xE1;
pub const REGISTER_DIG_H3: u8 = 0xE3;
pub const REGISTER_DIG_H4_H5: u8 = 0xE4;
pub const REGISTER_DIG_H6: u8 = 0xE7;

/// The device profile: which bus and address the sensor answers on, the
/// oversampling setting of each measurement channel, and the power mode.
pub struct DeviceProfile {
    pub bus: u8,
    pub address: u16,
    pub oversample_temperature: u8,
    pub oversample_pressure: u8,
    pub oversample_humidity: u8,
    pub mode: u8,
}

impl DeviceProfile {
    /// Each oversampling value fits its three-bit control field and the
    /// mode fits its two-bit field.
    pub open spec fn wf(self) -> bool {
        &&& self.oversample_temperature < 8
        &&& self.oversample_pressure < 8
        &&& self.oversample_humidity < 8
        &&& self.mode < 4
    }

    /// The parameters the sensor is always driven with: bus 1, device
    /// address 0x76, oversampling 2 on every channel, normal power mode.
    pub fn standard() -> (r: DeviceProfile)
        ensures
            r.wf(),
            r.bus == 1,
            r.address == 0x76,
            r.oversample_temperature == 2,
            r.oversample_pressure == 2,
            r.oversample_humidity == 2,
            r.mode == 2,
    {
        DeviceProfile {
            bus: 1,
            address: 0x76,
            oversample_temperature: 2,
            oversample_pressure: 2,
            oversample_humidity: 2,
            mode: 2,
        }
    }

    /// Measurement control byte: temperature oversampling in bits 5..=7,
    /// pressure oversampling in bits 2..=4, power mode in bits 0..=1.
    pub fn control_byte(&self) -> (r: u8)
        requires
            self.wf(),
        ensures
            r == self.oversample_temperature * 32 + self.oversample_pressure * 4 + self.mode,
    {
        self.oversample_temperature * 32 + self.oversample_pressure * 4 + self.mode
    }

    /// Humidity control byte: the humidity oversampling value in bits 0..=2.
    pub fn humidity_control_byte(&self) -> (r: u8)
        requires
            self.wf(),
        ensures
            r == self.oversample_humidity,
    {
        self.oversample_humidity
    }

    /// Conversion wait in whole milliseconds: the ceiling of
    /// `1.25 + 2.3*T + (2.3*P + 0.575) + (2.3*H + 0.575)`, computed here
    /// exactly in thousandths of a millisecond and rounded up, so that the
    /// wait always exceeds the worst-case conversion time.
    pub fn wait_time_ms(&self) -> (r: u64)
        ensures
            r == (2400 + 2300 * (self.oversample_temperature + self.oversample_pressure
                + self.oversample_humidity) + 999) / 1000,
    {
        let sum: u64 = self.oversample_temperature as u64 + self.oversample_pressure as u64
            + self.oversample_humidity as u64;
        (2400 + 2300 * sum + 999) / 1000
    }
}

} // verus!
