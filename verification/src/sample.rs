//! Unpacking of the 8-byte measurement data block into the three raw ADC
//! values. Pressure and temperature are 20-bit quantities spread over three
//! bytes each; the third byte of each is shifted right by twelve before it
//! is merged, which clears it entirely — a quirk of the packing that is
//! kept bit-exactly. Humidity is a plain 16-bit big-endian pair.

use vstd::prelude::*;

verus! {

/// One measurement cycle's raw ADC output.
pub struct RawSample {
    pub pressure_raw: u32,
    pub temperature_raw: u32,
    pub humidity_raw: u32,
}

/// A 20-bit value from its three data bytes: the first byte shifted left
/// twelve, the second shifted left four, and the third shifted right
/// twelve, which leaves no bit of it standing.
pub open spec fn spec_unpack_20(b0: u8, b1: u8, b2: u8) -> int {
    (b0 as int) * 0x1000 + (b1 as int) * 0x10 + (b2 as int) / 0x1000
}

/// A 16-bit value from its two data bytes, high byte first.
pub open spec fn spec_unpack_16(b0: u8, b1: u8) -> int {
    (b0 as int) * 0x100 + (b1 as int)
}

impl RawSample {
    /// The unpacked values fit their bit widths: at most 20 bits for
    /// pressure and temperature, 16 bits for humidity.
    pub open spec fn wf(self) -> bool {
        &&& self.pressure_raw < 0x100000
        &&& self.temperature_raw < 0x100000
        &&& self.humidity_raw < 0x10000
    }

    /// Unpack the data block read from the sensor: bytes 0..3 hold
    /// pressure, bytes 3..6 temperature, bytes 6..8 humidity.
    pub fn unpack(data: &[u8; 8]) -> (r: RawSample)
        ensures
            r.wf(),
            r.pressure_raw == spec_unpack_20(data[0], data[1], data[2]),
            r.temperature_raw == spec_unpack_20(data[3], data[4], data[5]),
            r.humidity_raw == spec_unpack_16(data[6], data[7]),
    {
        let pressure_raw: u32 = (data[0] as u32) * 0x1000 + (data[1] as u32) * 0x10
            + (data[2] as u32) / 0x1000;
        let temperature_raw: u32 = (data[3] as u32) * 0x1000 + (data[4] as u32) * 0x10
            + (data[5] as u32) / 0x1000;
        let humidity_raw: u32 = (data[6] as u32) * 0x100 + (data[7] as u32);
        RawSample { pressure_raw, temperature_raw, humidity_raw }
    }
}

} // verus!
