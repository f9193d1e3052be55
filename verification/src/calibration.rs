//! Decoding of the manufacturer calibration coefficients from the register
//! words and bytes they are stored in. The pressure and temperature
//! coefficients are plain 16-bit words, some reinterpreted as signed; the
//! fourth and fifth humidity coefficients are 12-bit signed values packed
//! across three consecutive bytes, recovered with sign-preserving
//! (arithmetic) shift semantics.

use vstd::prelude::*;

verus! {

/// The raw register contents the calibration data is read from: the
/// temperature and pressure words, the humidity bytes and word, and the
/// three bytes `e4`, `e5`, `e6` that pack the fourth and fifth humidity
/// coefficients.
pub struct CalibrationWords {
    pub t1: u16,
    pub t2: u16,
    pub t3: u16,
    pub p1: u16,
    pub p2: u16,
    pub p3: u16,
    pub p4: u16,
    pub p5: u16,
    pub p6: u16,
    pub p7: u16,
    pub p8: u16,
    pub p9: u16,
    pub h1: u8,
    pub h2: u16,
    pub h3: u8,
    pub e4: u8,
    pub e5: u8,
    pub e6: u8,
    pub h6: u8,
}

/// The decoded compensation coefficients, immutable for the session.
pub struct CalibrationCoefficients {
    pub dig_t1: u16,
    pub dig_t2: i16,
    pub dig_t3: i16,
    pub dig_p1: u16,
    pub dig_p2: i16,
    pub dig_p3: i16,
    pub dig_p4: i16,
    pub dig_p5: i16,
    pub dig_p6: i16,
    pub dig_p7: i16,
    pub dig_p8: i16,
    pub dig_p9: i16,
    pub dig_h1: u8,
    pub dig_h2: i16,
    pub dig_h3: u8,
    pub dig_h4: i16,
    pub dig_h5: i16,
    pub dig_h6: u8,
}

/// Two's-complement value of a 16-bit word (`w` in `[0, 0x10000)`).
pub open spec fn as_signed_16(w: int) -> int {
    if w < 0x8000 {
        w
    } else {
        w - 0x10000
    }
}

/// Two's-complement value of a byte (`b` in `[0, 0x100)`).
pub open spec fn as_signed_8(b: int) -> int {
    if b < 0x80 {
        b
    } else {
        b - 0x100
    }
}

/// Two's-complement value of a 12-bit field (`v` in `[0, 0x1000)`).
pub open spec fn sign_extend_12(v: int) -> int {
    if v < 0x800 {
        v
    } else {
        v - 0x1000
    }
}

/// The fourth humidity coefficient as the packing defines it: byte `e4`
/// shifted to the top of a 32-bit word and arithmetically shifted back down
/// four bits short (so its sign is preserved and it gains a factor of 16),
/// combined with the low nibble of `e5`.
pub open spec fn spec_dig_h4(e4: u8, e5: u8) -> int {
    as_signed_8(e4 as int) * 16 + (e5 as int) % 16
}

/// The fifth humidity coefficient: byte `e6` with the same sign-preserving
/// shift treatment, combined with the high nibble of `e5`.
pub open spec fn spec_dig_h5(e5: u8, e6: u8) -> int {
    as_signed_8(e6 as int) * 16 + (e5 as int) / 16
}

/// The packed 12-bit field that `dig_h4` occupies: all of `e4` above the
/// low nibble of `e5`.
pub open spec fn packed_h4_field(e4: u8, e5: u8) -> int {
    (e4 as int) * 16 + (e5 as int) % 16
}

/// The packed 12-bit field that `dig_h5` occupies: all of `e6` above the
/// high nibble of `e5`.
pub open spec fn packed_h5_field(e5: u8, e6: u8) -> int {
    (e6 as int) * 16 + (e5 as int) / 16
}

/// The shift-based decoding of the two packed humidity coefficients
/// recovers, for every byte triplet, exactly the two's-complement value of
/// the corresponding 12-bit field: sign extension, not zero extension.
pub proof fn lemma_h4_h5_sign_extension(e4: u8, e5: u8, e6: u8)
    ensures
        spec_dig_h4(e4, e5) == sign_extend_12(packed_h4_field(e4, e5)),
        spec_dig_h5(e5, e6) == sign_extend_12(packed_h5_field(e5, e6)),
{
}

/// Reinterpret a register word as a signed coefficient.
pub fn word_to_i16(w: u16) -> (r: i16)
    ensures
        r as int == as_signed_16(w as int),
{
    if w < 0x8000 {
        w as i16
    } else {
        (w as i32 - 0x10000) as i16
    }
}

/// Decode `dig_h4` from its two packing bytes.
pub fn decode_h4(e4: u8, e5: u8) -> (r: i16)
    ensures
        r as int == spec_dig_h4(e4, e5),
{
    let hi: i32 = if e4 >= 0x80 {
        e4 as i32 - 0x100
    } else {
        e4 as i32
    };
    (hi * 16 + (e5 % 16) as i32) as i16
}

/// Decode `dig_h5` from its two packing bytes.
pub fn decode_h5(e5: u8, e6: u8) -> (r: i16)
    ensures
        r as int == spec_dig_h5(e5, e6),
{
    let hi: i32 = if e6 >= 0x80 {
        e6 as i32 - 0x100
    } else {
        e6 as i32
    };
    (hi * 16 + (e5 / 16) as i32) as i16
}

impl CalibrationCoefficients {
    /// The two packed humidity coefficients are 12-bit signed values.
    pub open spec fn wf(self) -> bool {
        &&& -0x800 <= self.dig_h4 < 0x800
        &&& -0x800 <= self.dig_h5 < 0x800
    }

    /// Decode every coefficient from the register words: `t1`, `p1` and the
    /// single-byte humidity coefficients are taken unsigned, the remaining
    /// words are reinterpreted in two's complement, and `h4`/`h5` are
    /// unpacked from their shared byte triplet with sign extension.
    pub fn decode(w: &CalibrationWords) -> (r: CalibrationCoefficients)
        ensures
            r.wf(),
            r.dig_t1 == w.t1,
            r.dig_t2 as int == as_signed_16(w.t2 as int),
            r.dig_t3 as int == as_signed_16(w.t3 as int),
            r.dig_p1 == w.p1,
            r.dig_p2 as int == as_signed_16(w.p2 as int),
            r.dig_p3 as int == as_signed_16(w.p3 as int),
            r.dig_p4 as int == as_signed_16(w.p4 as int),
            r.dig_p5 as int == as_signed_16(w.p5 as int),
            r.dig_p6 as int == as_signed_16(w.p6 as int),
            r.dig_p7 as int == as_signed_16(w.p7 as int),
            r.dig_p8 as int == as_signed_16(w.p8 as int),
            r.dig_p9 as int == as_signed_16(w.p9 as int),
            r.dig_h1 == w.h1,
            r.dig_h2 as int == as_signed_16(w.h2 as int),
            r.dig_h3 == w.h3,
            r.dig_h4 as int == spec_dig_h4(w.e4, w.e5),
            r.dig_h5 as int == spec_dig_h5(w.e5, w.e6),
            r.dig_h6 == w.h6,
    {
        CalibrationCoefficients {
            dig_t1: w.t1,
            dig_t2: word_to_i16(w.t2),
            dig_t3: word_to_i16(w.t3),
            dig_p1: w.p1,
            dig_p2: word_to_i16(w.p2),
            dig_p3: word_to_i16(w.p3),
            dig_p4: word_to_i16(w.p4),
            dig_p5: word_to_i16(w.p5),
            dig_p6: word_to_i16(w.p6),
            dig_p7: word_to_i16(w.p7),
            dig_p8: word_to_i16(w.p8),
            dig_p9: word_to_i16(w.p9),
            dig_h1: w.h1,
            dig_h2: word_to_i16(w.h2),
            dig_h3: w.h3,
            dig_h4: decode_h4(w.e4, w.e5),
            dig_h5: decode_h5(w.e5, w.e6),
            dig_h6: w.h6,
        }
    }
}

} // verus!
