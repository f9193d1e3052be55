//! The chip identification line: the two identity register bytes rendered
//! as a fixed-format string, `ChipID: <id>, ChipVersion: <version>`, with
//! each byte in decimal and no leading zeros.

use vstd::prelude::*;
use vstd::string::StringExecFns;

verus! {

/// The decimal digit character for `d` in `[0, 10)`.
pub open spec fn digit_char(d: int) -> char {
    if d == 0 {
        '0'
    } else if d == 1 {
        '1'
    } else if d == 2 {
        '2'
    } else if d == 3 {
        '3'
    } else if d == 4 {
        '4'
    } else if d == 5 {
        '5'
    } else if d == 6 {
        '6'
    } else if d == 7 {
        '7'
    } else if d == 8 {
        '8'
    } else {
        '9'
    }
}

/// The decimal rendering of a byte value, one to three digits, no leading
/// zeros.
pub open spec fn spec_decimal_u8(v: int) -> Seq<char> {
    if v < 10 {
        seq![digit_char(v)]
    } else if v < 100 {
        seq![digit_char(v / 10), digit_char(v % 10)]
    } else {
        seq![digit_char(v / 100), digit_char((v / 10) % 10), digit_char(v % 10)]
    }
}

/// The label that opens the identification line.
pub open spec fn chip_id_label() -> Seq<char> {
    seq!['C', 'h', 'i', 'p', 'I', 'D', ':', ' ']
}

/// The label that separates the two values.
pub open spec fn chip_version_label() -> Seq<char> {
    seq![',', ' ', 'C', 'h', 'i', 'p', 'V', 'e', 'r', 's', 'i', 'o', 'n', ':', ' ']
}

/// The whole identification line for the two identity register bytes.
pub open spec fn spec_chip_info(id: int, version: int) -> Seq<char> {
    chip_id_label() + spec_decimal_u8(id) + chip_version_label() + spec_decimal_u8(version)
}

/// Append one decimal digit character.
fn push_digit(s: &mut String, d: u8)
    requires
        d < 10,
    ensures
        final(s)@ == old(s)@ + seq![digit_char(d as int)],
{
    if d == 0 {
        s.append("0");
        proof {
            reveal_strlit("0");
            assert(s@ =~= old(s)@ + seq![digit_char(d as int)]);
        }
    } else if d == 1 {
        s.append("1");
        proof {
            reveal_strlit("1");
            assert(s@ =~= old(s)@ + seq![digit_char(d as int)]);
        }
    } else if d == 2 {
        s.append("2");
        proof {
            reveal_strlit("2");
            assert(s@ =~= old(s)@ + seq![digit_char(d as int)]);
        }
    } else if d == 3 {
        s.append("3");
        proof {
            reveal_strlit("3");
            assert(s@ =~= old(s)@ + seq![digit_char(d as int)]);
        }
    } else if d == 4 {
        s.append("4");
        proof {
            reveal_strlit("4");
            assert(s@ =~= old(s)@ + seq![digit_char(d as int)]);
        }
    } else if d == 5 {
        s.append("5");
        proof {
            reveal_strlit("5");
            assert(s@ =~= old(s)@ + seq![digit_char(d as int)]);
        }
    } else if d == 6 {
        s.append("6");
        proof {
            reveal_strlit("6");
            assert(s@ =~= old(s)@ + seq![digit_char(d as int)]);
        }
    } else if d == 7 {
        s.append("7");
        proof {
            reveal_strlit("7");
            assert(s@ =~= old(s)@ + seq![digit_char(d as int)]);
        }
    } else if d == 8 {
        s.append("8");
        proof {
            reveal_strlit("8");
            assert(s@ =~= old(s)@ + seq![digit_char(d as int)]);
        }
    } else {
        s.append("9");
        proof {
            reveal_strlit("9");
            assert(s@ =~= old(s)@ + seq![digit_char(d as int)]);
        }
    }
}

/// Append the decimal rendering of a byte value.
fn push_decimal_u8(s: &mut String, v: u8)
    ensures
        final(s)@ == old(s)@ + spec_decimal_u8(v as int),
{
    if v >= 100 {
        push_digit(s, v / 100);
        push_digit(s, (v / 10) % 10);
        push_digit(s, v % 10);
        proof {
            assert(s@ =~= old(s)@ + spec_decimal_u8(v as int));
        }
    } else if v >= 10 {
        push_digit(s, v / 10);
        push_digit(s, v % 10);
        proof {
            assert(s@ =~= old(s)@ + spec_decimal_u8(v as int));
        }
    } else {
        push_digit(s, v);
        proof {
            assert(s@ =~= old(s)@ + spec_decimal_u8(v as int));
        }
    }
}

/// The identification line for the chip identity and version bytes, as the
/// identification reader reports it.
pub fn chip_info(id: u8, version: u8) -> (r: String)
    ensures
        r@ == spec_chip_info(id as int, version as int),
{
    let mut s = String::from_str("ChipID: ");
    proof {
        reveal_strlit("ChipID: ");
        assert(s@ =~= chip_id_label());
    }
    push_decimal_u8(&mut s, id);
    s.append(", ChipVersion: ");
    proof {
        reveal_strlit(", ChipVersion: ");
        assert(s@ =~= chip_id_label() + spec_decimal_u8(id as int) + chip_version_label());
    }
    push_decimal_u8(&mut s, version);
    proof {
        assert(s@ =~= spec_chip_info(id as int, version as int));
    }
    s
}

} // verus!
