//! The ASCII categories, as sets of byte values.
use vstd::prelude::*;

verus! {

/// `a`..=`z` or `A`..=`Z`.
pub open spec fn letter_byte(v: u8) -> bool {
    lower_byte(v) || upper_byte(v)
}

/// `a`..=`z`.
pub open spec fn lower_byte(v: u8) -> bool {
    0x61 <= v <= 0x7A
}

/// `A`..=`Z`.
pub open spec fn upper_byte(v: u8) -> bool {
    0x41 <= v <= 0x5A
}

/// `0`..=`9`.
pub open spec fn digit_byte(v: u8) -> bool {
    0x30 <= v <= 0x39
}

/// Space, horizontal tab, line feed, vertical tab, form feed, carriage return.
pub open spec fn space_byte(v: u8) -> bool {
    v == 0x20 || 0x09 <= v <= 0x0D
}

/// The C0 control codes and DELETE.
pub open spec fn control_byte(v: u8) -> bool {
    v <= 0x1F || v == 0x7F
}

/// The graphic characters and space.
pub open spec fn printable_byte(v: u8) -> bool {
    0x20 <= v <= 0x7E
}

/// The seven-bit range.
pub open spec fn us_ascii_byte(v: u8) -> bool {
    v <= 0x7F
}

/// The upper half of the byte range.
pub open spec fn extended_byte(v: u8) -> bool {
    0x80 <= v
}

} // verus!
