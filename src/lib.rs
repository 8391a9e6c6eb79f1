//! Classification of ASCII characters, and a check that a string holds only
//! printable US-ASCII.
use vstd::prelude::*;

pub mod classes;
pub mod errors;
pub mod table;
pub mod validate;

pub use errors::AsciiError;
pub use validate::check_ascii_printable;

use classes::{
    control_byte, digit_byte, extended_byte, letter_byte, lower_byte, printable_byte, space_byte,
    upper_byte, us_ascii_byte,
};

verus! {

/// ASCII classification of a single code unit.
///
/// Each predicate looks at the code unit's low eight bits only, so a `u8`
/// and a `char` with the same low byte fall in the same categories.
pub trait Check: Sized {
    /// The byte that the predicates classify.
    spec fn code_unit(self) -> u8;

    /// Whether it is an ASCII letter (a-z / A-Z).
    fn is_letter(self) -> (r: bool)
        ensures
            r == letter_byte(self.code_unit()),
    ;

    /// Whether it is an ASCII lower case letter (a-z).
    fn is_lower(self) -> (r: bool)
        ensures
            r == lower_byte(self.code_unit()),
    ;

    /// Whether it is an ASCII upper case letter (A-Z).
    fn is_upper(self) -> (r: bool)
        ensures
            r == upper_byte(self.code_unit()),
    ;

    /// Whether it is an ASCII digit (0-9).
    fn is_digit(self) -> (r: bool)
        ensures
            r == digit_byte(self.code_unit()),
    ;

    /// Whether it is an ASCII space character (space, horizontal tab, line
    /// feed, vertical tab, form feed, carriage return).
    fn is_space(self) -> (r: bool)
        ensures
            r == space_byte(self.code_unit()),
    ;

    /// Whether it is an ASCII control character: an unprintable code once
    /// used to drive peripherals such as printers.
    fn is_control(self) -> (r: bool)
        ensures
            r == control_byte(self.code_unit()),
    ;

    /// Whether it is an ASCII printable character: a letter, digit,
    /// punctuation mark, symbol or space.
    fn is_printable(self) -> (r: bool)
        ensures
            r == printable_byte(self.code_unit()),
    ;

    /// Whether it is a US-ASCII (seven-bit) character.
    fn is_us_ascii(self) -> (r: bool)
        ensures
            r == us_ascii_byte(self.code_unit()),
    ;

    /// Whether it is an extended ASCII character (eighth bit set).
    fn is_extended(self) -> (r: bool)
        ensures
            r == extended_byte(self.code_unit()),
    ;
}

/// Classification depends on the code unit alone: two values with the same
/// low byte, be each a `u8` or a `char`, and so the same value asked twice,
/// fall in exactly the same categories.
pub proof fn lemma_same_code_unit_same_class<T: Check, U: Check>(x: T, y: U)
    requires
        x.code_unit() == y.code_unit(),
    ensures
        letter_byte(x.code_unit()) == letter_byte(y.code_unit()),
        lower_byte(x.code_unit()) == lower_byte(y.code_unit()),
        upper_byte(x.code_unit()) == upper_byte(y.code_unit()),
        digit_byte(x.code_unit()) == digit_byte(y.code_unit()),
        space_byte(x.code_unit()) == space_byte(y.code_unit()),
        control_byte(x.code_unit()) == control_byte(y.code_unit()),
        printable_byte(x.code_unit()) == printable_byte(y.code_unit()),
        us_ascii_byte(x.code_unit()) == us_ascii_byte(y.code_unit()),
        extended_byte(x.code_unit()) == extended_byte(y.code_unit()),
{
}

impl Check for u8 {
    open spec fn code_unit(self) -> u8 {
        self
    }

    fn is_letter(self) -> (r: bool) {
        self.is_lower() || self.is_upper()
    }

    fn is_lower(self) -> (r: bool) {
        0x61 <= self && self <= 0x7A
    }

    fn is_upper(self) -> (r: bool) {
        0x41 <= self && self <= 0x5A
    }

    fn is_digit(self) -> (r: bool) {
        0x30 <= self && self <= 0x39
    }

    fn is_space(self) -> (r: bool) {
        self == table::SPACE || (table::HT <= self && self <= table::CR)
    }

    fn is_control(self) -> (r: bool) {
        self <= table::US || self == table::DELETE
    }

    fn is_printable(self) -> (r: bool) {
        table::SPACE <= self && self <= 0x7E
    }

    fn is_us_ascii(self) -> (r: bool) {
        self <= 0x7F
    }

    fn is_extended(self) -> (r: bool) {
        0x80 <= self
    }
}

/// A `char` is classified by its low byte: a wider character is truncated
/// to its last eight bits before the comparison.
impl Check for char {
    open spec fn code_unit(self) -> u8 {
        self as u8
    }

    fn is_letter(self) -> (r: bool) {
        (self as u8).is_letter()
    }

    fn is_lower(self) -> (r: bool) {
        (self as u8).is_lower()
    }

    fn is_upper(self) -> (r: bool) {
        (self as u8).is_upper()
    }

    fn is_digit(self) -> (r: bool) {
        (self as u8).is_digit()
    }

    fn is_space(self) -> (r: bool) {
        (self as u8).is_space()
    }

    fn is_control(self) -> (r: bool) {
        (self as u8).is_control()
    }

    fn is_printable(self) -> (r: bool) {
        (self as u8).is_printable()
    }

    fn is_us_ascii(self) -> (r: bool) {
        (self as u8).is_us_ascii()
    }

    fn is_extended(self) -> (r: bool) {
        (self as u8).is_extended()
    }
}

} // verus!
