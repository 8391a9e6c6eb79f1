//! The check that a string holds only printable US-ASCII.
use vstd::prelude::*;
use vstd::string::*;
use vstd::utf8::*;

use crate::classes::{control_byte, printable_byte};
use crate::errors::AsciiError;
use crate::Check;

verus! {

/// A character in the printable ASCII range (0x20..=0x7E).
pub open spec fn printable_char(c: char) -> bool {
    0x20 <= c as u32 <= 0x7E
}

/// A character in the ASCII control range (0x00..=0x1F, or 0x7F).
pub open spec fn control_char(c: char) -> bool {
    c as u32 <= 0x1F || c as u32 == 0x7F
}

/// The first `n` characters of `s` are printable ASCII.
pub open spec fn printable_prefix(s: Seq<char>, n: int) -> bool {
    forall|j: int| 0 <= j < n ==> printable_char(#[trigger] s[j])
}

/// `i` is the position of the first character of `s` that is not printable ASCII.
pub open spec fn first_unprintable(s: Seq<char>, i: int) -> bool {
    0 <= i < s.len() && printable_prefix(s, i) && !printable_char(s[i])
}

/// The first byte of a character's UTF-8 encoding is the character itself
/// when it is seven-bit, and has its eighth bit set otherwise.
proof fn lemma_leading_byte(c: char)
    ensures
        encode_scalar(c as u32).len() >= 1,
        (c as u32) < 0x80 ==> encode_scalar(c as u32)[0] as u32 == c as u32,
        (c as u32) >= 0x80 ==> encode_scalar(c as u32)[0] >= 0x80,
{
    let v = c as u32;
    char_is_scalar(c);
    if has_width_1_encoding(v) {
        assert(((v & 0x7F) as u8) as u32 == v) by (bit_vector)
            requires
                v <= 0x7F,
        ;
    } else if has_width_2_encoding(v) {
        assert(0xC0u8 | (((v >> 6) & 0x1F) as u8) >= 0x80) by (bit_vector);
    } else if has_width_3_encoding(v) {
        assert(0xE0u8 | (((v >> 12) & 0x0F) as u8) >= 0x80) by (bit_vector);
    } else {
        assert(0xF0u8 | (((v >> 18) & 0x7) as u8) >= 0x80) by (bit_vector);
    }
}

/// Over a seven-bit prefix of `k` characters, the UTF-8 encoding of `s` is
/// those characters byte for byte, followed by the encoding of the rest.
proof fn lemma_seven_bit_prefix(s: Seq<char>, k: int)
    requires
        0 <= k <= s.len(),
        forall|j: int| 0 <= j < k ==> (#[trigger] s[j] as u32) < 0x80,
    ensures
        encode_utf8(s).len() >= k,
        forall|j: int| 0 <= j < k ==> #[trigger] encode_utf8(s)[j] as u32 == s[j] as u32,
        encode_utf8(s).subrange(k, encode_utf8(s).len() as int) == encode_utf8(
            s.subrange(k, s.len() as int),
        ),
    decreases k,
{
    if k == 0 {
        assert(s.subrange(0, s.len() as int) =~= s);
        assert(encode_utf8(s).subrange(0, encode_utf8(s).len() as int) =~= encode_utf8(s));
    } else {
        let t = s.drop_first();
        assert forall|j: int| 0 <= j < k - 1 implies (#[trigger] t[j] as u32) < 0x80 by {
            assert(t[j] == s[j + 1]);
        }
        lemma_seven_bit_prefix(t, k - 1);
        lemma_leading_byte(s[0]);
        let head = encode_scalar(s[0] as u32);
        assert(head.len() == 1);
        assert(encode_utf8(s) == head + encode_utf8(t));
        assert(t.subrange(k - 1, t.len() as int) =~= s.subrange(k, s.len() as int));
        assert forall|j: int| 0 <= j < k implies #[trigger] encode_utf8(s)[j] as u32
            == s[j] as u32 by {
            if j > 0 {
                assert(encode_utf8(s)[j] == encode_utf8(t)[j - 1]);
                assert(t[j - 1] == s[j]);
            }
        }
        assert(encode_utf8(s).subrange(k, encode_utf8(s).len() as int) =~= encode_utf8(t).subrange(
            k - 1,
            encode_utf8(t).len() as int,
        ));
    }
}

/// Reports whether `name` holds a character outside US-ASCII or an ASCII
/// control character, whichever comes first.
///
/// The bytes are scanned from the start. At the first byte that is not
/// printable ASCII the scan stops: a control byte gives its position,
/// counted from 1; a byte with the eighth bit set gives the character
/// that it begins.
pub fn check_ascii_printable(name: &str) -> (r: Result<(), AsciiError>)
    ensures
        (match r {
            Ok(()) => printable_prefix(name@, name@.len() as int),
            Err(AsciiError::ControlChar(p)) => {
                &&& 1 <= p
                &&& first_unprintable(name@, p - 1)
                &&& control_char(name@[p - 1])
            },
            Err(AsciiError::NonAscii(c)) => exists|i: int|
                #![trigger name@[i]]
                first_unprintable(name@, i) && name@[i] == c && 0x80 <= c as u32,
        }),
        r matches Err(AsciiError::ControlChar(p)) ==> {
            &&& p <= name.spec_bytes().len()
            &&& control_byte(name.spec_bytes()[p - 1])
            &&& forall|j: int| 0 <= j < p - 1 ==> printable_byte(#[trigger] name.spec_bytes()[j])
        },
{
    let bytes = name.as_bytes();
    let ghost s = name@;
    let mut i: usize = 0;
    while i < bytes.len()
        invariant
            bytes@ == encode_utf8(s),
            s == name@,
            bytes@ == name.spec_bytes(),
            i <= s.len(),
            printable_prefix(s, i as int),
            forall|j: int| 0 <= j < i ==> printable_byte(#[trigger] bytes@[j]),
        decreases bytes.len() - i,
    {
        let b = bytes[i];
        proof {
            lemma_seven_bit_prefix(s, i as int);
            let rest = s.subrange(i as int, s.len() as int);
            if i == s.len() {
                assert(rest.len() == 0);
            }
            assert(rest.len() > 0);
            lemma_leading_byte(s[i as int]);
            assert(encode_utf8(rest) == encode_scalar(rest[0] as u32) + encode_utf8(
                rest.drop_first(),
            ));
            assert(b == encode_utf8(rest)[0]);
            assert(rest[0] == s[i as int]);
        }
        if b.is_printable() {
            i = i + 1;
        } else if b.is_control() {
            return Err(AsciiError::ControlChar(i + 1));
        } else {
            let c = name.get_char(i);
            return Err(AsciiError::NonAscii(c));
        }
    }
    proof {
        lemma_seven_bit_prefix(s, i as int);
        if i < s.len() {
            let rest = s.subrange(i as int, s.len() as int);
            lemma_leading_byte(rest[0]);
            assert(encode_utf8(rest) == encode_scalar(rest[0] as u32) + encode_utf8(
                rest.drop_first(),
            ));
        }
    }
    Ok(())
}

} // verus!
