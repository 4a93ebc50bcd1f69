//! The byte grammar of HTTP header fields: which byte strings are field names
//! and field values, and how a name is normalised.

use vstd::prelude::*;

verus! {

/// The longest field name, in bytes.
pub const MAX_HEADER_NAME_LEN: usize = 65535;

/// Whether `b` is a `tchar` of the HTTP token grammar: a letter, a digit or
/// one of ``! # $ % & ' * + - . ^ _ ` | ~``.
pub open spec fn is_token_byte(b: u8) -> bool {
    ||| 0x30 <= b <= 0x39
    ||| 0x41 <= b <= 0x5a
    ||| 0x61 <= b <= 0x7a
    ||| b == 0x21
    ||| 0x23 <= b <= 0x27
    ||| b == 0x2a
    ||| b == 0x2b
    ||| b == 0x2d
    ||| b == 0x2e
    ||| b == 0x5e
    ||| b == 0x5f
    ||| b == 0x60
    ||| b == 0x7c
    ||| b == 0x7e
}

/// Whether `s` is a field name: a token of 1 to 65535 bytes.
pub open spec fn is_header_name(s: Seq<u8>) -> bool {
    &&& 1 <= s.len() <= MAX_HEADER_NAME_LEN
    &&& forall|i: int| 0 <= i < s.len() ==> is_token_byte(#[trigger] s[i])
}

/// The lower-case form of an ASCII letter; any other byte is left alone.
pub open spec fn lower_byte(b: u8) -> u8 {
    if 0x41 <= b <= 0x5a {
        (b + 0x20) as u8
    } else {
        b
    }
}

/// The normal form of a field name: each upper-case ASCII letter replaced by
/// its lower-case form.
pub open spec fn normalized(s: Seq<u8>) -> Seq<u8> {
    Seq::new(s.len(), |i: int| lower_byte(s[i]))
}

/// Whether `b` may occur in a field value: a horizontal tab, or any byte from
/// 0x20 up except DEL.
pub open spec fn is_value_byte(b: u8) -> bool {
    b == 0x09 || (b >= 0x20 && b != 0x7f)
}

/// Whether `s` is a field value: every byte is a value byte. The empty string
/// is one.
pub open spec fn is_header_value(s: Seq<u8>) -> bool {
    forall|i: int| 0 <= i < s.len() ==> is_value_byte(#[trigger] s[i])
}

} // verus!
