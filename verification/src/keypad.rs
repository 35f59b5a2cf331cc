//! The layout of the sixteen-key pad on a host keyboard.

use vstd::prelude::*;
use vstd::string::StrSliceExecFns;
use crate::state::KEYS_SIZE;

verus! {

/// The pad key that a host key stands for. The four rows `1234`, `qwer`,
/// `asdf` and `zxcv` of the keyboard are the four rows `123C`, `456D`,
/// `789E` and `A0BF` of the pad; no other key stands for one.
pub open spec fn keycode_to_hex_spec(key: char) -> Option<u8> {
    if key == '1' {
        Some(0x1u8)
    } else if key == '2' {
        Some(0x2u8)
    } else if key == '3' {
        Some(0x3u8)
    } else if key == '4' {
        Some(0xCu8)
    } else if key == 'q' {
        Some(0x4u8)
    } else if key == 'w' {
        Some(0x5u8)
    } else if key == 'e' {
        Some(0x6u8)
    } else if key == 'r' {
        Some(0xDu8)
    } else if key == 'a' {
        Some(0x7u8)
    } else if key == 's' {
        Some(0x8u8)
    } else if key == 'd' {
        Some(0x9u8)
    } else if key == 'f' {
        Some(0xEu8)
    } else if key == 'z' {
        Some(0xAu8)
    } else if key == 'x' {
        Some(0x0u8)
    } else if key == 'c' {
        Some(0xBu8)
    } else if key == 'v' {
        Some(0xFu8)
    } else {
        None
    }
}

/// The host key on which a pad key lies.
pub open spec fn hex_to_keycode_spec(code: u8) -> char {
    seq!['x', '1', '2', '3', 'q', 'w', 'e', 'a', 's', 'd', 'z', 'c', '4', 'r', 'f', 'v'][code as int]
}

/// Maps a host key to the pad key that it stands for, if it stands for one.
pub fn keycode_to_hex(key: char) -> (code: Option<u8>)
    ensures
        code == keycode_to_hex_spec(key),
        code matches Some(k) ==> k < KEYS_SIZE,
{
    match key {
        '1' => Some(0x1),
        '2' => Some(0x2),
        '3' => Some(0x3),
        '4' => Some(0xC),
        'q' => Some(0x4),
        'w' => Some(0x5),
        'e' => Some(0x6),
        'r' => Some(0xD),
        'a' => Some(0x7),
        's' => Some(0x8),
        'd' => Some(0x9),
        'f' => Some(0xE),
        'z' => Some(0xA),
        'x' => Some(0x0),
        'c' => Some(0xB),
        'v' => Some(0xF),
        _ => None,
    }
}

/// Maps the name of a host key to the pad key that it stands for. Only a
/// name of one character names a key of the layout.
pub fn key_to_hex(key: &str) -> (code: Option<u8>)
    ensures
        code == if key@.len() == 1 {
            keycode_to_hex_spec(key@[0])
        } else {
            None
        },
        code matches Some(k) ==> k < KEYS_SIZE,
{
    if key.unicode_len() == 1 {
        keycode_to_hex(key.get_char(0))
    } else {
        None
    }
}

/// Every pad key lies on exactly one host key: the layout maps the sixteen
/// host keys one to one onto the pad keys `0x0..=0xF`.
pub proof fn law_layout_is_one_to_one(first: char, second: char, code: u8)
    ensures
        keycode_to_hex_spec(first) matches Some(k) ==> k < 16 && hex_to_keycode_spec(k) == first,
        keycode_to_hex_spec(first) is Some && keycode_to_hex_spec(first) == keycode_to_hex_spec(
            second,
        ) ==> first == second,
        code < 16 ==> keycode_to_hex_spec(hex_to_keycode_spec(code)) == Some(code),
{
}

} // verus!
