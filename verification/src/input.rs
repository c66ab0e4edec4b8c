//! The keypad: which key of a keyboard stands for which of the sixteen keys.
//!
//! The four by four block `1234` / `qwer` / `asdf` / `zxcv` stands for the
//! keypad `123C` / `456D` / `789E` / `A0BF`.

use vstd::prelude::*;

verus! {

/// The key code that a character stands for, if it stands for one.
pub open spec fn key_code_of(c: char) -> Option<u8> {
    if c == '1' {
        Some(0x1u8)
    } else if c == '2' {
        Some(0x2u8)
    } else if c == '3' {
        Some(0x3u8)
    } else if c == '4' {
        Some(0xCu8)
    } else if c == 'q' {
        Some(0x4u8)
    } else if c == 'w' {
        Some(0x5u8)
    } else if c == 'e' {
        Some(0x6u8)
    } else if c == 'r' {
        Some(0xDu8)
    } else if c == 'a' {
        Some(0x7u8)
    } else if c == 's' {
        Some(0x8u8)
    } else if c == 'd' {
        Some(0x9u8)
    } else if c == 'f' {
        Some(0xEu8)
    } else if c == 'z' {
        Some(0xAu8)
    } else if c == 'x' {
        Some(0x0u8)
    } else if c == 'c' {
        Some(0xBu8)
    } else if c == 'v' {
        Some(0xFu8)
    } else {
        None
    }
}

/// The character that stands for a key code.
pub open spec fn key_char_of(code: u8) -> char {
    if code == 0x0 {
        'x'
    } else if code == 0x1 {
        '1'
    } else if code == 0x2 {
        '2'
    } else if code == 0x3 {
        '3'
    } else if code == 0x4 {
        'q'
    } else if code == 0x5 {
        'w'
    } else if code == 0x6 {
        'e'
    } else if code == 0x7 {
        'a'
    } else if code == 0x8 {
        's'
    } else if code == 0x9 {
        'd'
    } else if code == 0xA {
        'z'
    } else if code == 0xB {
        'c'
    } else if code == 0xC {
        '4'
    } else if code == 0xD {
        'r'
    } else if code == 0xE {
        'f'
    } else {
        'v'
    }
}

/// Translates a pressed character to its key code, `None` for a character
/// that stands for no key.
pub fn key_code(c: char) -> (code: Option<u8>)
    ensures
        code == key_code_of(c),
        code matches Some(k) ==> k < 16,
{
    match c {
        '1' => Some(0x1),
        '2' => Some(0x2),
        '3' => Some(0x3),
        '4' => Some(0xC),
        'q' => Some(0x4),
        'w' => Some(0x5),
        'e' => Some(0x6),
        'r' => Some(0xD),
        'a' => Some(0x7),
        's' => Some(0x8),
        'd' => Some(0x9),
        'f' => Some(0xE),
        'z' => Some(0xA),
        'x' => Some(0x0),
        'c' => Some(0xB),
        'v' => Some(0xF),
        _ => None,
    }
}

/// Every key code has a character, and only codes below 16 have one.
pub proof fn every_key_has_a_character(code: u8)
    ensures
        code < 16 ==> key_code_of(key_char_of(code)) == Some(code),
        forall|c: char| key_code_of(c) == Some(code) ==> code < 16 && c == key_char_of(code),
{
}

} // verus!
