//! Input normalization: turning a caller-supplied value into one code point.

use vstd::prelude::*;

verus! {

/// A caller-supplied value for the entry points that accept either a
/// single-character text value or a raw code point given as an integer.
pub enum CallerInput {
    Text(String),
    Integer(i64),
}

/// A Unicode scalar value: a code point at most `0x10FFFF` that is not a
/// surrogate.
pub open spec fn is_scalar_value(i: int) -> bool {
    0 <= i <= 0x10FFFF && !(0xD800 <= i <= 0xDFFF)
}

/// The single character a text value denotes, if it holds exactly one
/// character by scalar-value count.
pub open spec fn text_char(s: Seq<char>) -> Option<char> {
    if s.len() == 1 {
        Some(s[0])
    } else {
        None
    }
}

/// The code point a text value denotes: its single character's scalar value,
/// or nothing when the character count is not exactly one.
pub open spec fn text_code_point(s: Seq<char>) -> Option<u32> {
    match text_char(s) {
        Some(c) => Some(c as u32),
        None => None,
    }
}

/// The code point a caller input denotes: a single character's scalar value,
/// or an integer that is itself a scalar value. Everything else normalizes to
/// `None`, never to an error.
pub open spec fn input_code_point(inp: CallerInput) -> Option<u32> {
    match inp {
        CallerInput::Text(s) => text_code_point(s@),
        CallerInput::Integer(i) => if is_scalar_value(i as int) {
            Some(i as u32)
        } else {
            None
        },
    }
}

/// Extracts the one character of a single-character text value; any other
/// character count yields `None`.
pub fn get_char(s: &str) -> (r: Option<char>)
    ensures
        r == text_char(s@),
{
    if s.unicode_len() == 1 {
        Some(s.get_char(0))
    } else {
        None
    }
}

/// Normalizes a caller input to the code point it denotes, or `None` when it
/// denotes no single valid code point.
pub fn get_codepoint(input: &CallerInput) -> (r: Option<u32>)
    ensures
        r == input_code_point(*input),
{
    match input {
        CallerInput::Text(s) => {
            match get_char(s.as_str()) {
                Some(c) => Some(c as u32),
                None => None,
            }
        },
        CallerInput::Integer(i) => {
            let v: i64 = *i;
            if 0 <= v && v <= 0x10FFFF && !(0xD800 <= v && v <= 0xDFFF) {
                Some(v as u32)
            } else {
                None
            }
        },
    }
}

} // verus!
