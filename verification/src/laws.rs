//! Laws relating the classifiers and the input normalizer.

use vstd::prelude::*;

use crate::classify::ascii_alpha_result;
use crate::classify::ascii_alphanum_result;
use crate::classify::ascii_lower_alpha_result;
use crate::classify::ascii_result;
use crate::classify::ascii_upper_alpha_result;
use crate::classify::attr_name_result;
use crate::classify::control_result;
use crate::classify::digit_result;
use crate::classify::hex_digit_result;
use crate::classify::noncharacter_result;
use crate::classify::tagname_result;
use crate::classify::whitespace_result;
use crate::input::CallerInput;

verus! {

/// Every single-character text value classifies as ASCII exactly when its
/// scalar value is at most `0x7F`.
pub proof fn lemma_ascii_is_low_code_point(s: Seq<char>)
    requires
        s.len() == 1,
    ensures
        ascii_result(s) == Some(s[0] as u32 <= 0x7F),
{
}

/// A text value whose character count is zero, or two or more, classifies as
/// absent under every text-only predicate.
pub proof fn lemma_text_without_one_char_is_absent(s: Seq<char>)
    requires
        s.len() != 1,
    ensures
        digit_result(s) is None,
        hex_digit_result(s) is None,
        ascii_lower_alpha_result(s) is None,
        ascii_upper_alpha_result(s) is None,
        ascii_alpha_result(s) is None,
        ascii_alphanum_result(s) is None,
        ascii_result(s) is None,
        attr_name_result(s) is None,
        tagname_result(s) is None,
{
}

/// An integer below zero or above `0x10FFFF` classifies as absent under
/// every predicate that accepts an integer code point.
pub proof fn lemma_out_of_range_integer_is_absent(i: i64)
    requires
        i < 0 || i > 0x10FFFF,
    ensures
        whitespace_result(CallerInput::Integer(i)) is None,
        control_result(CallerInput::Integer(i)) is None,
        noncharacter_result(CallerInput::Integer(i)) is None,
{
}

/// A single-character text value is alphanumeric exactly when it is an ASCII
/// letter or an ASCII digit.
pub proof fn lemma_alphanum_is_alpha_or_digit(s: Seq<char>)
    requires
        s.len() == 1,
    ensures
        ascii_alphanum_result(s) == Some(
            (ascii_alpha_result(s) == Some(true) || digit_result(s) == Some(true)),
        ),
{
}

} // verus!
