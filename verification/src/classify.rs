//! The classifier set: one boundary predicate per character class.
//!
//! Each class is defined once, as a spec predicate over a code point, and the
//! executable entry points promise to return exactly that classification for
//! the code point the input normalizes to, or `None` when the input denotes
//! no single valid code point. The range tables transcribe the markup
//! grammar's own boundaries; they are not general Unicode categories.

use vstd::prelude::*;

use crate::input::CallerInput;
use crate::input::get_char;
use crate::input::get_codepoint;
use crate::input::input_code_point;
use crate::input::text_code_point;

verus! {

/// True of the four whitespace code points of the markup grammar: tab, line
/// feed, form feed and space.
pub open spec fn whitespace_code(cp: u32) -> bool {
    cp == 0x09 || cp == 0x0A || cp == 0x0C || cp == 0x20
}

/// True of the ASCII digits `0` through `9`.
pub open spec fn digit_code(cp: u32) -> bool {
    0x30 <= cp <= 0x39
}

/// True of the ASCII hexadecimal digits: `0`-`9`, `A`-`F`, `a`-`f`.
pub open spec fn hex_digit_code(cp: u32) -> bool {
    digit_code(cp) || 0x41 <= cp <= 0x46 || 0x61 <= cp <= 0x66
}

/// True of the ASCII lowercase letters `a` through `z`.
pub open spec fn ascii_lower_alpha_code(cp: u32) -> bool {
    0x61 <= cp <= 0x7A
}

/// True of the ASCII uppercase letters `A` through `Z`.
pub open spec fn ascii_upper_alpha_code(cp: u32) -> bool {
    0x41 <= cp <= 0x5A
}

/// True of the ASCII letters, lowercase or uppercase.
pub open spec fn ascii_alpha_code(cp: u32) -> bool {
    ascii_lower_alpha_code(cp) || ascii_upper_alpha_code(cp)
}

/// True of the ASCII letters and digits.
pub open spec fn ascii_alphanum_code(cp: u32) -> bool {
    ascii_alpha_code(cp) || digit_code(cp)
}

/// True of every ASCII code point, that is every code point at most `0x7F`.
pub open spec fn ascii_code(cp: u32) -> bool {
    cp <= 0x7F
}

/// True of the control characters of the markup grammar. Tab, line feed and
/// form feed are deliberately carved out: they classify as whitespace, not as
/// control characters.
pub open spec fn control_code(cp: u32) -> bool {
    cp <= 0x08 || cp == 0x0B || 0x0D <= cp <= 0x1F || 0x7F <= cp <= 0x9F
}

/// True of the Unicode noncharacters: the contiguous block
/// `0xFDD0`-`0xFDEF`, and the last two code points of every plane.
pub open spec fn noncharacter_code(cp: u32) -> bool {
    0xFDD0 <= cp <= 0xFDEF || (cp & 0xFFFE == 0xFFFE && cp <= 0x10FFFF)
}

/// True of the code points legal in an attribute name: everything except the
/// grammar's whitespace set and `/`, `<`, `>`, `=`, `"`, `'` and NUL.
pub open spec fn attr_name_code(cp: u32) -> bool {
    !whitespace_code(cp) && cp != 0x2F && cp != 0x3C && cp != 0x3E && cp != 0x3D && cp != 0x22
        && cp != 0x27 && cp != 0x00
}

/// True of the code points legal in a tag name: `-`, `.`, `_`, the ASCII
/// letters and digits, the middle dot `0xB7`, and the grammar's admitted
/// Unicode blocks, with `0xD7`, `0xF7` and `0x37E` carved out of the first
/// block.
pub open spec fn tagname_code(cp: u32) -> bool {
    cp == 0x2D || cp == 0x2E || cp == 0x5F || ascii_alphanum_code(cp) || cp == 0xB7 || (0xC0 <= cp
        <= 0x1FFF && cp != 0xD7 && cp != 0xF7 && cp != 0x37E) || cp == 0x200C || cp == 0x200D
        || cp == 0x203F || cp == 0x2040 || 0x2070 <= cp <= 0x218F || 0x2C00 <= cp <= 0x2FEF
        || 0x3001 <= cp <= 0xD7FF || 0xF900 <= cp <= 0xFDCF || 0xFDF0 <= cp <= 0xFFFD || 0x10000
        <= cp <= 0xEFFFF
}

/// The whitespace classification of a caller input; `None` when the input
/// denotes no single valid code point.
pub open spec fn whitespace_result(inp: CallerInput) -> Option<bool> {
    match input_code_point(inp) {
        Some(cp) => Some(whitespace_code(cp)),
        None => None,
    }
}

/// The control-character classification of a caller input.
pub open spec fn control_result(inp: CallerInput) -> Option<bool> {
    match input_code_point(inp) {
        Some(cp) => Some(control_code(cp)),
        None => None,
    }
}

/// The noncharacter classification of a caller input.
pub open spec fn noncharacter_result(inp: CallerInput) -> Option<bool> {
    match input_code_point(inp) {
        Some(cp) => Some(noncharacter_code(cp)),
        None => None,
    }
}

/// The digit classification of a text value; `None` when it does not hold
/// exactly one character.
pub open spec fn digit_result(s: Seq<char>) -> Option<bool> {
    match text_code_point(s) {
        Some(cp) => Some(digit_code(cp)),
        None => None,
    }
}

/// The hexadecimal-digit classification of a text value.
pub open spec fn hex_digit_result(s: Seq<char>) -> Option<bool> {
    match text_code_point(s) {
        Some(cp) => Some(hex_digit_code(cp)),
        None => None,
    }
}

/// The ASCII-lowercase-letter classification of a text value.
pub open spec fn ascii_lower_alpha_result(s: Seq<char>) -> Option<bool> {
    match text_code_point(s) {
        Some(cp) => Some(ascii_lower_alpha_code(cp)),
        None => None,
    }
}

/// The ASCII-uppercase-letter classification of a text value.
pub open spec fn ascii_upper_alpha_result(s: Seq<char>) -> Option<bool> {
    match text_code_point(s) {
        Some(cp) => Some(ascii_upper_alpha_code(cp)),
        None => None,
    }
}

/// The ASCII-letter classification of a text value.
pub open spec fn ascii_alpha_result(s: Seq<char>) -> Option<bool> {
    match text_code_point(s) {
        Some(cp) => Some(ascii_alpha_code(cp)),
        None => None,
    }
}

/// The ASCII-alphanumeric classification of a text value.
pub open spec fn ascii_alphanum_result(s: Seq<char>) -> Option<bool> {
    match text_code_point(s) {
        Some(cp) => Some(ascii_alphanum_code(cp)),
        None => None,
    }
}

/// The ASCII classification of a text value.
pub open spec fn ascii_result(s: Seq<char>) -> Option<bool> {
    match text_code_point(s) {
        Some(cp) => Some(ascii_code(cp)),
        None => None,
    }
}

/// The attribute-name-character classification of a text value.
pub open spec fn attr_name_result(s: Seq<char>) -> Option<bool> {
    match text_code_point(s) {
        Some(cp) => Some(attr_name_code(cp)),
        None => None,
    }
}

/// The tag-name-character classification of a text value.
pub open spec fn tagname_result(s: Seq<char>) -> Option<bool> {
    match text_code_point(s) {
        Some(cp) => Some(tagname_code(cp)),
        None => None,
    }
}

/// Whether a code point is in the markup grammar's whitespace set.
pub fn whitespace_code_point(cp: u32) -> (b: bool)
    ensures
        b == whitespace_code(cp),
{
    cp == 0x09 || cp == 0x0A || cp == 0x0C || cp == 0x20
}

/// Whether a code point is an ASCII digit.
pub fn digit_code_point(cp: u32) -> (b: bool)
    ensures
        b == digit_code(cp),
{
    0x30 <= cp && cp <= 0x39
}

/// Whether a code point is an ASCII hexadecimal digit.
pub fn hex_digit_code_point(cp: u32) -> (b: bool)
    ensures
        b == hex_digit_code(cp),
{
    (0x30 <= cp && cp <= 0x39) || (0x41 <= cp && cp <= 0x46) || (0x61 <= cp && cp <= 0x66)
}

/// Whether a code point is an ASCII lowercase letter.
pub fn ascii_lower_alpha_code_point(cp: u32) -> (b: bool)
    ensures
        b == ascii_lower_alpha_code(cp),
{
    0x61 <= cp && cp <= 0x7A
}

/// Whether a code point is an ASCII uppercase letter.
pub fn ascii_upper_alpha_code_point(cp: u32) -> (b: bool)
    ensures
        b == ascii_upper_alpha_code(cp),
{
    0x41 <= cp && cp <= 0x5A
}

/// Whether a code point is an ASCII letter.
pub fn ascii_alpha_code_point(cp: u32) -> (b: bool)
    ensures
        b == ascii_alpha_code(cp),
{
    (0x61 <= cp && cp <= 0x7A) || (0x41 <= cp && cp <= 0x5A)
}

/// Whether a code point is an ASCII letter or digit.
pub fn ascii_alphanum_code_point(cp: u32) -> (b: bool)
    ensures
        b == ascii_alphanum_code(cp),
{
    (0x61 <= cp && cp <= 0x7A) || (0x41 <= cp && cp <= 0x5A) || (0x30 <= cp && cp <= 0x39)
}

/// Whether a code point is ASCII.
pub fn ascii_code_point(cp: u32) -> (b: bool)
    ensures
        b == ascii_code(cp),
{
    cp <= 0x7F
}

/// Whether a code point is a control character of the markup grammar.
pub fn control_code_point(cp: u32) -> (b: bool)
    ensures
        b == control_code(cp),
{
    cp <= 0x08 || cp == 0x0B || (0x0D <= cp && cp <= 0x1F) || (0x7F <= cp && cp <= 0x9F)
}

/// Whether a code point is a Unicode noncharacter.
pub fn noncharacter_code_point(cp: u32) -> (b: bool)
    ensures
        b == noncharacter_code(cp),
{
    (0xFDD0 <= cp && cp <= 0xFDEF) || (cp & 0xFFFE == 0xFFFE && cp <= 0x10FFFF)
}

/// Whether a code point is legal in an attribute name.
pub fn attr_name_code_point(cp: u32) -> (b: bool)
    ensures
        b == attr_name_code(cp),
{
    !(cp == 0x09 || cp == 0x0A || cp == 0x0C || cp == 0x20) && cp != 0x2F && cp != 0x3C
        && cp != 0x3E && cp != 0x3D && cp != 0x22 && cp != 0x27 && cp != 0x00
}

/// Whether a code point is legal in a tag name.
pub fn tagname_code_point(cp: u32) -> (b: bool)
    ensures
        b == tagname_code(cp),
{
    cp == 0x2D || cp == 0x2E || cp == 0x5F || (0x61 <= cp && cp <= 0x7A) || (0x41 <= cp
        && cp <= 0x5A) || (0x30 <= cp && cp <= 0x39) || cp == 0xB7 || (0xC0 <= cp && cp <= 0x1FFF
        && cp != 0xD7 && cp != 0xF7 && cp != 0x37E) || cp == 0x200C || cp == 0x200D || cp == 0x203F
        || cp == 0x2040 || (0x2070 <= cp && cp <= 0x218F) || (0x2C00 <= cp && cp <= 0x2FEF) || (
    0x3001 <= cp && cp <= 0xD7FF) || (0xF900 <= cp && cp <= 0xFDCF) || (0xFDF0 <= cp
        && cp <= 0xFFFD) || (0x10000 <= cp && cp <= 0xEFFFF)
}

/// Whether an input, a single-character text value or a code point given as
/// an integer, is whitespace: tab, line feed, form feed or space. `None` when
/// the input denotes no single valid code point.
pub fn is_whitespace(ch: &CallerInput) -> (r: Option<bool>)
    ensures
        r == whitespace_result(*ch),
        (*ch) matches CallerInput::Integer(i) && !(0 <= i <= 0x10FFFF) ==> r is None,
{
    match get_codepoint(ch) {
        Some(cp) => Some(whitespace_code_point(cp)),
        None => None,
    }
}

/// Whether an input, a single-character text value or a code point given as
/// an integer, is a control character. `None` when the input denotes no
/// single valid code point.
pub fn is_control(ch: &CallerInput) -> (r: Option<bool>)
    ensures
        r == control_result(*ch),
        (*ch) matches CallerInput::Integer(i) && !(0 <= i <= 0x10FFFF) ==> r is None,
{
    match get_codepoint(ch) {
        Some(cp) => Some(control_code_point(cp)),
        None => None,
    }
}

/// Whether an input, a single-character text value or a code point given as
/// an integer, is a Unicode noncharacter. `None` when the input denotes no
/// single valid code point.
pub fn is_noncharacter(ch: &CallerInput) -> (r: Option<bool>)
    ensures
        r == noncharacter_result(*ch),
        (*ch) matches CallerInput::Integer(i) && !(0 <= i <= 0x10FFFF) ==> r is None,
{
    match get_codepoint(ch) {
        Some(cp) => Some(noncharacter_code_point(cp)),
        None => None,
    }
}

/// Whether a single-character text value is an ASCII digit (`0`-`9`);
/// `None` when the input does not hold exactly one character.
pub fn is_digit(ch: &str) -> (r: Option<bool>)
    ensures
        r == digit_result(ch@),
        ch@.len() != 1 ==> r is None,
{
    match get_char(ch) {
        Some(c) => Some(digit_code_point(c as u32)),
        None => None,
    }
}

/// Whether a single-character text value is an ASCII hexadecimal digit;
/// `None` when the input does not hold exactly one character.
pub fn is_hex_digit(ch: &str) -> (r: Option<bool>)
    ensures
        r == hex_digit_result(ch@),
        ch@.len() != 1 ==> r is None,
{
    match get_char(ch) {
        Some(c) => Some(hex_digit_code_point(c as u32)),
        None => None,
    }
}

/// Whether a single-character text value is an ASCII lowercase letter;
/// `None` when the input does not hold exactly one character.
pub fn is_ascii_lower_alpha(ch: &str) -> (r: Option<bool>)
    ensures
        r == ascii_lower_alpha_result(ch@),
        ch@.len() != 1 ==> r is None,
{
    match get_char(ch) {
        Some(c) => Some(ascii_lower_alpha_code_point(c as u32)),
        None => None,
    }
}

/// Whether a single-character text value is an ASCII uppercase letter;
/// `None` when the input does not hold exactly one character.
pub fn is_ascii_upper_alpha(ch: &str) -> (r: Option<bool>)
    ensures
        r == ascii_upper_alpha_result(ch@),
        ch@.len() != 1 ==> r is None,
{
    match get_char(ch) {
        Some(c) => Some(ascii_upper_alpha_code_point(c as u32)),
        None => None,
    }
}

/// Whether a single-character text value is an ASCII letter; `None` when the
/// input does not hold exactly one character.
pub fn is_ascii_alpha(ch: &str) -> (r: Option<bool>)
    ensures
        r == ascii_alpha_result(ch@),
        ch@.len() != 1 ==> r is None,
{
    match get_char(ch) {
        Some(c) => Some(ascii_alpha_code_point(c as u32)),
        None => None,
    }
}

/// Whether a single-character text value is an ASCII letter or digit;
/// `None` when the input does not hold exactly one character.
pub fn is_ascii_alphanum(ch: &str) -> (r: Option<bool>)
    ensures
        r == ascii_alphanum_result(ch@),
        ch@.len() != 1 ==> r is None,
{
    match get_char(ch) {
        Some(c) => Some(ascii_alphanum_code_point(c as u32)),
        None => None,
    }
}

/// Whether a single-character text value is ASCII, that is its scalar value
/// is at most `0x7F`; `None` when the input does not hold exactly one
/// character.
pub fn is_ascii(ch: &str) -> (r: Option<bool>)
    ensures
        r == ascii_result(ch@),
        ch@.len() != 1 ==> r is None,
{
    match get_char(ch) {
        Some(c) => Some(ascii_code_point(c as u32)),
        None => None,
    }
}

/// Whether a single-character text value is legal in an attribute name;
/// `None` when the input does not hold exactly one character.
pub fn is_attr_name_char(ch: &str) -> (r: Option<bool>)
    ensures
        r == attr_name_result(ch@),
        ch@.len() != 1 ==> r is None,
{
    match get_char(ch) {
        Some(c) => Some(attr_name_code_point(c as u32)),
        None => None,
    }
}

/// Whether a single-character text value is legal in a tag name; `None` when
/// the input does not hold exactly one character.
pub fn is_tagname_char(ch: &str) -> (r: Option<bool>)
    ensures
        r == tagname_result(ch@),
        ch@.len() != 1 ==> r is None,
{
    match get_char(ch) {
        Some(c) => Some(tagname_code_point(c as u32)),
        None => None,
    }
}

} // verus!
