//! Character classification for markup-language tokenization.
//!
//! A set of pure, stateless predicates that answer, for a single code point,
//! whether it belongs to a character class relevant to scanning markup:
//! whitespace, digits, control characters, noncharacters, and the characters
//! legal in tag names and attribute names. Callers hand each predicate either
//! a single-character text value or, for three of them, a raw code point; an
//! input that does not denote exactly one valid code point classifies as
//! absent (`None`), never as an error.

pub mod classify;
pub mod input;
pub mod laws;

pub use classify::is_ascii;
pub use classify::is_ascii_alpha;
pub use classify::is_ascii_alphanum;
pub use classify::is_ascii_lower_alpha;
pub use classify::is_ascii_upper_alpha;
pub use classify::is_attr_name_char;
pub use classify::is_control;
pub use classify::is_digit;
pub use classify::is_hex_digit;
pub use classify::is_noncharacter;
pub use classify::is_tagname_char;
pub use classify::is_whitespace;
pub use input::CallerInput;
