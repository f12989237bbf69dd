//! Character classification and string-building helpers shared by the
//! sanitizer, the tag classifier and the path builders.

use vstd::prelude::*;

verus! {

/// A control character: the Unicode `Cc` category, U+0000..=U+001F and
/// U+007F..=U+009F.
pub open spec fn is_control_char(c: char) -> bool {
    (c as u32) < 0x20 || (0x7F <= (c as u32) && (c as u32) < 0xA0)
}

/// A whitespace character in the sense of Unicode `White_Space`, the set
/// that surrounding-whitespace trimming removes.
pub open spec fn is_space_char(c: char) -> bool {
    ||| c == ' '
    ||| (0x09 <= (c as u32) && (c as u32) <= 0x0D)
    ||| c == '\u{85}'
    ||| c == '\u{A0}'
    ||| c == '\u{1680}'
    ||| (0x2000 <= (c as u32) && (c as u32) <= 0x200A)
    ||| c == '\u{2028}'
    ||| c == '\u{2029}'
    ||| c == '\u{202F}'
    ||| c == '\u{205F}'
    ||| c == '\u{3000}'
}

/// ASCII letters `A`..=`Z` fold to `a`..=`z`; every other character is kept.
pub open spec fn lower_char(c: char) -> char {
    if 'A' <= c && c <= 'Z' {
        (((c as u32) + 0x20) as char)
    } else {
        c
    }
}

/// A sequence of characters, each folded by `lower_char`.
pub open spec fn lower_seq(s: Seq<char>) -> Seq<char> {
    s.map_values(|c: char| lower_char(c))
}

/// Relies on String::push: appends the given character to the end of the
/// string.
#[verifier::external_body]
pub(crate) fn push_char(s: &mut String, c: char)
    ensures
        final(s)@ == old(s)@.push(c),
{
    s.push(c);
}

pub fn char_lower(c: char) -> (r: char)
    ensures
        r == lower_char(c),
{
    if 'A' <= c && c <= 'Z' {
        proof {
            vstd::utf8::char_is_scalar(c);
        }
        (((c as u8) + 0x20) as char)
    } else {
        c
    }
}

pub fn char_is_control(c: char) -> (r: bool)
    ensures
        r == is_control_char(c),
{
    let n = c as u32;
    n < 0x20 || (0x7F <= n && n < 0xA0)
}

pub fn char_is_space(c: char) -> (r: bool)
    ensures
        r == is_space_char(c),
{
    let n = c as u32;
    c == ' ' || (0x09 <= n && n <= 0x0D) || n == 0x85 || n == 0xA0 || n == 0x1680
        || (0x2000 <= n && n <= 0x200A) || n == 0x2028 || n == 0x2029 || n == 0x202F
        || n == 0x205F || n == 0x3000
}

} // verus!
