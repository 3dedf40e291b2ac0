//! Note identifiers: the UUID string grammar, a verified validator, and the
//! generation of fresh identifiers.
//!
//! The grammar accepts the four textual UUID renderings: simple (32 hex
//! digits), hyphenated (8-4-4-4-12), braced, and URN-prefixed.

use vstd::prelude::*;

verus! {

/// A hexadecimal digit as the identifier grammar accepts it:
/// `0-9`, `a-f` or `A-F`.
pub open spec fn is_hex_digit(c: char) -> bool {
    ('0' as int <= c as int && c as int <= '9' as int)
    || ('a' as int <= c as int && c as int <= 'f' as int)
    || ('A' as int <= c as int && c as int <= 'F' as int)
}

/// Character `c` equals the lowercase ASCII letter `lower`, ignoring case.
pub open spec fn eq_ignore_case(c: char, lower: char) -> bool {
    c == lower || c as int == lower as int - 32
}

/// The positions of the four hyphens in a hyphenated UUID.
pub open spec fn is_hyphen_position(i: int) -> bool {
    i == 8 || i == 13 || i == 18 || i == 23
}

/// The hyphenated UUID rendering: 36 characters, hyphens at positions
/// 8, 13, 18 and 23, hex digits everywhere else.
pub open spec fn is_hyphenated_uuid(s: Seq<char>) -> bool {
    s.len() == 36
    && (forall|i: int| 0 <= i < 36 && is_hyphen_position(i) ==> #[trigger] s[i] == '-')
    && (forall|i: int| 0 <= i < 36 && !is_hyphen_position(i) ==> is_hex_digit(#[trigger] s[i]))
}

/// The simple UUID rendering: 32 hex digits, no separators.
pub open spec fn is_simple_uuid(s: Seq<char>) -> bool {
    s.len() == 32 && (forall|i: int| 0 <= i < 32 ==> is_hex_digit(#[trigger] s[i]))
}

/// The braced UUID rendering: a hyphenated UUID between `{` and `}`.
pub open spec fn is_braced_uuid(s: Seq<char>) -> bool {
    s.len() == 38 && s[0] == '{' && s[37] == '}' && is_hyphenated_uuid(s.subrange(1, 37))
}

/// The URN UUID rendering: the prefix `urn:uuid:` (letters in either case)
/// followed by a hyphenated UUID.
pub open spec fn is_urn_uuid(s: Seq<char>) -> bool {
    s.len() == 45
    && eq_ignore_case(s[0], 'u') && eq_ignore_case(s[1], 'r') && eq_ignore_case(s[2], 'n')
    && s[3] == ':'
    && eq_ignore_case(s[4], 'u') && eq_ignore_case(s[5], 'u') && eq_ignore_case(s[6], 'i')
    && eq_ignore_case(s[7], 'd')
    && s[8] == ':'
    && is_hyphenated_uuid(s.subrange(9, 45))
}

/// A syntactically well-formed UUID string, in any of the four renderings.
pub open spec fn is_valid_uuid(s: Seq<char>) -> bool {
    is_simple_uuid(s) || is_hyphenated_uuid(s) || is_braced_uuid(s) || is_urn_uuid(s)
}

/// Whether `c` is a hexadecimal digit.
fn hex_digit(c: char) -> (b: bool)
    ensures
        b == is_hex_digit(c),
{
    let u = c as u32;
    (48 <= u && u <= 57) || (97 <= u && u <= 102) || (65 <= u && u <= 70)
}

/// Whether `c` equals the lowercase ASCII letter `lower`, ignoring case.
fn char_eq_ignore_case(c: char, lower: char) -> (b: bool)
    ensures
        b == eq_ignore_case(c, lower),
{
    c == lower || c as u32 == (lower as u32).wrapping_sub(32)
}

/// Checks the hyphenated rendering in `s` at character positions
/// `start .. start + 36`.
fn check_hyphenated(s: &str, start: usize) -> (b: bool)
    requires
        start + 36 <= s@.len(),
        s@.len() <= usize::MAX,
    ensures
        b == is_hyphenated_uuid(s@.subrange(start as int, start as int + 36)),
{
    let ghost sub = s@.subrange(start as int, start as int + 36);
    let mut i: usize = 0;
    while i < 36
        invariant
            0 <= i <= 36,
            start + 36 <= s@.len() <= usize::MAX,
            sub == s@.subrange(start as int, start as int + 36),
            forall|j: int| 0 <= j < i && is_hyphen_position(j) ==> #[trigger] sub[j] == '-',
            forall|j: int| 0 <= j < i && !is_hyphen_position(j) ==> is_hex_digit(#[trigger] sub[j]),
        decreases 36 - i,
    {
        let c = s.get_char(start + i);
        assert(c == sub[i as int]);
        let ok = if i == 8 || i == 13 || i == 18 || i == 23 {
            c == '-'
        } else {
            hex_digit(c)
        };
        if !ok {
            return false;
        }
        i += 1;
    }
    true
}

/// Whether `id` is a syntactically well-formed UUID string.
pub fn is_valid_note_id(id: &str) -> (b: bool)
    ensures
        b == is_valid_uuid(id@),
{
    let n = id.unicode_len();
    if n == 32 {
        let mut i: usize = 0;
        while i < 32
            invariant
                0 <= i <= 32,
                id@.len() == 32,
                forall|j: int| 0 <= j < i ==> is_hex_digit(#[trigger] id@[j]),
            decreases 32 - i,
        {
            if !hex_digit(id.get_char(i)) {
                return false;
            }
            i += 1;
        }
        true
    } else if n == 36 {
        let r = check_hyphenated(id, 0);
        assert(id@.subrange(0, 36) =~= id@);
        r
    } else if n == 38 {
        if id.get_char(0) == '{' && id.get_char(37) == '}' {
            check_hyphenated(id, 1)
        } else {
            false
        }
    } else if n == 45 {
        let prefix_ok = char_eq_ignore_case(id.get_char(0), 'u')
            && char_eq_ignore_case(id.get_char(1), 'r')
            && char_eq_ignore_case(id.get_char(2), 'n')
            && id.get_char(3) == ':'
            && char_eq_ignore_case(id.get_char(4), 'u')
            && char_eq_ignore_case(id.get_char(5), 'u')
            && char_eq_ignore_case(id.get_char(6), 'i')
            && char_eq_ignore_case(id.get_char(7), 'd')
            && id.get_char(8) == ':';
        if prefix_ok {
            check_hyphenated(id, 9)
        } else {
            false
        }
    } else {
        false
    }
}

/// Generates a fresh note identifier in the hyphenated rendering.
///
/// Relies on `uuid::Uuid::new_v4` and the `Display` implementation of
/// `uuid::Uuid`: a version-4 UUID drawn from the process's random source,
/// rendered as 36 characters in the lowercase hyphenated form, so its
/// version character is `4` and its variant character is one of `8`, `9`,
/// `a`, `b`. The result is random; nothing relates two calls.
#[verifier::external_body]
pub(crate) fn fresh_note_id() -> (r: String)
    ensures
        is_hyphenated_uuid(r@),
        r@[14] == '4',
        r@[19] == '8' || r@[19] == '9' || r@[19] == 'a' || r@[19] == 'b',
{
    uuid::Uuid::new_v4().to_string()
}

} // verus!
