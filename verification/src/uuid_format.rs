//! The textual forms of UUIDs that identifiers may take, and the canonical
//! form (hyphenated, lower case) in which the service stores them.

use vstd::prelude::*;

use crate::text::{ascii_lower, ascii_lower_char, eq_ignore_ascii_case};

verus! {

/// An ASCII hexadecimal digit, of either case.
pub open spec fn is_hex_digit(c: char) -> bool {
    ('0' <= c && c <= '9') || ('a' <= c && c <= 'f') || ('A' <= c && c <= 'F')
}

/// The value of a hexadecimal digit.
pub open spec fn hex_value(c: char) -> int {
    if '0' <= c && c <= '9' {
        c as int - 48
    } else if 'a' <= c && c <= 'f' {
        c as int - 87
    } else {
        c as int - 55
    }
}

pub open spec fn all_hex(s: Seq<char>) -> bool {
    forall|i: int| 0 <= i < s.len() ==> is_hex_digit(#[trigger] s[i])
}

/// The 32 digits of a hyphenated form `8-4-4-4-12`, without the hyphens.
pub open spec fn hyphenated_digits(s: Seq<char>) -> Seq<char> {
    s.subrange(0, 8) + s.subrange(9, 13) + s.subrange(14, 18) + s.subrange(19, 23) + s.subrange(
        24,
        36,
    )
}

/// The digits of `s` when it is a hyphenated UUID.
pub open spec fn hyphenated_hex(s: Seq<char>) -> Option<Seq<char>> {
    if s.len() == 36 && s[8] == '-' && s[13] == '-' && s[18] == '-' && s[23] == '-' && all_hex(
        hyphenated_digits(s),
    ) {
        Some(hyphenated_digits(s))
    } else {
        None
    }
}

/// The 32 hexadecimal digits of a UUID written in one of the forms that
/// `uuid::Uuid::parse_str` accepts: 32 digits; hyphenated `8-4-4-4-12`; the
/// hyphenated form in braces; or the hyphenated form behind a `urn:uuid:`
/// prefix of any ASCII case. `None` for any other text.
pub open spec fn uuid_hex_digits(s: Seq<char>) -> Option<Seq<char>> {
    if s.len() == 32 {
        if all_hex(s) {
            Some(s)
        } else {
            None
        }
    } else if s.len() == 36 {
        hyphenated_hex(s)
    } else if s.len() == 38 && s[0] == '{' && s[37] == '}' {
        hyphenated_hex(s.subrange(1, 37))
    } else if s.len() == 45 && eq_ignore_ascii_case(s.subrange(0, 9), "urn:uuid:"@) {
        hyphenated_hex(s.subrange(9, 45))
    } else {
        None
    }
}

/// The sixteen bytes that 32 hexadecimal digits spell, two digits a byte.
pub open spec fn bytes_of_digits(d: Seq<char>) -> Seq<u8> {
    Seq::new(16, |j: int| (hex_value(d[2 * j]) * 16 + hex_value(d[2 * j + 1])) as u8)
}

/// The lower-case hexadecimal digit of a value below 16.
pub open spec fn lower_hex_char(v: int) -> char {
    if v < 10 {
        ((v + 48) as u32) as char
    } else {
        ((v + 87) as u32) as char
    }
}

/// The 32 lower-case hexadecimal digits of sixteen bytes.
pub open spec fn lower_hex_digits(b: Seq<u8>) -> Seq<char> {
    Seq::new(
        32,
        |i: int|
            if i % 2 == 0 {
                lower_hex_char(b[i / 2] as int / 16)
            } else {
                lower_hex_char(b[i / 2] as int % 16)
            },
    )
}

/// 32 digits grouped as `8-4-4-4-12`.
pub open spec fn hyphenate(h: Seq<char>) -> Seq<char> {
    h.subrange(0, 8) + seq!['-'] + h.subrange(8, 12) + seq!['-'] + h.subrange(12, 16) + seq!['-']
        + h.subrange(16, 20) + seq!['-'] + h.subrange(20, 32)
}

/// The hyphenated lower-case text of sixteen bytes, as `Uuid`'s `Display`
/// writes it.
pub open spec fn hyphenated_lower(b: Seq<u8>) -> Seq<char> {
    hyphenate(lower_hex_digits(b))
}

/// The canonical text of a UUID written in any accepted form.
pub open spec fn canonical_uuid_text(s: Seq<char>) -> Option<Seq<char>> {
    match uuid_hex_digits(s) {
        Some(d) => Some(hyphenate(ascii_lower(d))),
        None => None,
    }
}

/// Calls `uuid::Uuid::parse_str` and hands out the parsed value's bytes
/// (`Uuid::as_bytes`). The contract restates the parser of the brought
/// version: an input is accepted exactly in the four forms of
/// `uuid_hex_digits`, and the bytes are its digits read in pairs.
#[verifier::external_body]
fn parse_uuid_bytes(input: &str) -> (r: Option<[u8; 16]>)
    ensures
        r is Some <==> uuid_hex_digits(input@) is Some,
        r matches Some(b) ==> b@ == bytes_of_digits(uuid_hex_digits(input@).unwrap()),
{
    match uuid::Uuid::parse_str(input) {
        Ok(u) => Some(*u.as_bytes()),
        Err(_) => None,
    }
}

/// Calls `uuid::Uuid::from_bytes` and then `to_string`, which writes the
/// value through `Display`: the hyphenated form in lower case.
#[verifier::external_body]
fn format_uuid(bytes: [u8; 16]) -> (r: String)
    ensures
        r@ == hyphenated_lower(bytes@),
{
    uuid::Uuid::from_bytes(bytes).to_string()
}

proof fn lemma_hex_digit_roundtrip(c: char)
    requires
        is_hex_digit(c),
    ensures
        0 <= hex_value(c) < 16,
        lower_hex_char(hex_value(c)) == ascii_lower_char(c),
{
}

proof fn lemma_byte_split(hi: int, lo: int)
    requires
        0 <= hi < 16,
        0 <= lo < 16,
    ensures
        (hi * 16 + lo) / 16 == hi,
        (hi * 16 + lo) % 16 == lo,
        0 <= hi * 16 + lo < 256,
{
    assert((hi * 16 + lo) / 16 == hi) by (nonlinear_arith)
        requires
            0 <= hi < 16,
            0 <= lo < 16,
    ;
    assert((hi * 16 + lo) % 16 == lo) by (nonlinear_arith)
        requires
            0 <= hi < 16,
            0 <= lo < 16,
    ;
    assert(0 <= hi * 16 + lo < 256) by (nonlinear_arith)
        requires
            0 <= hi < 16,
            0 <= lo < 16,
    ;
}

/// Reading 32 hexadecimal digits into bytes and writing them back out gives
/// the digits in lower case.
pub proof fn lemma_digits_roundtrip(d: Seq<char>)
    requires
        d.len() == 32,
        all_hex(d),
    ensures
        lower_hex_digits(bytes_of_digits(d)) == ascii_lower(d),
{
    let b = bytes_of_digits(d);
    assert forall|i: int| 0 <= i < 32 implies #[trigger] lower_hex_digits(b)[i] == ascii_lower(
        d,
    )[i] by {
        let j = i / 2;
        assert(0 <= j < 16);
        assert(2 * j == i || 2 * j + 1 == i);
        lemma_hex_digit_roundtrip(d[2 * j]);
        lemma_hex_digit_roundtrip(d[2 * j + 1]);
        lemma_byte_split(hex_value(d[2 * j]), hex_value(d[2 * j + 1]));
        assert(b[j] as int == hex_value(d[2 * j]) * 16 + hex_value(d[2 * j + 1]));
    }
    assert(lower_hex_digits(b) =~= ascii_lower(d));
}

/// The canonical text of a UUID given in any accepted form, or `None` when
/// the text is no UUID.
pub fn canonical_uuid(value: &str) -> (r: Option<String>)
    ensures
        match r {
            Some(s) => canonical_uuid_text(value@) == Some(s@),
            None => canonical_uuid_text(value@) is None,
        },
{
    match parse_uuid_bytes(value) {
        Some(bytes) => {
            let s = format_uuid(bytes);
            proof {
                let d = uuid_hex_digits(value@).unwrap();
                lemma_uuid_digits_are_hex(value@);
                lemma_digits_roundtrip(d);
            }
            Some(s)
        },
        None => None,
    }
}

proof fn lemma_hyphenated_hex_shape(s: Seq<char>)
    ensures
        hyphenated_hex(s) matches Some(d) ==> d.len() == 32 && all_hex(d),
{
    if s.len() == 36 {
        assert(hyphenated_digits(s).len() == 32);
    }
}

/// The digits found in an accepted text are 32 hexadecimal digits.
pub proof fn lemma_uuid_digits_are_hex(s: Seq<char>)
    ensures
        uuid_hex_digits(s) matches Some(d) ==> d.len() == 32 && all_hex(d),
{
    lemma_hyphenated_hex_shape(s);
    if s.len() >= 37 {
        lemma_hyphenated_hex_shape(s.subrange(1, 37));
    }
    if s.len() >= 45 {
        lemma_hyphenated_hex_shape(s.subrange(9, 45));
    }
}

/// The canonical text is itself accepted, and is its own canonical text.
pub proof fn lemma_canonical_is_fixed_point(s: Seq<char>)
    ensures
        canonical_uuid_text(s) matches Some(c) ==> c.len() == 36 && canonical_uuid_text(c) == Some(
            c,
        ),
{
    lemma_uuid_digits_are_hex(s);
    match uuid_hex_digits(s) {
        Some(d) => {
            let l = ascii_lower(d);
            let c = hyphenate(l);
            assert forall|i: int| 0 <= i < 32 implies is_hex_digit(#[trigger] l[i]) by {
                assert(is_hex_digit(d[i]));
            }
            assert(c.len() == 36);
            assert(hyphenated_digits(c) =~= l);
            assert(c[8] == '-' && c[13] == '-' && c[18] == '-' && c[23] == '-');
            assert(uuid_hex_digits(c) == Some(l));
            assert forall|i: int| 0 <= i < 32 implies #[trigger] ascii_lower(l)[i] == l[i] by {
                assert(is_hex_digit(d[i]));
            }
            assert(ascii_lower(l) =~= l);
        },
        None => {},
    }
}

/// Every text that the UUID parser accepts has a canonical text, whatever
/// its version and variant digits; no other text has one.
pub proof fn lemma_every_accepted_uuid_has_canonical_text(s: Seq<char>)
    ensures
        canonical_uuid_text(s) is Some <==> uuid_hex_digits(s) is Some,
{
}

/// The character is an ASCII hexadecimal digit, of either case.
pub open spec fn hex_char(c: char) -> bool {
    ('0' <= c && c <= '9') || ('a' <= c && c <= 'f') || ('A' <= c && c <= 'F')
}

/// Any text of 36 characters with hyphens at 8, 13, 18 and 23 and
/// hexadecimal digits (of either case) everywhere else is a UUID, whatever
/// its version, and its canonical text is the text itself in lower case.
pub proof fn lemma_hyphenated_uuid_is_accepted(s: Seq<char>)
    requires
        s.len() == 36,
        s[8] == '-',
        s[13] == '-',
        s[18] == '-',
        s[23] == '-',
        forall|i: int|
            0 <= i < 36 && i != 8 && i != 13 && i != 18 && i != 23 ==> hex_char(#[trigger] s[i]),
    ensures
        canonical_uuid_text(s) == Some(ascii_lower(s)),
{
    let d = hyphenated_digits(s);
    assert(d.len() == 32);
    assert forall|i: int| 0 <= i < 32 implies is_hex_digit(#[trigger] d[i]) by {
        if i < 8 {
            assert(d[i] == s[i]);
        } else if i < 12 {
            assert(d[i] == s[i + 1]);
        } else if i < 16 {
            assert(d[i] == s[i + 2]);
        } else if i < 20 {
            assert(d[i] == s[i + 3]);
        } else {
            assert(d[i] == s[i + 4]);
        }
    }
    assert(uuid_hex_digits(s) == Some(d));
    let c = hyphenate(ascii_lower(d));
    assert forall|k: int| 0 <= k < 36 implies #[trigger] c[k] == ascii_lower(s)[k] by {
        if k < 8 {
            assert(c[k] == ascii_lower_char(d[k]));
        } else if k == 8 || k == 13 || k == 18 || k == 23 {
        } else if k < 13 {
            assert(c[k] == ascii_lower_char(d[k - 1]));
        } else if k < 18 {
            assert(c[k] == ascii_lower_char(d[k - 2]));
        } else if k < 23 {
            assert(c[k] == ascii_lower_char(d[k - 3]));
        } else {
            assert(c[k] == ascii_lower_char(d[k - 4]));
        }
    }
    assert(c =~= ascii_lower(s));
}

/// Any text of 32 hexadecimal digits (of either case) is a UUID, whatever
/// its version; its canonical text is the digits in lower case, grouped
/// 8-4-4-4-12.
pub proof fn lemma_simple_uuid_is_accepted(s: Seq<char>)
    requires
        s.len() == 32,
        forall|i: int| 0 <= i < 32 ==> hex_char(#[trigger] s[i]),
    ensures
        canonical_uuid_text(s) == Some(hyphenate(ascii_lower(s))),
{
}

} // verus!
