//! User identifiers: UUIDs as 128-bit integers, their text form and parsing
//! (through the `uuid` crate).

use vstd::prelude::*;
use vstd::utf8::{encode_utf8, is_ascii_chars, is_ascii_chars_encode_utf8};
use uuid::Uuid;

verus! {

/// Lower-case hexadecimal digit for `d < 16`.
pub open spec fn hex_lower(d: nat) -> char {
    if d < 10 {
        ((d + 48) as u8) as char
    } else {
        ((d + 87) as u8) as char
    }
}

/// The `n` lowest hexadecimal digits of `v`, most significant first.
pub open spec fn hex_digits(v: nat, n: nat) -> Seq<char>
    decreases n,
{
    if n == 0 {
        Seq::empty()
    } else {
        hex_digits(v / 16, (n - 1) as nat).push(hex_lower(v % 16))
    }
}

/// The hyphenated lower-case text of a UUID given as a big-endian 128-bit
/// integer, e.g. `a1a2a3a4-b1b2-c1c2-d1d2-d3d4d5d6d7d8`.
pub open spec fn uuid_hyphenated(v: u128) -> Seq<char> {
    let h = hex_digits(v as nat, 32);
    h.subrange(0, 8) + seq!['-'] + h.subrange(8, 12) + seq!['-'] + h.subrange(12, 16) + seq!['-']
        + h.subrange(16, 20) + seq!['-'] + h.subrange(20, 32)
}

/// What `uuid::Uuid::parse_str` yields for a text, as a 128-bit integer.
pub uninterp spec fn uuid_parse_result(s: Seq<char>) -> Option<u128>;

/// Whether a text has the UTF-8 length of one of the forms the parser
/// reads: simple (32 bytes), hyphenated (36), braced (38) or URN (45).
pub open spec fn uuid_length_possible(s: Seq<char>) -> bool {
    let n = encode_utf8(s).len();
    n == 32 || n == 36 || n == 38 || n == 45
}

/// The UUID read from a text: none for a text of any other length than the
/// parser's forms, otherwise the parser's result.
pub open spec fn uuid_of_text(s: Seq<char>) -> Option<u128> {
    if uuid_length_possible(s) {
        uuid_parse_result(s)
    } else {
        None
    }
}

/// `uuid::Uuid::parse_str`, with the UUID read back as `as_u128`. Trusted:
/// the result is the parser's, named `uuid_parse_result`; the parser turns
/// down every text whose length in bytes is not 32, 36, 38 or 45 before
/// looking at it; and, as the crate documents, the hyphenated form of a
/// UUID parses back to the same UUID. Which other texts of those lengths
/// are accepted is not stated.
#[verifier::external_body]
pub(crate) fn parse_uuid(s: &str) -> (r: Option<u128>)
    ensures
        r == uuid_parse_result(s@),
        !uuid_length_possible(s@) ==> r is None,
        forall|v: u128| s@ == uuid_hyphenated(v) ==> r == Some(v),
{
    match Uuid::parse_str(s) {
        Ok(u) => Some(u.as_u128()),
        Err(_) => None,
    }
}

/// `uuid::Uuid::from_u128` followed by `to_string`. Trusted: the crate
/// formats a UUID as hyphenated lower-case hexadecimal of its big-endian
/// bytes.
#[verifier::external_body]
pub(crate) fn uuid_text(v: u128) -> (s: String)
    ensures
        s@ == uuid_hyphenated(v),
{
    Uuid::from_u128(v).to_string()
}

/// Every character of `hex_digits` is a lower-case hexadecimal digit.
pub proof fn lemma_hex_digits_chars(v: nat, n: nat)
    ensures
        hex_digits(v, n).len() == n,
        forall|i: int|
            0 <= i < n ==> {
                let c = #[trigger] hex_digits(v, n)[i];
                ('0' <= c <= '9') || ('a' <= c <= 'f')
            },
    decreases n,
{
    if n > 0 {
        lemma_hex_digits_chars(v / 16, (n - 1) as nat);
        let d = v % 16;
        assert(d < 16);
    }
}

/// The text of a UUID is 36 characters of hexadecimal digits and hyphens.
pub proof fn lemma_uuid_text_chars(v: u128)
    ensures
        uuid_hyphenated(v).len() == 36,
        forall|i: int|
            0 <= i < 36 ==> {
                let c = #[trigger] uuid_hyphenated(v)[i];
                ('0' <= c <= '9') || ('a' <= c <= 'f') || c == '-'
            },
{
    let h = hex_digits(v as nat, 32);
    lemma_hex_digits_chars(v as nat, 32);
    let t = uuid_hyphenated(v);
    assert forall|i: int| 0 <= i < 36 implies {
        let c = #[trigger] t[i];
        ('0' <= c <= '9') || ('a' <= c <= 'f') || c == '-'
    } by {
        if i < 8 {
            assert(t[i] == h[i]);
        } else if i == 8 {
        } else if i < 13 {
            assert(t[i] == h[i - 1]);
        } else if i == 13 {
        } else if i < 18 {
            assert(t[i] == h[i - 2]);
        } else if i == 18 {
        } else if i < 23 {
            assert(t[i] == h[i - 3]);
        } else if i == 23 {
        } else {
            assert(t[i] == h[i - 4]);
        }
    }
}

/// The hyphenated text of a UUID has one of the lengths the parser reads;
/// the empty text has none of them.
pub proof fn lemma_uuid_text_length(v: u128)
    ensures
        uuid_length_possible(uuid_hyphenated(v)),
        !uuid_length_possible(Seq::<char>::empty()),
{
    let t = uuid_hyphenated(v);
    lemma_uuid_text_chars(v);
    assert(is_ascii_chars(t)) by {
        assert forall|i: int| 0 <= i < t.len() implies '\0' <= #[trigger] t[i] <= '\u{7f}' by {
            assert(('0' <= t[i] <= '9') || ('a' <= t[i] <= 'f') || t[i] == '-');
        }
    }
    is_ascii_chars_encode_utf8(t);
    assert(encode_utf8(Seq::<char>::empty()).len() == 0);
}

} // verus!
