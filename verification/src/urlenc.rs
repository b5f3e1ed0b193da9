//! Percent-encoding of query values (through the `urlencoding` crate).

use vstd::prelude::*;
use vstd::utf8::encode_utf8;

verus! {

/// Bytes left as they are: ASCII letters, digits, `-`, `.`, `_`, `~`.
pub open spec fn is_unreserved(b: u8) -> bool {
    ||| 48 <= b <= 57
    ||| 65 <= b <= 90
    ||| 97 <= b <= 122
    ||| b == 45
    ||| b == 46
    ||| b == 95
    ||| b == 126
}

/// Upper-case hexadecimal digit for `d < 16`.
pub open spec fn hex_upper(d: nat) -> char {
    if d < 10 {
        ((d + 48) as u8) as char
    } else {
        ((d + 55) as u8) as char
    }
}

/// Percent-encoding of a byte string: unreserved bytes stay, every other
/// byte becomes `%` and two upper-case hexadecimal digits.
pub open spec fn percent_encode(bytes: Seq<u8>) -> Seq<char>
    decreases bytes.len(),
{
    if bytes.len() == 0 {
        Seq::empty()
    } else {
        let b = bytes.last();
        percent_encode(bytes.drop_last()) + if is_unreserved(b) {
            seq![b as char]
        } else {
            seq!['%', hex_upper(b as nat / 16), hex_upper(b as nat % 16)]
        }
    }
}

/// Percent-encoding of the UTF-8 bytes of a text.
pub open spec fn url_encoded(s: Seq<char>) -> Seq<char> {
    percent_encode(encode_utf8(s))
}

/// A character that may appear in percent-encoded text.
pub open spec fn is_encoded_char(c: char) -> bool {
    ||| ('0' <= c <= '9')
    ||| ('A' <= c <= 'Z')
    ||| ('a' <= c <= 'z')
    ||| c == '-'
    ||| c == '.'
    ||| c == '_'
    ||| c == '~'
    ||| c == '%'
}

/// `urlencoding::encode`. Trusted: the crate percent-encodes every byte of
/// the UTF-8 text except ASCII letters, digits and `-`, `_`, `.`, `~`, with
/// upper-case hexadecimal digits.
#[verifier::external_body]
pub(crate) fn url_encode(s: &str) -> (r: String)
    ensures
        r@ == url_encoded(s@),
{
    urlencoding::encode(s).into_owned()
}

/// Percent-encoded text holds only unreserved characters, `%` and
/// hexadecimal digits, so it cannot end a query value or start another
/// parameter (no `&`, `=`, `#`, `?`, space or non-ASCII character).
pub proof fn law_encoded_text_is_query_safe(bytes: Seq<u8>)
    ensures
        forall|i: int|
            0 <= i < percent_encode(bytes).len() ==> is_encoded_char(
                #[trigger] percent_encode(bytes)[i],
            ),
    decreases bytes.len(),
{
    if bytes.len() > 0 {
        law_encoded_text_is_query_safe(bytes.drop_last());
        let p = percent_encode(bytes.drop_last());
        let b = bytes.last();
        let tail = if is_unreserved(b) {
            seq![b as char]
        } else {
            seq!['%', hex_upper(b as nat / 16), hex_upper(b as nat % 16)]
        };
        assert forall|i: int| 0 <= i < tail.len() implies is_encoded_char(#[trigger] tail[i]) by {
            if !is_unreserved(b) && i > 0 {
                let d = if i == 1 {
                    b as nat / 16
                } else {
                    b as nat % 16
                };
                assert(d < 16);
            }
        }
        assert forall|i: int| 0 <= i < percent_encode(bytes).len() implies is_encoded_char(
            #[trigger] percent_encode(bytes)[i],
        ) by {
            if i < p.len() {
                assert(percent_encode(bytes)[i] == p[i]);
            } else {
                assert(percent_encode(bytes)[i] == tail[i - p.len()]);
            }
        }
    }
}

} // verus!
