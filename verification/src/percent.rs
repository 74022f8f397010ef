//! Percent-encoding and -decoding of URL text, specified on character sequences.
//!
//! The encoder's behaviour is stated exactly. The decoder's behaviour is stated
//! exactly for payloads whose escapes name ASCII bytes; for other payloads the
//! result is only named, since stating it would mean writing out UTF-8 validation.

use vstd::prelude::*;
use vstd::string::StringSliceAdditionalSpecFns;

verus! {

/// `c` is an ASCII hexadecimal digit.
pub open spec fn is_hex_char(c: char) -> bool {
    ('0' as u32 <= c as u32 && c as u32 <= '9' as u32) || ('a' as u32 <= c as u32 && c as u32
        <= 'f' as u32) || ('A' as u32 <= c as u32 && c as u32 <= 'F' as u32)
}

/// Numeric value of an ASCII hexadecimal digit.
pub open spec fn hex_val(c: char) -> int {
    if '0' as u32 <= c as u32 && c as u32 <= '9' as u32 {
        (c as u32) as int - ('0' as u32) as int
    } else if 'a' as u32 <= c as u32 && c as u32 <= 'f' as u32 {
        (c as u32) as int - ('a' as u32) as int + 10
    } else {
        (c as u32) as int - ('A' as u32) as int + 10
    }
}

/// A `%hh` escape starts at index `i` of `s`.
pub open spec fn is_escape_at(s: Seq<char>, i: int) -> bool {
    0 <= i && i + 3 <= s.len() && s[i] == '%' && is_hex_char(s[i + 1]) && is_hex_char(s[i + 2])
}

/// The byte value named by the escape starting at index `i`.
pub open spec fn escape_val(s: Seq<char>, i: int) -> int {
    16 * hex_val(s[i + 1]) + hex_val(s[i + 2])
}

/// Every escape in `s` names an ASCII byte.
pub open spec fn ascii_escapes_only(s: Seq<char>) -> bool {
    forall|i: int| is_escape_at(s, i) ==> escape_val(s, i) < 128
}

/// Every `%` in `s` begins an escape, and every escape names an ASCII byte
/// other than `%` itself.
pub open spec fn well_formed_escapes(s: Seq<char>) -> bool {
    forall|i: int|
        0 <= i < s.len() && s[i] == '%' ==> #[trigger] is_escape_at(s, i) && escape_val(s, i) < 128
            && escape_val(s, i) != '%' as int
}

/// Percent-decoding at character level: each `%hh` escape becomes the character
/// whose code is the named byte, every other character passes through unchanged.
/// This describes the decoded text exactly whenever all escapes name ASCII bytes.
pub open spec fn spec_decode_ascii(s: Seq<char>) -> Seq<char>
    decreases s.len(),
{
    if s.len() == 0 {
        s
    } else if is_escape_at(s, 0) {
        seq![(escape_val(s, 0) as u8) as char] + spec_decode_ascii(s.skip(3))
    } else {
        seq![s[0]] + spec_decode_ascii(s.skip(1))
    }
}

/// What `urlencoding::decode` returns on a payload, when the decoded bytes form
/// valid UTF-8; `None` where they do not.
pub uninterp spec fn pct_decoded(s: Seq<char>) -> Option<Seq<char>>;

/// Relies on `urlencoding::decode`: each `%hh` escape (`hh` two hexadecimal
/// digits) becomes the byte it names, every other byte passes through unchanged,
/// and the decoded text is returned only when its bytes form valid UTF-8. When
/// all escapes name ASCII bytes the original characters are untouched, so the
/// result is always valid and equals the character-level decoding above.
#[verifier::external_body]
pub(crate) fn percent_decode(s: &str) -> (r: Option<String>)
    ensures
        r.deep_view() == pct_decoded(s@),
        r.deep_view() == if ascii_escapes_only(s@) {
            Some(spec_decode_ascii(s@))
        } else {
            pct_decoded(s@)
        },
{
    match urlencoding::decode(s) {
        Ok(cow) => Some(cow.into_owned()),
        Err(_) => None,
    }
}

/// `b` needs no escaping: ASCII alphanumeric or one of `-`, `.`, `_`, `~`.
pub open spec fn is_unreserved_byte(b: u8) -> bool {
    (('0' as u8) <= b && b <= ('9' as u8)) || (('A' as u8) <= b && b <= ('Z' as u8)) || (('a'
        as u8) <= b && b <= ('z' as u8)) || b == ('-' as u8) || b == ('.' as u8) || b == ('_'
        as u8) || b == ('~' as u8)
}

/// Upper-case hexadecimal digit for a value below 16.
pub open spec fn upper_hex_char(v: int) -> char {
    if v < 10 {
        (('0' as u8) + v as u8) as char
    } else {
        (('A' as u8) + (v - 10) as u8) as char
    }
}

/// Percent-encoding at byte level: unreserved bytes pass through, every other
/// byte becomes `%HH` with upper-case hexadecimal digits.
pub open spec fn spec_encode_bytes(bs: Seq<u8>) -> Seq<char>
    decreases bs.len(),
{
    if bs.len() == 0 {
        Seq::empty()
    } else {
        (if is_unreserved_byte(bs[0]) {
            seq![bs[0] as char]
        } else {
            seq!['%', upper_hex_char(bs[0] as int / 16), upper_hex_char(bs[0] as int % 16)]
        }) + spec_encode_bytes(bs.skip(1))
    }
}

/// Relies on `urlencoding::encode`: every byte of the UTF-8 encoding of `s`
/// except ASCII alphanumerics and `-`, `.`, `_`, `~` is replaced by `%HH` with
/// upper-case hexadecimal digits.
#[verifier::external_body]
pub(crate) fn percent_encode(s: &str) -> (r: String)
    ensures
        r@ == spec_encode_bytes(s.spec_bytes()),
{
    urlencoding::encode(s).into_owned()
}

/// Payloads whose escapes are all well formed have ASCII escapes only.
pub proof fn lemma_well_formed_is_ascii(s: Seq<char>)
    requires
        well_formed_escapes(s),
    ensures
        ascii_escapes_only(s),
{
    assert forall|i: int| is_escape_at(s, i) implies escape_val(s, i) < 128 by {
        assert(s[i] == '%');
    }
}

/// Law: decoding a payload whose escapes are all well formed leaves no residual
/// percent escape — indeed no `%` at all remains in the decoded text.
pub proof fn lemma_decode_leaves_no_escape(s: Seq<char>)
    requires
        well_formed_escapes(s),
    ensures
        forall|i: int|
            0 <= i < spec_decode_ascii(s).len() ==> #[trigger] spec_decode_ascii(s)[i] != '%',
    decreases s.len(),
{
    if s.len() == 0 {
    } else if is_escape_at(s, 0) {
        assert(s[0] == '%');
        assert(is_hex_char(s[1]) && is_hex_char(s[2]));
        assert(0 <= hex_val(s[1]) < 16 && 0 <= hex_val(s[2]) < 16);
        assert(escape_val(s, 0) != '%' as int && escape_val(s, 0) < 128);
        assert((escape_val(s, 0) as u8) as char != '%') by {
            assert(0 <= escape_val(s, 0) < 128);
        }
        assert(well_formed_escapes(s.skip(3))) by {
            assert forall|j: int| 0 <= j < s.skip(3).len() && s.skip(3)[j] == '%' implies #[trigger] is_escape_at(s.skip(3), j) && escape_val(s.skip(3), j) < 128 && escape_val(
                s.skip(3),
                j,
            ) != '%' as int by {
                assert(s[j + 3] == '%');
                assert(is_escape_at(s, j + 3));
                assert(s.skip(3)[j + 1] == s[j + 4]);
                assert(s.skip(3)[j + 2] == s[j + 5]);
            }
        }
        lemma_decode_leaves_no_escape(s.skip(3));
        assert forall|i: int| 0 <= i < spec_decode_ascii(s).len() implies #[trigger] spec_decode_ascii(s)[i] != '%' by {
            if i == 0 {
                assert(spec_decode_ascii(s)[0] == (escape_val(s, 0) as u8) as char);
            } else {
                assert(spec_decode_ascii(s)[i] == spec_decode_ascii(s.skip(3))[i - 1]);
            }
        }
    } else {
        assert(s[0] != '%');
        assert(well_formed_escapes(s.skip(1))) by {
            assert forall|j: int| 0 <= j < s.skip(1).len() && s.skip(1)[j] == '%' implies #[trigger] is_escape_at(s.skip(1), j) && escape_val(s.skip(1), j) < 128 && escape_val(
                s.skip(1),
                j,
            ) != '%' as int by {
                assert(s[j + 1] == '%');
                assert(is_escape_at(s, j + 1));
                assert(s.skip(1)[j + 1] == s[j + 2]);
                assert(s.skip(1)[j + 2] == s[j + 3]);
            }
        }
        lemma_decode_leaves_no_escape(s.skip(1));
        assert forall|i: int| 0 <= i < spec_decode_ascii(s).len() implies #[trigger] spec_decode_ascii(s)[i] != '%' by {
            if i == 0 {
                assert(spec_decode_ascii(s)[0] == s[0]);
            } else {
                assert(spec_decode_ascii(s)[i] == spec_decode_ascii(s.skip(1))[i - 1]);
            }
        }
    }
}

} // verus!
