//! Percent encoding of URL query values.

use vstd::prelude::*;
use vstd::string::*;
use vstd::utf8::*;

verus! {

/// The bytes that stand for themselves: letters, digits and `-`, `_`, `.`, `~`.
pub open spec fn unreserved(b: u8) -> bool {
    ||| 0x41 <= b <= 0x5a
    ||| 0x61 <= b <= 0x7a
    ||| 0x30 <= b <= 0x39
    ||| b == 0x2d
    ||| b == 0x5f
    ||| b == 0x2e
    ||| b == 0x7e
}

/// The upper-case hexadecimal digit of value `n`.
pub open spec fn hex_digit(n: int) -> char {
    if n < 10 {
        (0x30 + n) as char
    } else {
        (0x41 + n - 10) as char
    }
}

/// The value of a hexadecimal digit.
pub open spec fn hex_value(c: char) -> int {
    if c <= '9' {
        c as int - 0x30
    } else {
        c as int - 0x41 + 10
    }
}

/// How one byte is written.
pub open spec fn percent_byte(b: u8) -> Seq<char> {
    if unreserved(b) {
        seq![b as char]
    } else {
        seq!['%', hex_digit(b as int / 16), hex_digit(b as int % 16)]
    }
}

/// How a sequence of bytes is written: each byte in its turn.
pub open spec fn percent_encoded(bytes: Seq<u8>) -> Seq<char>
    decreases bytes.len(),
{
    if bytes.len() == 0 {
        Seq::empty()
    } else {
        percent_encoded(bytes.drop_last()) + percent_byte(bytes.last())
    }
}

/// The bytes that a percent-encoded text stands for.
pub open spec fn percent_decoded(text: Seq<char>) -> Seq<u8>
    decreases text.len(),
{
    if text.len() == 0 {
        Seq::empty()
    } else if text[0] == '%' && text.len() >= 3 {
        seq![(hex_value(text[1]) * 16 + hex_value(text[2])) as u8] + percent_decoded(text.skip(3))
    } else {
        seq![text[0] as u8] + percent_decoded(text.skip(1))
    }
}

fn exec_unreserved(b: u8) -> (kept: bool)
    ensures
        kept == unreserved(b),
{
    (0x41 <= b && b <= 0x5a) || (0x61 <= b && b <= 0x7a) || (0x30 <= b && b <= 0x39) || b == 0x2d
        || b == 0x5f || b == 0x2e || b == 0x7e
}

fn exec_hex_digit(n: u8) -> (c: char)
    requires
        n < 16,
    ensures
        c == hex_digit(n as int),
{
    if n < 10 {
        (0x30 + n) as char
    } else {
        (0x41 + (n - 10)) as char
    }
}

/// Escapes `s` for use as the value of a query parameter: the bytes of its UTF-8
/// encoding that are not unreserved are written as `%` and two upper-case digits.
pub fn urlencoding(s: &str) -> (out: String)
    ensures
        out@ == percent_encoded(s.spec_bytes()),
{
    let bytes: &[u8] = s.as_bytes();
    let mut out = String::new();
    for i in 0..bytes.len()
        invariant
            out@ == percent_encoded(bytes@.take(i as int)),
    {
        let b: u8 = bytes[i];
        proof {
            assert(bytes@.take(i + 1).drop_last() =~= bytes@.take(i as int));
            assert(bytes@.take(i + 1).last() == b);
        }
        if exec_unreserved(b) {
            out.push(b as char);
        } else {
            out.push('%');
            out.push(exec_hex_digit(b / 16));
            out.push(exec_hex_digit(b % 16));
        }
        assert(out@ =~= percent_encoded(bytes@.take(i as int)) + percent_byte(b));
    }
    proof {
        assert(bytes@.take(bytes.len() as int) =~= bytes@);
    }
    out
}

proof fn lemma_encoded_front(bytes: Seq<u8>)
    requires
        bytes.len() > 0,
    ensures
        percent_encoded(bytes) == percent_byte(bytes[0]) + percent_encoded(bytes.drop_first()),
    decreases bytes.len(),
{
    if bytes.len() == 1 {
        assert(bytes.drop_last() =~= Seq::empty());
        assert(bytes.drop_first() =~= Seq::empty());
        assert(percent_encoded(bytes) =~= percent_byte(bytes[0]) + percent_encoded(
            bytes.drop_first(),
        ));
    } else {
        lemma_encoded_front(bytes.drop_last());
        assert(bytes.drop_last().drop_first() =~= bytes.drop_first().drop_last());
        assert(percent_encoded(bytes) =~= percent_byte(bytes[0]) + percent_encoded(
            bytes.drop_first(),
        ));
    }
}

/// Decoding an encoded value gives back the bytes that were encoded, so two values that
/// differ are never written alike.
pub proof fn law_decoding_undoes_encoding(bytes: Seq<u8>)
    ensures
        percent_decoded(percent_encoded(bytes)) == bytes,
    decreases bytes.len(),
{
    if bytes.len() > 0 {
        lemma_encoded_front(bytes);
        law_decoding_undoes_encoding(bytes.drop_first());
        let b = bytes[0];
        let text = percent_encoded(bytes);
        let head = percent_byte(b);
        assert(text.skip(head.len() as int) =~= percent_encoded(bytes.drop_first()));
        assert(text[0] == head[0]);
        if !unreserved(b) {
            assert(text[1] == head[1] && text[2] == head[2]);
        }
        assert(percent_decoded(text) =~= bytes);
    }
}

/// Whatever the bytes, the encoding is made of unreserved characters and `%`: nothing in
/// it can end the value or start another parameter.
pub proof fn law_encoding_is_url_safe(bytes: Seq<u8>, i: int)
    requires
        0 <= i < percent_encoded(bytes).len(),
    ensures
        percent_encoded(bytes)[i] == '%' || exists|b: u8|
            unreserved(b) && percent_encoded(bytes)[i] == b as char,
    decreases bytes.len(),
{
    let front = percent_encoded(bytes.drop_last());
    if i < front.len() {
        law_encoding_is_url_safe(bytes.drop_last(), i);
    } else {
        let b = bytes.last();
        let c = percent_byte(b)[i - front.len()];
        assert(percent_encoded(bytes)[i] == c);
        if unreserved(b) {
            assert(c == b as char);
        } else if i > front.len() {
            let w = c as u8;
            assert(unreserved(w) && c == w as char);
        }
    }
}

/// A value of unreserved characters is written as it stands.
pub proof fn law_unreserved_text_is_kept(bytes: Seq<u8>)
    requires
        forall|i: int| 0 <= i < bytes.len() ==> unreserved(bytes[i]),
    ensures
        percent_encoded(bytes) == bytes.map_values(|b: u8| b as char),
    decreases bytes.len(),
{
    if bytes.len() > 0 {
        law_unreserved_text_is_kept(bytes.drop_last());
        assert(percent_encoded(bytes) =~= bytes.map_values(|b: u8| b as char));
    } else {
        assert(percent_encoded(bytes) =~= bytes.map_values(|b: u8| b as char));
    }
}

/// The bytes of a text are written in their turn, each by itself.
pub proof fn law_bytes_are_written_one_by_one(a: Seq<u8>, b: Seq<u8>)
    ensures
        percent_encoded(a + b) == percent_encoded(a) + percent_encoded(b),
    decreases b.len(),
{
    if b.len() == 0 {
        assert(a + b =~= a);
        assert(percent_encoded(a) + percent_encoded(b) =~= percent_encoded(a));
    } else {
        law_bytes_are_written_one_by_one(a, b.drop_last());
        assert((a + b).drop_last() =~= a + b.drop_last());
        assert(percent_encoded(a + b) =~= percent_encoded(a) + percent_encoded(b));
    }
}

/// A letter, a digit, `-`, `_`, `.` and `~` stand for themselves. Every other byte is
/// written as `%` and two hexadecimal digits in upper case that number it.
pub proof fn law_what_is_escaped_and_how(b: u8)
    ensures
        ({
            let text = percent_encoded(seq![b]);
            let c = b as char;
            let (high, low) = (text[1], text[2]);
            if 'A' <= c <= 'Z' || 'a' <= c <= 'z' || '0' <= c <= '9' || c == '-' || c == '_' || c
                == '.' || c == '~' {
                text == seq![c]
            } else {
                &&& text.len() == 3
                &&& text[0] == '%'
                &&& '0' <= high <= '9' || 'A' <= high <= 'F'
                &&& '0' <= low <= '9' || 'A' <= low <= 'F'
                &&& b / 16 == if high <= '9' {
                    high as int - '0' as int
                } else {
                    high as int - 'A' as int + 10
                }
                &&& b % 16 == if low <= '9' {
                    low as int - '0' as int
                } else {
                    low as int - 'A' as int + 10
                }
            }
        }),
{
    assert(seq![b].drop_last() =~= Seq::empty());
    assert(percent_encoded(Seq::<u8>::empty()) =~= Seq::empty());
    assert(percent_encoded(seq![b]) =~= percent_byte(b));
}

/// A text is escaped byte by byte in UTF-8, as the laws on bytes say.
pub proof fn law_text_is_escaped_as_its_bytes(s: &str, out: String)
    requires
        call_ensures(urlencoding, (s,), out),
    ensures
        out@ == percent_encoded(encode_utf8(s@)),
        percent_decoded(out@) == encode_utf8(s@),
{
    law_decoding_undoes_encoding(encode_utf8(s@));
}

} // verus!
