//! Base64 and the PEM armour around it.

use vstd::prelude::*;

verus! {

/// The base64 character of value `n`.
pub open spec fn base64_char(n: int) -> char {
    if n < 26 {
        (0x41 + n) as char
    } else if n < 52 {
        (0x61 + n - 26) as char
    } else if n < 62 {
        (0x30 + n - 52) as char
    } else if n == 62 {
        '+'
    } else {
        '/'
    }
}

/// The value of a base64 character.
pub open spec fn base64_value(c: char) -> int {
    if 'A' <= c <= 'Z' {
        c as int - 0x41
    } else if 'a' <= c <= 'z' {
        c as int - 0x61 + 26
    } else if '0' <= c <= '9' {
        c as int - 0x30 + 52
    } else if c == '+' {
        62
    } else {
        63
    }
}

/// The standard base64 text of `data`, with padding: three bytes make four characters of
/// six bits each, and `=` fills up the last four.
pub open spec fn base64_text(data: Seq<u8>) -> Seq<char>
    decreases data.len(),
{
    let b0 = data[0] as int;
    let b1 = data[1] as int;
    let b2 = data[2] as int;
    if data.len() == 0 {
        Seq::empty()
    } else if data.len() == 1 {
        seq![base64_char(b0 / 4), base64_char(b0 % 4 * 16), '=', '=']
    } else if data.len() == 2 {
        seq![
            base64_char(b0 / 4),
            base64_char(b0 % 4 * 16 + b1 / 16),
            base64_char(b1 % 16 * 4),
            '=',
        ]
    } else {
        seq![
            base64_char(b0 / 4),
            base64_char(b0 % 4 * 16 + b1 / 16),
            base64_char(b1 % 16 * 4 + b2 / 64),
            base64_char(b2 % 64),
        ] + base64_text(data.skip(3))
    }
}

/// The bytes that a padded base64 text stands for.
pub open spec fn base64_bytes(text: Seq<char>) -> Seq<u8>
    decreases text.len(),
{
    let v0 = base64_value(text[0]);
    let v1 = base64_value(text[1]);
    let v2 = base64_value(text[2]);
    let v3 = base64_value(text[3]);
    if text.len() < 4 {
        Seq::empty()
    } else if text[2] == '=' {
        seq![(v0 * 4 + v1 / 16) as u8]
    } else if text[3] == '=' {
        seq![(v0 * 4 + v1 / 16) as u8, (v1 % 16 * 16 + v2 / 4) as u8]
    } else {
        seq![
            (v0 * 4 + v1 / 16) as u8,
            (v1 % 16 * 16 + v2 / 4) as u8,
            (v2 % 4 * 64 + v3) as u8,
        ] + base64_bytes(text.skip(4))
    }
}

/// Calls `Engine::encode` of the `base64` crate with the engine `STANDARD`. Claimed: the
/// result is the text of the argument in the standard alphabet with padding. The call
/// panics only where the length of the text exceeds `usize`, which no slice reaches.
#[verifier::external_body]
pub(crate) fn base64_encode(data: &[u8]) -> (out: String)
    ensures
        out@ == base64_text(data@),
{
    base64::Engine::encode(&base64::engine::general_purpose::STANDARD, data)
}

/// `text` cut into lines of 64 characters, each closed by `eol`; the last line may be
/// shorter.
pub open spec fn wrapped_lines(text: Seq<char>, eol: Seq<char>) -> Seq<char>
    decreases text.len(),
{
    if text.len() == 0 {
        Seq::empty()
    } else if text.len() <= 64 {
        text + eol
    } else {
        text.take(64) + eol + wrapped_lines(text.skip(64), eol)
    }
}

/// The PEM section of the given label around `der`.
pub open spec fn pem_section(label: Seq<char>, der: Seq<u8>, eol: Seq<char>) -> Seq<char> {
    "-----BEGIN "@ + label + "-----"@ + eol + wrapped_lines(base64_text(der), eol) + "-----END "@
        + label + "-----"@ + eol
}

/// `text` is the PEM section of the given label around `der`, with the line ends of
/// either family of platforms.
pub open spec fn is_pem_section(text: Seq<char>, label: Seq<char>, der: Seq<u8>) -> bool {
    text == pem_section(label, der, "\n"@) || text == pem_section(label, der, "\r\n"@)
}

proof fn lemma_value_of_char(n: int)
    requires
        0 <= n < 64,
    ensures
        base64_value(base64_char(n)) == n,
        base64_char(n) != '=',
{
}

/// Decoding a base64 text gives back the bytes that were encoded.
pub proof fn law_base64_round_trip(data: Seq<u8>)
    ensures
        base64_bytes(base64_text(data)) == data,
    decreases data.len(),
{
    let text = base64_text(data);
    if data.len() == 0 {
        assert(base64_bytes(text) =~= data);
    } else {
        let b0 = data[0] as int;
        lemma_value_of_char(b0 / 4);
        if data.len() == 1 {
            lemma_value_of_char(b0 % 4 * 16);
            assert(base64_bytes(text) =~= data);
        } else {
            let b1 = data[1] as int;
            lemma_value_of_char(b0 % 4 * 16 + b1 / 16);
            if data.len() == 2 {
                lemma_value_of_char(b1 % 16 * 4);
                assert(base64_bytes(text) =~= data);
            } else {
                let b2 = data[2] as int;
                lemma_value_of_char(b1 % 16 * 4 + b2 / 64);
                lemma_value_of_char(b2 % 64);
                law_base64_round_trip(data.skip(3));
                assert(text.skip(4) =~= base64_text(data.skip(3)));
                assert(base64_bytes(text) =~= data);
            }
        }
    }
}

/// A base64 text is made of groups of four characters: one for each three bytes, and one
/// for what is left over. Nothing in it but letters, digits, `+`, `/` and `=`.
pub proof fn law_base64_is_plain_text(data: Seq<u8>, i: int)
    ensures
        base64_text(data).len() == (data.len() + 2) / 3 * 4,
        0 <= i < base64_text(data).len() ==> {
            let c = base64_text(data)[i];
            'A' <= c <= 'Z' || 'a' <= c <= 'z' || '0' <= c <= '9' || c == '+' || c == '/' || c
                == '='
        },
    decreases data.len(),
{
    if data.len() >= 3 {
        law_base64_is_plain_text(data.skip(3), i - 4);
    }
}

/// The three bytes of a group are read off its four characters, six bits from each, in the
/// standard alphabet; the groups follow one another.
pub proof fn law_base64_groups(data: Seq<u8>, value: spec_fn(char) -> int)
    requires
        data.len() >= 3,
        forall|c: char| 'A' <= c <= 'Z' ==> #[trigger] value(c) == c as int - 'A' as int,
        forall|c: char| 'a' <= c <= 'z' ==> #[trigger] value(c) == c as int - 'a' as int + 26,
        forall|c: char| '0' <= c <= '9' ==> #[trigger] value(c) == c as int - '0' as int + 52,
        value('+') == 62,
        value('/') == 63,
    ensures
        ({
            let t = base64_text(data);
            &&& value(t[0]) * 262144 + value(t[1]) * 4096 + value(t[2]) * 64 + value(t[3])
                == data[0] * 65536 + data[1] * 256 + data[2]
            &&& t.skip(4) == base64_text(data.skip(3))
        }),
{
    let t = base64_text(data);
    let (b0, b1, b2) = (data[0] as int, data[1] as int, data[2] as int);
    assert(t.skip(4) =~= base64_text(data.skip(3)));
    assert(value(t[0]) == b0 / 4);
    assert(value(t[1]) == b0 % 4 * 16 + b1 / 16);
    assert(value(t[2]) == b1 % 16 * 4 + b2 / 64);
    assert(value(t[3]) == b2 % 64);
}

} // verus!
