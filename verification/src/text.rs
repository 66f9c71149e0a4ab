//! Text: comparison, trimming, and the passage between bytes and strings.

use vstd::prelude::*;
use vstd::string::*;
use vstd::utf8::*;

verus! {

/// The characters of an optional string.
pub open spec fn opt_text(text: Option<String>) -> Option<Seq<char>> {
    match text {
        Some(s) => Some(s@),
        None => None,
    }
}

/// The characters of a string, or of the empty string where there is none.
pub open spec fn text_or_empty(text: Option<Seq<char>>) -> Seq<char> {
    match text {
        Some(s) => s,
        None => Seq::empty(),
    }
}

/// `String::push` of std appends one character to the end of the string.
pub assume_specification[ String::push ](s: &mut String, c: char)
    ensures
        final(s)@ == old(s)@.push(c),
;

/// The characters with the Unicode property `White_Space`.
pub open spec fn white_space(c: char) -> bool {
    ||| '\u{9}' <= c <= '\u{d}'
    ||| c == '\u{20}'
    ||| c == '\u{85}'
    ||| c == '\u{a0}'
    ||| c == '\u{1680}'
    ||| '\u{2000}' <= c <= '\u{200a}'
    ||| c == '\u{2028}'
    ||| c == '\u{2029}'
    ||| c == '\u{202f}'
    ||| c == '\u{205f}'
    ||| c == '\u{3000}'
}

/// `s` without its leading white space.
pub open spec fn trimmed_start(s: Seq<char>) -> Seq<char>
    decreases s.len(),
{
    if s.len() > 0 && white_space(s[0]) {
        trimmed_start(s.drop_first())
    } else {
        s
    }
}

/// `s` without its trailing white space.
pub open spec fn trimmed_end(s: Seq<char>) -> Seq<char>
    decreases s.len(),
{
    if s.len() > 0 && white_space(s.last()) {
        trimmed_end(s.drop_last())
    } else {
        s
    }
}

/// `s` without leading and trailing white space.
pub open spec fn trimmed(s: Seq<char>) -> Seq<char> {
    trimmed_end(trimmed_start(s))
}

/// Calls `str::trim` of std. Claimed: the result is the argument without its leading
/// and trailing characters of the Unicode property `White_Space`.
#[verifier::external_body]
pub(crate) fn trim(s: &str) -> (out: &str)
    ensures
        out@ == trimmed(s@),
{
    s.trim()
}

/// The message with which std refuses `bytes` as UTF-8.
pub uninterp spec fn utf8_refusal(bytes: Seq<u8>) -> Seq<char>;

/// Calls `String::from_utf8` of std. Claimed: the bytes are accepted exactly when they
/// are valid UTF-8, the string is then what they encode, and the message of the error
/// depends on the bytes alone.
#[verifier::external_body]
pub(crate) fn text_from_utf8(bytes: Vec<u8>) -> (out: Result<String, String>)
    ensures
        match out {
            Ok(s) => valid_utf8(bytes@) && s@ == decode_utf8(bytes@),
            Err(e) => !valid_utf8(bytes@) && e@ == utf8_refusal(bytes@),
        },
{
    String::from_utf8(bytes).map_err(|e| e.to_string())
}

/// The text that std reads from `bytes` when invalid UTF-8 is replaced.
pub uninterp spec fn lossy_text(bytes: Seq<u8>) -> Seq<char>;

/// The text of `bytes`: what they encode, or what std makes of them where they are no
/// valid UTF-8.
pub open spec fn read_lossily(bytes: Seq<u8>) -> Seq<char> {
    if valid_utf8(bytes) {
        decode_utf8(bytes)
    } else {
        lossy_text(bytes)
    }
}

/// Calls `String::from_utf8_lossy` of std. Claimed: the result depends on the bytes
/// alone, and is what they encode where they are valid UTF-8.
#[verifier::external_body]
pub(crate) fn text_from_utf8_lossy(bytes: &[u8]) -> (out: String)
    ensures
        out@ == lossy_text(bytes@),
        valid_utf8(bytes@) ==> out@ == decode_utf8(bytes@),
{
    String::from_utf8_lossy(bytes).into_owned()
}

/// The characters of a text.
pub fn characters(s: &str) -> (out: Vec<char>)
    ensures
        out@ == s@,
{
    let mut out: Vec<char> = Vec::new();
    for c in iter: s.chars()
        invariant
            out@ == iter.seq().take(iter.index()),
            iter.seq() == s@,
    {
        out.push(c);
        proof {
            assert(iter.seq().take(iter.index() + 1) =~= iter.seq().take(iter.index()).push(c));
        }
    }
    proof {
        assert(s@.take(s@.len() as int) =~= s@);
    }
    out
}

/// Whether `c` occurs in a text.
pub fn holds_char(s: &str, c: char) -> (found: bool)
    ensures
        found == s@.contains(c),
{
    let all: Vec<char> = characters(s);
    for i in 0..all.len()
        invariant
            all@ == s@,
            forall|j: int| 0 <= j < i ==> s@[j] != c,
    {
        if all[i] == c {
            assert(s@[i as int] == c);
            return true;
        }
    }
    false
}

/// Whether two texts hold the same characters.
pub fn same_text(a: &str, b: &str) -> (same: bool)
    ensures
        same == (a@ == b@),
{
    a.to_owned() == b.to_owned()
}

/// Whether there is a text and it reads `expected`.
pub fn is_text(text: &Option<String>, expected: &str) -> (same: bool)
    ensures
        same == (opt_text(*text) == Some(expected@)),
{
    match text {
        Some(s) => same_text(s.as_str(), expected),
        None => false,
    }
}

/// A copy of the text, or the empty text where there is none.
pub fn text_or_default(text: &Option<String>) -> (out: String)
    ensures
        out@ == text_or_empty(opt_text(*text)),
{
    match text {
        Some(s) => s.clone(),
        None => String::new(),
    }
}

proof fn lemma_trimmed_start(s: Seq<char>)
    ensures
        trimmed_start(s).len() <= s.len(),
        trimmed_start(s) == s.skip(s.len() - trimmed_start(s).len()),
        trimmed_start(s).len() > 0 ==> !white_space(trimmed_start(s)[0]),
    decreases s.len(),
{
    if s.len() > 0 && white_space(s[0]) {
        lemma_trimmed_start(s.drop_first());
        let n = trimmed_start(s).len() as int;
        assert(s.drop_first().skip(s.len() - 1 - n) =~= s.skip(s.len() - n));
    } else {
        assert(s.skip(0) =~= s);
    }
}

proof fn lemma_trimmed_end(s: Seq<char>)
    ensures
        trimmed_end(s).len() <= s.len(),
        trimmed_end(s) == s.take(trimmed_end(s).len() as int),
        trimmed_end(s).len() > 0 ==> !white_space(trimmed_end(s).last()),
    decreases s.len(),
{
    if s.len() > 0 && white_space(s.last()) {
        lemma_trimmed_end(s.drop_last());
        let n = trimmed_end(s).len() as int;
        assert(s.drop_last().take(n) =~= s.take(n));
    } else {
        assert(s.take(s.len() as int) =~= s);
    }
}

/// What trimming leaves neither begins nor ends with white space, and trimming it again
/// changes nothing.
pub proof fn law_trimmed_is_tight(s: Seq<char>)
    ensures
        trimmed(s).len() > 0 ==> !white_space(trimmed(s)[0]) && !white_space(trimmed(s).last()),
        trimmed(trimmed(s)) == trimmed(s),
{
    lemma_trimmed_start(s);
    lemma_trimmed_end(trimmed_start(s));
}

/// White space is made of 25 characters: five controls and the space of ASCII, and 19
/// characters beyond ASCII. No visible character is among them.
pub proof fn law_white_space_is_known(c: char)
    ensures
        white_space(c) <==> {
            let n = c as int;
            ||| 9 <= n <= 13 || n == 32
            ||| n == 133 || n == 160 || n == 5760
            ||| 8192 <= n <= 8202
            ||| n == 8232 || n == 8233 || n == 8239 || n == 8287 || n == 12288
        },
{
}

/// `part` is what is left of `s` when white space, and nothing else, is taken from both
/// ends.
pub open spec fn is_rid_of_white_ends(part: Seq<char>, s: Seq<char>) -> bool {
    exists|front: Seq<char>, back: Seq<char>|
        {
            &&& s == #[trigger] (front + part + back)
            &&& forall|k: int| 0 <= k < front.len() ==> white_space(#[trigger] front[k])
            &&& forall|k: int| 0 <= k < back.len() ==> white_space(#[trigger] back[k])
            &&& part.len() > 0 ==> !white_space(part[0]) && !white_space(part.last())
        }
}

proof fn lemma_trimmed_start_is_white(s: Seq<char>, k: int)
    requires
        0 <= k < s.len() - trimmed_start(s).len(),
    ensures
        white_space(s[k]),
    decreases s.len(),
{
    if k > 0 {
        lemma_trimmed_start_is_white(s.drop_first(), k - 1);
    }
}

proof fn lemma_trimmed_end_is_white(s: Seq<char>, k: int)
    requires
        trimmed_end(s).len() <= k < s.len(),
    ensures
        white_space(s[k]),
    decreases s.len(),
{
    if k < s.len() - 1 {
        lemma_trimmed_end_is_white(s.drop_last(), k);
    }
}

/// Trimming takes white space from both ends and leaves everything else as it stands.
pub proof fn law_trimming_takes_only_white_space(s: Seq<char>)
    ensures
        is_rid_of_white_ends(trimmed(s), s),
{
    let rest = trimmed_start(s);
    lemma_trimmed_start(s);
    lemma_trimmed_end(rest);
    law_trimmed_is_tight(s);
    let i = s.len() - rest.len();
    let part = trimmed(s);
    let front = s.take(i);
    let back = rest.skip(part.len() as int);
    assert forall|k: int| 0 <= k < front.len() implies white_space(#[trigger] front[k]) by {
        lemma_trimmed_start_is_white(s, k);
    }
    assert forall|k: int| 0 <= k < back.len() implies white_space(#[trigger] back[k]) by {
        lemma_trimmed_end_is_white(rest, part.len() + k);
    }
    assert(s =~= front + part + back);
}

} // verus!
