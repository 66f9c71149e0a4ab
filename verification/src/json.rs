//! JSON text: strings, integers and objects.

use vstd::prelude::*;
use vstd::string::*;

verus! {

/// The lower-case hexadecimal digit of value `n`.
pub open spec fn lower_hex(n: int) -> char {
    if n < 10 {
        (0x30 + n) as char
    } else {
        (0x61 + n - 10) as char
    }
}

/// How one character stands inside a JSON string.
pub open spec fn json_escape(c: char) -> Seq<char> {
    if c == '"' || c == '\\' {
        seq!['\\', c]
    } else if c == '\u{8}' {
        seq!['\\', 'b']
    } else if c == '\t' {
        seq!['\\', 't']
    } else if c == '\n' {
        seq!['\\', 'n']
    } else if c == '\u{c}' {
        seq!['\\', 'f']
    } else if c == '\r' {
        seq!['\\', 'r']
    } else if (c as int) < 0x20 {
        seq!['\\', 'u', '0', '0', lower_hex(c as int / 16), lower_hex(c as int % 16)]
    } else {
        seq![c]
    }
}

/// The characters of `s` as they stand inside a JSON string.
pub open spec fn json_escaped(s: Seq<char>) -> Seq<char>
    decreases s.len(),
{
    if s.len() == 0 {
        Seq::empty()
    } else {
        json_escape(s[0]) + json_escaped(s.drop_first())
    }
}

/// The JSON string that holds `s`.
pub open spec fn json_string(s: Seq<char>) -> Seq<char> {
    seq!['"'] + json_escaped(s) + seq!['"']
}

/// The decimal digits of `n`.
pub open spec fn decimal_digits(n: nat) -> Seq<char>
    decreases n,
{
    if n < 10 {
        seq![(0x30 + n) as char]
    } else {
        decimal_digits(n / 10).push((0x30 + n % 10) as char)
    }
}

/// The JSON number that holds the integer `n`.
pub open spec fn json_integer(n: int) -> Seq<char> {
    if n < 0 {
        seq!['-'] + decimal_digits((-n) as nat)
    } else {
        decimal_digits(n as nat)
    }
}

/// A member of an object: its name as a string, a colon, its value.
pub open spec fn json_member(member: (Seq<char>, Seq<char>)) -> Seq<char> {
    json_string(member.0) + ":"@ + member.1
}

/// The members of an object, parted by commas.
pub open spec fn json_members(members: Seq<(Seq<char>, Seq<char>)>) -> Seq<char>
    decreases members.len(),
{
    if members.len() == 0 {
        Seq::empty()
    } else if members.len() == 1 {
        json_member(members[0])
    } else {
        json_members(members.drop_last()) + ","@ + json_member(members.last())
    }
}

/// The JSON object with the given members, each a name and the text of its value, in
/// their order and without white space.
pub open spec fn json_object(members: Seq<(Seq<char>, Seq<char>)>) -> Seq<char> {
    "{"@ + json_members(members) + "}"@
}

/// Calls `serde_json::to_string` on a string slice. Claimed: the call succeeds and gives
/// the string in quotes, with `"`, `\` and the control characters below U+0020 escaped
/// and all else as it stands.
#[verifier::external_body]
fn serde_string(s: &str) -> (out: Result<String, String>)
    ensures
        out is Ok,
        out->Ok_0@ == json_string(s@),
{
    serde_json::to_string(s).map_err(|e| e.to_string())
}

/// The JSON string that holds `s`.
pub fn string(s: &str) -> (out: String)
    ensures
        out@ == json_string(s@),
{
    serde_string(s).unwrap()
}

fn push_digits(out: &mut String, n: u32)
    ensures
        final(out)@ == old(out)@ + decimal_digits(n as nat),
    decreases n,
{
    if n >= 10 {
        push_digits(out, n / 10);
    }
    let digit: u8 = (n % 10) as u8;
    out.push((0x30 + digit) as char);
    assert(out@ =~= old(out)@ + decimal_digits(n as nat));
}

/// The JSON number that holds `n`.
pub fn integer(n: i32) -> (out: String)
    ensures
        out@ == json_integer(n as int),
{
    let mut out = String::new();
    let wide: i64 = n as i64;
    if wide < 0 {
        out.push('-');
        push_digits(&mut out, (-wide) as u32);
    } else {
        push_digits(&mut out, wide as u32);
    }
    assert(out@ =~= json_integer(n as int));
    out
}

/// The names and texts of a list of members.
pub open spec fn member_texts(members: Seq<(&str, String)>) -> Seq<(Seq<char>, Seq<char>)> {
    members.map_values(|m: (&str, String)| (m.0@, m.1@))
}

/// The JSON object with the given members.
pub fn object(members: &Vec<(&str, String)>) -> (out: String)
    ensures
        out@ == json_object(member_texts(members@)),
{
    let mut out = "{".to_owned();
    let ghost all = member_texts(members@);
    proof {
        assert(out@ =~= "{"@ + json_members(all.take(0)));
    }
    for i in 0..members.len()
        invariant
            all == member_texts(members@),
            out@ == "{"@ + json_members(all.take(i as int)),
    {
        let ghost before = out@;
        if i > 0 {
            out.append(",");
        }
        let name: String = string(members[i].0);
        out.append(name.as_str());
        out.append(":");
        out.append(members[i].1.as_str());
        proof {
            let done = all.take(i + 1);
            assert(done.drop_last() =~= all.take(i as int));
            assert(done.last() == (members[i as int].0@, members[i as int].1@));
            assert(out@ =~= "{"@ + json_members(done));
        }
    }
    proof {
        assert(all.take(members.len() as int) =~= all);
    }
    out.append("}");
    out
}

/// The text that the inside of a JSON string stands for.
pub open spec fn json_unescaped(t: Seq<char>) -> Seq<char>
    decreases t.len(),
{
    if t.len() == 0 {
        Seq::empty()
    } else if t[0] == '\\' && t.len() >= 6 && t[1] == 'u' {
        seq![hex_pair(t[4], t[5])] + json_unescaped(t.skip(6))
    } else if t[0] == '\\' && t.len() >= 2 {
        seq![short_escape(t[1])] + json_unescaped(t.skip(2))
    } else {
        seq![t[0]] + json_unescaped(t.skip(1))
    }
}

/// The value of a lower-case hexadecimal digit.
pub open spec fn lower_hex_value(c: char) -> int {
    if c <= '9' {
        c as int - 0x30
    } else {
        c as int - 0x61 + 10
    }
}

/// The character that two hexadecimal digits number.
pub open spec fn hex_pair(hi: char, lo: char) -> char {
    (lower_hex_value(hi) * 16 + lower_hex_value(lo)) as char
}

/// The character that a backslash and `c` stand for.
pub open spec fn short_escape(c: char) -> char {
    if c == 'b' {
        '\u{8}'
    } else if c == 't' {
        '\t'
    } else if c == 'n' {
        '\n'
    } else if c == 'f' {
        '\u{c}'
    } else if c == 'r' {
        '\r'
    } else {
        c
    }
}

proof fn lemma_control_escape(c: char)
    requires
        json_escape(c).len() == 6,
    ensures
        hex_pair(json_escape(c)[4], json_escape(c)[5]) == c,
{
    let n = c as int;
    assert(n < 0x20);
    assert(lower_hex_value(lower_hex(n / 16)) == n / 16);
    assert(lower_hex_value(lower_hex(n % 16)) == n % 16);
}

/// Undoing the escapes of a JSON string gives back the text that it holds, so no two
/// texts are written alike.
pub proof fn law_json_string_round_trip(s: Seq<char>)
    ensures
        json_unescaped(json_escaped(s)) == s,
    decreases s.len(),
{
    let t = json_escaped(s);
    if s.len() == 0 {
        assert(json_unescaped(t) =~= s);
    } else {
        law_json_string_round_trip(s.drop_first());
        let head = json_escape(s[0]);
        assert(t.skip(head.len() as int) =~= json_escaped(s.drop_first()));
        assert(forall|i: int| 0 <= i < head.len() ==> t[i] == head[i]);
        assert(t[0] == head[0]);
        if head.len() >= 2 {
            assert(t[1] == head[1]);
        }
        if head.len() == 6 {
            assert(t[4] == head[4] && t[5] == head[5]);
            lemma_control_escape(s[0]);
            assert(hex_pair(t[4], t[5]) == s[0]);
        }
        assert(json_unescaped(t) =~= s);
    }
}

/// The character stands in a JSON string as it is.
pub open spec fn is_plain(c: char) -> bool {
    (c as int) >= 32 && c != '"' && c != '\\'
}

/// A text without quotes, backslashes and control characters is escaped to itself.
pub proof fn lemma_plain_text(s: Seq<char>)
    requires
        forall|i: int| 0 <= i < s.len() ==> is_plain(#[trigger] s[i]),
    ensures
        json_escaped(s) == s,
    decreases s.len(),
{
    if s.len() > 0 {
        assert forall|i: int| 0 <= i < s.drop_first().len() implies is_plain(
            #[trigger] s.drop_first()[i],
        ) by {
            assert(is_plain(s[i + 1]));
        }
        lemma_plain_text(s.drop_first());
        assert(is_plain(s[0]));
        assert(json_escaped(s) =~= s);
    } else {
        assert(json_escaped(s) =~= s);
    }
}

/// A JSON string stands in quotes and holds the text that was written. A text without
/// quotes, backslashes and control characters stands in it as it is.
pub proof fn law_a_string_holds_its_text(s: &str, out: String)
    requires
        call_ensures(string, (s,), out),
    ensures
        out@.len() >= 2,
        out@[0] == '"',
        out@.last() == '"',
        json_unescaped(out@.subrange(1, out@.len() - 1)) == s@,
        (forall|i: int|
            0 <= i < s@.len() ==> (#[trigger] s@[i]) as int >= 32 && s@[i] != '"' && s@[i] != '\\')
            ==> out@.subrange(1, out@.len() - 1) == s@,
{
    law_json_string_round_trip(s@);
    assert(out@.subrange(1, out@.len() - 1) =~= json_escaped(s@));
    if forall|i: int|
        0 <= i < s@.len() ==> (#[trigger] s@[i]) as int >= 32 && s@[i] != '"' && s@[i] != '\\' {
        lemma_plain_text(s@);
    }
}

/// The number that decimal digits stand for.
pub open spec fn decimal_value(digits: Seq<char>) -> int
    decreases digits.len(),
{
    if digits.len() == 0 {
        0
    } else {
        decimal_value(digits.drop_last()) * 10 + (digits.last() as int - '0' as int)
    }
}

proof fn lemma_decimal_digits(n: nat)
    ensures
        decimal_value(decimal_digits(n)) == n,
        decimal_digits(n).len() > 0,
        forall|i: int|
            0 <= i < decimal_digits(n).len() ==> '0' <= #[trigger] decimal_digits(n)[i] <= '9',
        n > 0 ==> decimal_digits(n)[0] != '0',
        n == 0 ==> decimal_digits(n).len() == 1,
    decreases n,
{
    let digits = decimal_digits(n);
    if n < 10 {
        assert(digits.drop_last() =~= Seq::empty());
        assert(decimal_value(digits.drop_last()) == 0);
    } else {
        lemma_decimal_digits(n / 10);
        assert(digits.drop_last() =~= decimal_digits(n / 10));
        assert(digits[0] == decimal_digits(n / 10)[0]);
        assert forall|i: int| 0 <= i < digits.len() implies '0' <= #[trigger] digits[i] <= '9' by {
            if i < digits.len() - 1 {
                assert(digits[i] == decimal_digits(n / 10)[i]);
            }
        }
    }
}

/// `digits` are decimal digits that stand for `n`, without leading zeros.
pub open spec fn is_decimal(digits: Seq<char>, n: int) -> bool {
    &&& digits.len() > 0
    &&& forall|i: int| 0 <= i < digits.len() ==> '0' <= #[trigger] digits[i] <= '9'
    &&& digits.len() > 1 ==> digits[0] != '0'
    &&& decimal_value(digits) == n
}

/// An integer is written in decimal digits that stand for it, without leading zeros, and
/// behind a minus sign exactly where it is negative.
pub proof fn law_an_integer_is_written_in_decimal(n: i32, out: String)
    requires
        call_ensures(integer, (n,), out),
    ensures
        n >= 0 ==> is_decimal(out@, n as int),
        n < 0 ==> out@.len() > 0 && out@[0] == '-' && is_decimal(
            out@.drop_first(),
            -(n as int),
        ),
{
    if n < 0 {
        let m = (-(n as int)) as nat;
        lemma_decimal_digits(m);
        assert(out@.drop_first() =~= decimal_digits(m));
    } else {
        lemma_decimal_digits(n as nat);
    }
}

/// An object without members is a pair of braces.
pub proof fn law_an_object_without_members(members: Vec<(&str, String)>, out: String)
    requires
        call_ensures(object, (&members,), out),
        members@.len() == 0,
    ensures
        out@ == seq!['{', '}'],
{
    reveal_strlit("{");
    reveal_strlit("}");
    assert(out@ =~= seq!['{', '}']);
}

/// One more member stands behind the others, before the closing brace: its name as a
/// string, a colon and its value, with a comma before it where it is not the first.
pub proof fn law_an_object_with_one_more_member(
    members: Vec<(&str, String)>,
    more: Vec<(&str, String)>,
    out: String,
    more_out: String,
    name: String,
)
    requires
        call_ensures(object, (&members,), out),
        call_ensures(object, (&more,), more_out),
        more@.len() == members@.len() + 1,
        more@.drop_last() == members@,
        call_ensures(string, (more@.last().0,), name),
    ensures
        more_out@ == out@.drop_last() + (if members@.len() == 0 {
            Seq::empty()
        } else {
            seq![',']
        }) + name@ + seq![':'] + more@.last().1@ + seq!['}'],
{
    reveal_strlit("{");
    reveal_strlit("}");
    reveal_strlit(",");
    reveal_strlit(":");
    let all = member_texts(more@);
    assert(all.drop_last() =~= member_texts(members@));
    assert(all.last() == (more@.last().0@, more@.last().1@));
    let before = json_members(member_texts(members@));
    assert(out@.drop_last() =~= "{"@ + before);
    if members@.len() == 0 {
        assert(all[0] == all.last());
        assert(before =~= Seq::empty());
    }
    assert(more_out@ =~= out@.drop_last() + (if members@.len() == 0 {
        Seq::empty()
    } else {
        seq![',']
    }) + name@ + seq![':'] + more@.last().1@ + seq!['}']);
}

} // verus!
