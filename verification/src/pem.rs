//! Splitting a PEM bundle into its certificates.

use crate::text::characters;
use vstd::prelude::*;
use vstd::string::*;

verus! {

/// The line that opens a certificate.
pub open spec fn begin_mark() -> Seq<char> {
    "-----BEGIN CERTIFICATE-----"@
}

/// The line that closes a certificate.
pub open spec fn end_mark() -> Seq<char> {
    "-----END CERTIFICATE-----"@
}

/// `pattern` stands in `s` at position `i`.
pub open spec fn occurs_at(s: Seq<char>, pattern: Seq<char>, i: int) -> bool {
    0 <= i && i + pattern.len() <= s.len() && s.subrange(i, i + pattern.len()) == pattern
}

/// The first position of `pattern` in `s` that is not before `from`.
pub open spec fn find_from(s: Seq<char>, pattern: Seq<char>, from: int) -> Option<int>
    decreases s.len() + 1 - from,
{
    if from + pattern.len() > s.len() {
        None
    } else if occurs_at(s, pattern, from) {
        Some(from)
    } else {
        find_from(s, pattern, from + 1)
    }
}

/// The certificates of `s` from position `from` on. Each runs from a begin mark through
/// the first end mark that follows the start of that begin mark; the search goes on
/// behind it. A begin mark without an end mark ends the search.
pub open spec fn pem_blocks(s: Seq<char>, from: int) -> Seq<Seq<char>>
    decreases s.len() - from,
{
    match find_from(s, begin_mark(), from) {
        None => Seq::empty(),
        Some(start) => match find_from(s, end_mark(), start) {
            None => Seq::empty(),
            Some(last) => {
                let stop = last + end_mark().len();
                proof {
                    lemma_marks();
                    lemma_find_from(s, begin_mark(), from);
                    lemma_find_from(s, end_mark(), start);
                }
                seq![s.subrange(start, stop)] + pem_blocks(s, stop)
            },
        },
    }
}

/// The texts of a vector of strings.
pub open spec fn texts(v: Seq<String>) -> Seq<Seq<char>> {
    v.map_values(|s: String| s@)
}

/// The lengths of the two marks.
pub proof fn lemma_marks()
    ensures
        begin_mark().len() == 27,
        end_mark().len() == 25,
{
    reveal_strlit("-----BEGIN CERTIFICATE-----");
    reveal_strlit("-----END CERTIFICATE-----");
}

/// `find_from` gives the least position from `from` on at which the pattern occurs.
pub proof fn lemma_find_from(s: Seq<char>, pattern: Seq<char>, from: int)
    ensures
        match find_from(s, pattern, from) {
            Some(i) => from <= i && occurs_at(s, pattern, i) && forall|j: int|
                from <= j < i ==> !#[trigger] occurs_at(s, pattern, j),
            None => forall|j: int| from <= j ==> !#[trigger] occurs_at(s, pattern, j),
        },
    decreases s.len() + 1 - from,
{
    if from + pattern.len() <= s.len() && !occurs_at(s, pattern, from) {
        lemma_find_from(s, pattern, from + 1);
    }
}

proof fn lemma_find_unique(s: Seq<char>, pattern: Seq<char>, from: int, i: int)
    requires
        from <= i,
        occurs_at(s, pattern, i),
        forall|j: int| from <= j < i ==> !#[trigger] occurs_at(s, pattern, j),
    ensures
        find_from(s, pattern, from) == Some(i),
{
    lemma_find_from(s, pattern, from);
}

fn stands_at(s: &Vec<char>, pattern: &Vec<char>, i: usize) -> (found: bool)
    requires
        i + pattern@.len() <= s@.len(),
    ensures
        found == occurs_at(s@, pattern@, i as int),
{
    let total: usize = s.len();
    for k in 0..pattern.len()
        invariant
            total == s@.len(),
            i + pattern@.len() <= s@.len(),
            forall|j: int| 0 <= j < k ==> s@[i + j] == pattern@[j],
    {
        if s[i + k] != pattern[k] {
            assert(s@.subrange(i as int, i + pattern@.len())[k as int] != pattern@[k as int]);
            return false;
        }
    }
    assert(s@.subrange(i as int, i + pattern@.len()) =~= pattern@);
    true
}

fn find(s: &Vec<char>, pattern: &Vec<char>, from: usize) -> (found: Option<usize>)
    requires
        from <= s@.len(),
        pattern@.len() > 0,
    ensures
        match found {
            Some(i) => find_from(s@, pattern@, from as int) == Some(i as int),
            None => find_from(s@, pattern@, from as int) is None,
        },
        found matches Some(i) ==> from <= i && i + pattern@.len() <= s@.len(),
{
    let mut i: usize = from;
    while pattern.len() <= s.len() - i
        invariant
            pattern@.len() > 0,
            from <= i <= s@.len(),
            find_from(s@, pattern@, from as int) == find_from(s@, pattern@, i as int),
        decreases s@.len() - i,
    {
        if stands_at(s, pattern, i) {
            return Some(i);
        }
        i = i + 1;
    }
    None
}

/// Splits a PEM text with one or more `-----BEGIN CERTIFICATE-----` blocks into the
/// single certificates, each from its begin mark through its end mark.
pub fn split_pem_certs(blob: &str) -> (out: Vec<String>)
    ensures
        texts(out@) == pem_blocks(blob@, 0),
{
    let begin: Vec<char> = characters("-----BEGIN CERTIFICATE-----");
    let end: Vec<char> = characters("-----END CERTIFICATE-----");
    let all: Vec<char> = characters(blob);
    let total: usize = all.len();
    let mut out: Vec<String> = Vec::new();
    let mut from: usize = 0;
    assert(texts(out@) + pem_blocks(blob@, 0) =~= pem_blocks(blob@, 0));
    proof {
        lemma_marks();
    }
    loop
        invariant
            all@ == blob@,
            begin@ == begin_mark(),
            end@ == end_mark(),
            begin_mark().len() == 27,
            end_mark().len() == 25,
            total == all@.len(),
            from <= all@.len(),
            texts(out@) + pem_blocks(blob@, from as int) == pem_blocks(blob@, 0),
        decreases all@.len() - from,
    {
        let ghost before = texts(out@);
        assert(before + Seq::empty() =~= before);
        let start: usize = match find(&all, &begin, from) {
            Some(start) => start,
            None => {
                return out;
            },
        };
        let last: usize = match find(&all, &end, start) {
            Some(last) => last,
            None => {
                return out;
            },
        };
        let stop: usize = last + end.len();
        out.push(blob.substring_char(start, stop).to_owned());
        proof {
            let block = blob@.subrange(start as int, stop as int);
            assert(texts(out@) =~= before.push(block));
            assert(texts(out@) + pem_blocks(blob@, stop as int) =~= before + (seq![block]
                + pem_blocks(blob@, stop as int)));
        }
        from = stop;
    }
}

/// A certificate block: it starts with the begin mark, ends with the end mark, and holds
/// no end mark before that.
pub open spec fn is_block(b: Seq<char>) -> bool {
    &&& occurs_at(b, begin_mark(), 0)
    &&& find_from(b, end_mark(), 0) == Some(b.len() - end_mark().len())
}

/// Each of `blocks` followed by its own one of `gaps`.
pub open spec fn bundle(blocks: Seq<Seq<char>>, gaps: Seq<Seq<char>>) -> Seq<char>
    decreases blocks.len(),
{
    if blocks.len() == 0 {
        Seq::empty()
    } else {
        blocks[0] + gaps[0] + bundle(blocks.drop_first(), gaps.drop_first())
    }
}

/// No begin mark starts inside `gap`, not even one that runs on into a begin mark right
/// behind it.
pub open spec fn is_gap(gap: Seq<char>) -> bool {
    forall|i: int|
        0 <= i < gap.len() ==> !#[trigger] occurs_at(gap + begin_mark(), begin_mark(), i)
}

proof fn lemma_occurs_shifted(front: Seq<char>, s: Seq<char>, pattern: Seq<char>, i: int)
    requires
        0 <= i,
    ensures
        occurs_at(front + s, pattern, front.len() + i) == occurs_at(s, pattern, i),
{
    if i + pattern.len() <= s.len() {
        assert((front + s).subrange(front.len() + i, front.len() + i + pattern.len())
            =~= s.subrange(i, i + pattern.len()));
    }
}

proof fn lemma_find_shifted(front: Seq<char>, s: Seq<char>, pattern: Seq<char>, from: int)
    requires
        0 <= from,
    ensures
        find_from(front + s, pattern, front.len() + from) == match find_from(s, pattern, from) {
            Some(i) => Some(front.len() + i),
            None => None,
        },
    decreases s.len() + 1 - from,
{
    if from + pattern.len() <= s.len() {
        lemma_occurs_shifted(front, s, pattern, from);
        if !occurs_at(s, pattern, from) {
            lemma_find_shifted(front, s, pattern, from + 1);
        }
    }
}

proof fn lemma_find_extended(s: Seq<char>, back: Seq<char>, pattern: Seq<char>, from: int)
    requires
        0 <= from,
        find_from(s, pattern, from) is Some,
    ensures
        find_from(s + back, pattern, from) == find_from(s, pattern, from),
    decreases s.len() + 1 - from,
{
    assert((s + back).subrange(from, from + pattern.len()) =~= s.subrange(
        from,
        from + pattern.len(),
    ));
    if !occurs_at(s, pattern, from) {
        lemma_find_extended(s, back, pattern, from + 1);
    }
}

proof fn lemma_blocks_shifted(front: Seq<char>, s: Seq<char>, from: int)
    requires
        0 <= from,
    ensures
        pem_blocks(front + s, front.len() + from) == pem_blocks(s, from),
    decreases s.len() - from,
{
    lemma_marks();
    lemma_find_from(s, begin_mark(), from);
    lemma_find_shifted(front, s, begin_mark(), from);
    if let Some(start) = find_from(s, begin_mark(), from) {
        lemma_find_from(s, end_mark(), start);
        lemma_find_shifted(front, s, end_mark(), start);
        if let Some(last) = find_from(s, end_mark(), start) {
            let stop = last + end_mark().len();
            lemma_blocks_shifted(front, s, stop);
            assert((front + s).subrange(front.len() + start, front.len() + stop) =~= s.subrange(
                start,
                stop,
            ));
        }
    }
}

/// Text before the first begin mark leaves no trace.
pub proof fn law_leading_text_is_ignored(lead: Seq<char>, s: Seq<char>)
    requires
        forall|i: int|
            0 <= i < lead.len() ==> !#[trigger] occurs_at(lead + s, begin_mark(), i),
    ensures
        pem_blocks(lead + s, 0) == pem_blocks(s, 0),
{
    let t = lead + s;
    lemma_find_from(t, begin_mark(), 0);
    lemma_find_from(t, begin_mark(), lead.len() as int);
    lemma_blocks_shifted(lead, s, 0);
}

proof fn lemma_gap_holds_no_mark(gap: Seq<char>, s: Seq<char>, i: int)
    requires
        is_gap(gap),
        s.len() == 0 || occurs_at(s, begin_mark(), 0),
        0 <= i < gap.len(),
    ensures
        !occurs_at(gap + s, begin_mark(), i),
{
    if occurs_at(gap + s, begin_mark(), i) {
        let n = begin_mark().len() as int;
        let marked = gap + begin_mark();
        assert forall|k: int| i <= k < i + n implies marked[k] == (gap + s)[k] by {
            if k >= gap.len() {
                assert(s.subrange(0, n)[k - gap.len()] == s[k - gap.len()]);
            }
        }
        assert(marked.subrange(i, i + n) =~= (gap + s).subrange(i, i + n));
        assert(occurs_at(marked, begin_mark(), i));
    }
}

/// Every block that a split gives starts with the begin mark, ends with the end mark, and
/// holds no end mark before that.
pub proof fn law_split_gives_blocks(s: Seq<char>, from: int, k: int)
    requires
        0 <= from,
        0 <= k < pem_blocks(s, from).len(),
    ensures
        is_block(pem_blocks(s, from)[k]),
    decreases s.len() - from,
{
    lemma_marks();
    lemma_find_from(s, begin_mark(), from);
    let start = find_from(s, begin_mark(), from)->0;
    lemma_find_from(s, end_mark(), start);
    let last = find_from(s, end_mark(), start)->0;
    let stop = last + end_mark().len();
    let block = s.subrange(start, stop);
    if k == 0 {
        let front = s.subrange(0, start);
        let back = s.skip(stop);
        assert(s =~= front + (block + back));
        lemma_find_shifted(front, block + back, end_mark(), 0);
        let tail = block + back;
        lemma_find_from(tail, end_mark(), 0);
        lemma_find_from(block, end_mark(), 0);
        assert forall|j: int| 0 <= j <= last - start implies #[trigger] occurs_at(
            block,
            end_mark(),
            j,
        ) == occurs_at(tail, end_mark(), j) by {
            assert(block.subrange(j, j + end_mark().len()) =~= tail.subrange(
                j,
                j + end_mark().len(),
            ));
        }
        assert(occurs_at(tail, end_mark(), last - start));
        lemma_find_unique(block, end_mark(), 0, last - start);
        if block.len() < begin_mark().len() {
            lemma_end_not_inside_begin(s, start, last);
        }
        assert(block.subrange(0, begin_mark().len() as int) =~= s.subrange(
            start,
            start + begin_mark().len(),
        ));
    } else {
        law_split_gives_blocks(s, stop, k - 1);
    }
}

/// An end mark that follows the start of a begin mark reaches past that begin mark.
proof fn lemma_end_not_inside_begin(s: Seq<char>, start: int, last: int)
    requires
        occurs_at(s, begin_mark(), start),
        occurs_at(s, end_mark(), last),
        start <= last,
    ensures
        last + end_mark().len() >= start + begin_mark().len(),
{
    reveal_strlit("-----BEGIN CERTIFICATE-----");
    reveal_strlit("-----END CERTIFICATE-----");
    if last < start + 2 {
        let b = s.subrange(start, start + begin_mark().len());
        let e = s.subrange(last, last + end_mark().len());
        assert(b[5] == s[start + 5]);
        assert(e[start + 5 - last] == s[start + 5]);
    }
}

/// A bundle of certificate blocks, each followed by any text in which no begin mark
/// starts, splits into exactly those blocks, in their order.
pub proof fn law_split_undoes_bundling(blocks: Seq<Seq<char>>, gaps: Seq<Seq<char>>)
    requires
        gaps.len() == blocks.len(),
        forall|i: int| 0 <= i < blocks.len() ==> is_block(#[trigger] blocks[i]),
        forall|i: int| 0 <= i < gaps.len() ==> is_gap(#[trigger] gaps[i]),
    ensures
        pem_blocks(bundle(blocks, gaps), 0) == blocks,
    decreases blocks.len(),
{
    lemma_marks();
    let s = bundle(blocks, gaps);
    if blocks.len() == 0 {
        assert(pem_blocks(s, 0) =~= blocks);
    } else {
        let block = blocks[0];
        let gap = gaps[0];
        let rest = blocks.drop_first();
        let rest_gaps = gaps.drop_first();
        assert forall|i: int| 0 <= i < rest.len() implies is_block(#[trigger] rest[i]) by {
            assert(rest[i] == blocks[i + 1]);
        }
        assert forall|i: int| 0 <= i < rest_gaps.len() implies is_gap(#[trigger] rest_gaps[i]) by {
            assert(rest_gaps[i] == gaps[i + 1]);
        }
        law_split_undoes_bundling(rest, rest_gaps);
        let more = bundle(rest, rest_gaps);
        if rest.len() > 0 {
            assert(is_block(rest[0]));
            assert(more.subrange(0, begin_mark().len() as int) =~= rest[0].subrange(
                0,
                begin_mark().len() as int,
            ));
        }
        let tail = gap + more;
        assert(s =~= block + tail);
        assert(find_from(block, begin_mark(), 0) == Some(0int));
        lemma_find_extended(block, tail, begin_mark(), 0);
        lemma_find_extended(block, tail, end_mark(), 0);
        assert(s.subrange(0, block.len() as int) =~= block);
        lemma_blocks_shifted(block, tail, 0);
        assert(is_gap(gaps[0]));
        assert forall|i: int| 0 <= i < gap.len() implies !#[trigger] occurs_at(
            gap + more,
            begin_mark(),
            i,
        ) by {
            lemma_gap_holds_no_mark(gap, more, i);
        }
        law_leading_text_is_ignored(gap, more);
        assert(pem_blocks(s, 0) =~= blocks);
    }
}

/// The two results hold the same texts.
pub open spec fn same_texts(a: Seq<String>, b: Seq<String>) -> bool {
    &&& a.len() == b.len()
    &&& forall|k: int| 0 <= k < a.len() ==> (#[trigger] a[k])@ == b[k]@
}

/// Equal texts, one by one.
pub proof fn lemma_same_texts(a: Seq<String>, b: Seq<String>)
    requires
        texts(a) == texts(b),
    ensures
        same_texts(a, b),
{
    assert(texts(a).len() == a.len());
    assert(texts(b).len() == b.len());
    assert forall|k: int| 0 <= k < a.len() implies (#[trigger] a[k])@ == b[k]@ by {
        assert(texts(a)[k] == a[k]@);
        assert(texts(b)[k] == b[k]@);
    }
}

proof fn lemma_no_mark(s: Seq<char>, pattern: Seq<char>, from: int)
    requires
        forall|i: int, j: int| 0 <= i <= j <= s.len() ==> #[trigger] s.subrange(i, j) != pattern,
        0 <= from,
    ensures
        find_from(s, pattern, from) is None,
{
    lemma_find_from(s, pattern, from);
    if let Some(i) = find_from(s, pattern, from) {
        assert(s.subrange(i, i + pattern.len()) != pattern);
    }
}

proof fn lemma_first_block(block: Seq<char>, rest: Seq<char>)
    requires
        is_block(block),
    ensures
        pem_blocks(block + rest, 0) == seq![block] + pem_blocks(rest, 0),
{
    lemma_marks();
    let s = block + rest;
    assert(find_from(block, begin_mark(), 0) == Some(0int));
    lemma_find_extended(block, rest, begin_mark(), 0);
    lemma_find_extended(block, rest, end_mark(), 0);
    assert(s.subrange(0, block.len() as int) =~= block);
    lemma_blocks_shifted(block, rest, 0);
}

/// A text in which no begin mark stands gives nothing.
pub proof fn law_without_a_begin_mark_there_is_nothing(blob: &str, out: Vec<String>)
    requires
        call_ensures(split_pem_certs, (blob,), out),
        forall|i: int, j: int|
            0 <= i <= j <= blob@.len() ==> #[trigger] blob@.subrange(i, j)
                != "-----BEGIN CERTIFICATE-----"@,
    ensures
        out@.len() == 0,
{
    lemma_no_mark(blob@, "-----BEGIN CERTIFICATE-----"@, 0);
    assert(texts(out@).len() == 0);
}

/// A text in which no end mark stands gives nothing.
pub proof fn law_without_an_end_mark_there_is_nothing(blob: &str, out: Vec<String>)
    requires
        call_ensures(split_pem_certs, (blob,), out),
        forall|i: int, j: int|
            0 <= i <= j <= blob@.len() ==> #[trigger] blob@.subrange(i, j)
                != "-----END CERTIFICATE-----"@,
    ensures
        out@.len() == 0,
{
    lemma_find_from(blob@, begin_mark(), 0);
    if let Some(start) = find_from(blob@, begin_mark(), 0) {
        lemma_no_mark(blob@, "-----END CERTIFICATE-----"@, start);
    }
    assert(texts(out@).len() == 0);
}

/// Text in which no begin mark starts makes no difference in front of another text.
pub proof fn law_text_before_a_begin_mark_is_skipped(
    blob: &str,
    lead: Seq<char>,
    rest: &str,
    out: Vec<String>,
    rest_out: Vec<String>,
)
    requires
        call_ensures(split_pem_certs, (blob,), out),
        call_ensures(split_pem_certs, (rest,), rest_out),
        blob@ == lead + rest@,
        forall|i: int, j: int|
            0 <= i < lead.len() && i <= j <= blob@.len() ==> #[trigger] blob@.subrange(i, j)
                != "-----BEGIN CERTIFICATE-----"@,
    ensures
        same_texts(out@, rest_out@),
{
    assert forall|i: int| 0 <= i < lead.len() implies !#[trigger] occurs_at(
        lead + rest@,
        begin_mark(),
        i,
    ) by {
        if occurs_at(lead + rest@, begin_mark(), i) {
            assert(blob@.subrange(i, i + begin_mark().len()) != "-----BEGIN CERTIFICATE-----"@);
        }
    }
    law_leading_text_is_ignored(lead, rest@);
    lemma_same_texts(out@, rest_out@);
}

/// A text that starts with a certificate gives that certificate first, in full, and then
/// whatever the text behind it gives. A certificate starts with the begin mark and ends
/// with the only end mark in it.
pub proof fn law_a_certificate_in_front_comes_first(
    blob: &str,
    block: Seq<char>,
    rest: &str,
    out: Vec<String>,
    rest_out: Vec<String>,
)
    requires
        call_ensures(split_pem_certs, (blob,), out),
        call_ensures(split_pem_certs, (rest,), rest_out),
        blob@ == block + rest@,
        block.len() >= 27,
        block.take(27) == "-----BEGIN CERTIFICATE-----"@,
        block.skip(block.len() - 25) == "-----END CERTIFICATE-----"@,
        forall|i: int, j: int|
            0 <= i <= j < block.len() ==> #[trigger] block.subrange(i, j)
                != "-----END CERTIFICATE-----"@,
    ensures
        out@.len() == 1 + rest_out@.len(),
        out@[0]@ == block,
        same_texts(out@.drop_first(), rest_out@),
{
    lemma_marks();
    let last = block.len() - 25;
    assert(block.subrange(0, 27) =~= block.take(27));
    assert(block.subrange(last, last + 25) =~= block.skip(last));
    assert forall|j: int| 0 <= j < last implies !#[trigger] occurs_at(block, end_mark(), j) by {
        assert(block.subrange(j, j + 25) != "-----END CERTIFICATE-----"@);
    }
    lemma_find_unique(block, end_mark(), 0, last);
    lemma_first_block(block, rest@);
    let all = texts(out@);
    assert(all == seq![block] + texts(rest_out@));
    assert(all.len() == out@.len());
    assert(out@[0]@ == all[0]);
    assert(texts(out@.drop_first()) =~= texts(rest_out@)) by {
        assert forall|k: int| 0 <= k < rest_out@.len() implies texts(out@.drop_first())[k] == texts(
            rest_out@,
        )[k] by {
            assert(all[k + 1] == texts(rest_out@)[k]);
        }
    }
    lemma_same_texts(out@.drop_first(), rest_out@);
}

} // verus!
