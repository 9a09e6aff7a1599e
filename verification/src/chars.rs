//! Characters and runs of them: what counts as space, where words are, and
//! whether one text begins, ends or holds another.
use vstd::prelude::*;
use vstd::string::*;

verus! {

/// The Unicode `White_Space` property.
pub open spec fn is_white_space(c: char) -> bool {
    let u = c as u32;
    ||| 0x09 <= u <= 0x0d
    ||| u == 0x20
    ||| u == 0x85
    ||| u == 0xa0
    ||| u == 0x1680
    ||| 0x2000 <= u <= 0x200a
    ||| u == 0x2028
    ||| u == 0x2029
    ||| u == 0x202f
    ||| u == 0x205f
    ||| u == 0x3000
}

/// Whether a character is white space.
pub fn is_whitespace(c: char) -> (white: bool)
    ensures
        white == is_white_space(c),
{
    let u: u32 = c as u32;
    (0x09 <= u && u <= 0x0d) || u == 0x20 || u == 0x85 || u == 0xa0 || u == 0x1680 || (0x2000 <= u
        && u <= 0x200a) || u == 0x2028 || u == 0x2029 || u == 0x202f || u == 0x205f || u == 0x3000
}

/// The characters of a text.
pub fn chars_of(text: &str) -> (chars: Vec<char>)
    ensures
        chars@ == text@,
{
    let mut chars: Vec<char> = Vec::new();
    for c in it: text.chars()
        invariant
            chars@ == it.seq().take(it.index@),
            it.seq() == text@,
    {
        chars.push(c);
    }
    chars
}

/// Whether `part` stands in `whole` at position `at`.
pub open spec fn stands_at<T>(whole: Seq<T>, part: Seq<T>, at: int) -> bool {
    0 <= at && at + part.len() <= whole.len() && whole.subrange(at, at + part.len()) == part
}

/// Whether `part` stands somewhere in `whole`.
pub open spec fn holds<T>(whole: Seq<T>, part: Seq<T>) -> bool {
    exists|at: int| stands_at(whole, part, at)
}

fn chars_stand_at(whole: &Vec<char>, part: &Vec<char>, at: usize) -> (stands: bool)
    requires
        at + part.len() <= whole.len(),
    ensures
        stands == stands_at(whole@, part@, at as int),
{
    let mut i: usize = 0;
    while i < part.len()
        invariant
            i <= part.len(),
            at + part.len() <= whole.len(),
            forall|j: int| 0 <= j < i ==> whole@[at + j] == part@[j],
        decreases part.len() - i,
    {
        if whole[at + i] != part[i] {
            assert(whole@.subrange(at as int, at + part.len())[i as int] != part@[i as int]);
            return false;
        }
        i += 1;
    }
    assert(whole@.subrange(at as int, at + part.len()) =~= part@);
    true
}

/// Whether `whole` begins with `part`.
pub fn starts_with(whole: &Vec<char>, part: &Vec<char>) -> (starts: bool)
    ensures
        starts == stands_at(whole@, part@, 0),
{
    part.len() <= whole.len() && chars_stand_at(whole, part, 0)
}

/// Whether `whole` ends with `part`.
pub fn ends_with(whole: &Vec<char>, part: &Vec<char>) -> (ends: bool)
    ensures
        ends == stands_at(whole@, part@, whole.len() - part.len()),
{
    part.len() <= whole.len() && chars_stand_at(whole, part, whole.len() - part.len())
}

/// Whether two texts are the same.
pub fn same(a: &Vec<char>, b: &Vec<char>) -> (same: bool)
    ensures
        same == (a@ == b@),
{
    proof {
        if a.len() == b.len() {
            assert(a@.subrange(0, b.len() as int) =~= a@);
        }
    }
    a.len() == b.len() && chars_stand_at(a, b, 0)
}

/// Whether `part` stands somewhere in `whole`.
pub fn contains(whole: &Vec<char>, part: &Vec<char>) -> (found: bool)
    ensures
        found == holds(whole@, part@),
{
    if part.len() > whole.len() {
        return false;
    }
    let last: usize = whole.len() - part.len();
    let mut at: usize = 0;
    loop
        invariant
            at <= last,
            last == whole.len() - part.len(),
            forall|j: int| 0 <= j < at ==> !stands_at(whole@, part@, j),
        decreases last - at,
    {
        if chars_stand_at(whole, part, at) {
            return true;
        }
        if at == last {
            assert forall|j: int| !stands_at(whole@, part@, j) by {
                if stands_at(whole@, part@, j) {
                    assert(j <= last);
                }
            }
            return false;
        }
        at += 1;
    }
}

/// Whether `needle` stands somewhere in `haystack`.
pub fn bytes_contain(haystack: &[u8], needle: &[u8]) -> (found: bool)
    requires
        needle@.len() > 0,
    ensures
        found == holds(haystack@, needle@),
{
    if needle.len() > haystack.len() {
        return false;
    }
    let total: usize = haystack.len();
    let last: usize = total - needle.len();
    let mut at: usize = 0;
    while at <= last
        invariant
            at <= last + 1,
            total == haystack@.len(),
            last == total - needle@.len(),
            needle@.len() > 0,
            forall|j: int| 0 <= j < at ==> !stands_at(haystack@, needle@, j),
        decreases last + 1 - at,
    {
        let mut i: usize = 0;
        while i < needle.len() && haystack[at + i] == needle[i]
            invariant
                i <= needle@.len(),
                total == haystack@.len(),
                at + needle@.len() <= total,
                forall|j: int| 0 <= j < i ==> haystack@[at + j] == needle@[j],
            decreases needle@.len() - i,
        {
            i += 1;
        }
        if i == needle.len() {
            assert(haystack@.subrange(at as int, at + needle@.len()) =~= needle@);
            assert(stands_at(haystack@, needle@, at as int));
            return true;
        }
        assert(haystack@.subrange(at as int, at + needle@.len())[i as int] != needle@[i as int]);
        at += 1;
    }
    proof {
        assert forall|j: int| !stands_at(haystack@, needle@, j) by {
            if stands_at(haystack@, needle@, j) {
                assert(j <= last);
            }
        }
    }
    false
}

/// How many characters stand before the first that is white space.
pub open spec fn word_len(text: Seq<char>) -> nat
    decreases text.len(),
{
    if text.len() == 0 || is_white_space(text[0]) {
        0
    } else {
        1 + word_len(text.drop_first())
    }
}

/// The words of a text: its longest runs of characters that are not white
/// space, in order.
pub open spec fn words(text: Seq<char>) -> Seq<Seq<char>>
    decreases text.len(),
{
    if text.len() == 0 {
        Seq::empty()
    } else if is_white_space(text[0]) {
        words(text.drop_first())
    } else {
        let n = word_len(text);
        if n <= text.len() && n > 0 {
            seq![text.take(n as int)] + words(text.skip(n as int))
        } else {
            Seq::empty()
        }
    }
}

/// Where a word begins and ends.
pub struct Span {
    pub start: usize,
    pub end: usize,
}

/// The texts the spans cut out.
pub open spec fn cut(text: Seq<char>, spans: Seq<Span>) -> Seq<Seq<char>> {
    Seq::new(spans.len(), |i: int| text.subrange(spans[i].start as int, spans[i].end as int))
}

pub open spec fn spans_within(spans: Seq<Span>, len: nat) -> bool {
    forall|i: int| 0 <= i < spans.len() ==> (#[trigger] spans[i]).start < spans[i].end <= len
}

proof fn lemma_word_len_is(text: Seq<char>, n: nat)
    requires
        n <= text.len(),
        forall|i: int| 0 <= i < n ==> !is_white_space(#[trigger] text[i]),
        n == text.len() || is_white_space(text[n as int]),
    ensures
        word_len(text) == n,
    decreases text.len(),
{
    if n > 0 {
        let rest = text.drop_first();
        assert forall|i: int| 0 <= i < n - 1 implies !is_white_space(#[trigger] rest[i]) by {
            assert(rest[i] == text[i + 1]);
        }
        lemma_word_len_is(rest, (n - 1) as nat);
    }
}

/// The words of a text, as the places where they stand.
pub fn split_words(text: &Vec<char>) -> (spans: Vec<Span>)
    ensures
        spans_within(spans@, text@.len()),
        cut(text@, spans@) == words(text@),
{
    let mut spans: Vec<Span> = Vec::new();
    let mut at: usize = 0;
    proof {
        assert(text@.skip(0) =~= text@);
        assert(cut(text@, spans@) + words(text@.skip(0)) =~= words(text@));
    }
    while at < text.len()
        invariant
            at <= text@.len(),
            spans_within(spans@, text@.len()),
            cut(text@, spans@) + words(text@.skip(at as int)) == words(text@),
        decreases text@.len() - at,
    {
        let ghost rest = text@.skip(at as int);
        if is_whitespace(text[at]) {
            proof {
                assert(rest[0] == text@[at as int]);
                assert(rest.drop_first() =~= text@.skip(at + 1));
            }
            at += 1;
            continue;
        }
        let start: usize = at;
        while at < text.len() && !is_whitespace(text[at])
            invariant
                start <= at <= text@.len(),
                forall|j: int| start <= j < at ==> !is_white_space(#[trigger] text@[j]),
            decreases text@.len() - at,
        {
            at += 1;
        }
        let ghost before = spans@;
        spans.push(Span { start, end: at });
        proof {
            let n = (at - start) as nat;
            assert forall|i: int| 0 <= i < n implies !is_white_space(#[trigger] rest[i]) by {
                assert(rest[i] == text@[start + i]);
            }
            if at < text@.len() {
                assert(rest[n as int] == text@[at as int]);
            }
            assert(rest[0] == text@[start as int]);
            lemma_word_len_is(rest, n);
            assert(rest.take(n as int) =~= text@.subrange(start as int, at as int));
            assert(rest.skip(n as int) =~= text@.skip(at as int));
            assert(cut(text@, spans@) =~= cut(text@, before) + seq![
                text@.subrange(start as int, at as int),
            ]);
            assert(cut(text@, spans@) + words(text@.skip(at as int)) =~= cut(text@, before) + (seq![
                rest.take(n as int),
            ] + words(rest.skip(n as int))));
        }
    }
    proof {
        assert(text@.skip(at as int) =~= Seq::<char>::empty());
        assert(cut(text@, spans@) + words(text@.skip(at as int)) =~= cut(text@, spans@));
    }
    spans
}

/// The first position at or after `from` that holds `mark`.
pub open spec fn position_from(text: Seq<char>, mark: char, from: int) -> Option<int>
    decreases text.len() - from,
{
    if from < 0 || from >= text.len() {
        None
    } else if text[from] == mark {
        Some(from)
    } else {
        position_from(text, mark, from + 1)
    }
}

/// The first position at or after `from` that holds `mark`.
pub fn find_from(text: &Vec<char>, mark: char, from: usize) -> (found: Option<usize>)
    ensures
        match found {
            Some(at) => position_from(text@, mark, from as int) == Some(at as int) && from <= at
                < text@.len(),
            None => position_from(text@, mark, from as int) is None,
        },
{
    let mut at: usize = from;
    while at < text.len()
        invariant
            from <= at,
            position_from(text@, mark, from as int) == position_from(text@, mark, at as int),
        decreases text@.len() - at,
    {
        if text[at] == mark {
            return Some(at);
        }
        at += 1;
    }
    None
}

} // verus!
