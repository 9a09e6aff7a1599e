//! Preview text: decoded, normalized and cleared of what is not the book.
use vstd::prelude::*;
use vstd::string::*;
use vstd::utf8::*;
use crate::bounded::{char_width, lemma_utf8_len_concat, utf8_len, Text};
use crate::chars::{
    chars_of, contains, ends_with, find_from, holds, is_white_space, is_whitespace, position_from,
    same, stands_at, starts_with,
};

verus! {

/// As much of `text`, from its start, as fits in `room` bytes.
pub open spec fn fitting(text: Seq<char>, room: int) -> Seq<char>
    decreases text.len(),
{
    if text.len() == 0 || char_width(text[0]) > room {
        Seq::empty()
    } else {
        seq![text[0]] + fitting(text.drop_first(), room - char_width(text[0]))
    }
}

/// A byte read as a character of its own and put in lower case.
pub open spec fn lowered(byte: u8) -> char {
    if 65 <= byte <= 90 { (byte + 32) as char } else { byte as char }
}

/// The bytes of a text, each as a lower-case character, as far as they fit.
pub open spec fn lower_ascii(text: Seq<char>, capacity: int) -> Seq<char> {
    fitting(encode_utf8(text).map_values(|byte: u8| lowered(byte)), capacity)
}

pub open spec fn is_ascii_space(c: char) -> bool {
    c == ' ' || c == '\t' || c == '\n' || c as u32 == 0x0c || c == '\r'
}

/// Whether `word` stands in `text` between ASCII spaces or the text's ends.
pub open spec fn is_ascii_word_of(text: Seq<char>, word: Seq<char>, at: int) -> bool {
    &&& stands_at(text, word, at)
    &&& at == 0 || is_ascii_space(text[at - 1])
    &&& at + word.len() == text.len() || is_ascii_space(text[at + word.len()])
}

pub open spec fn has_ascii_word(text: Seq<char>, word: Seq<char>) -> bool {
    exists|at: int| is_ascii_word_of(text, word, at)
}

/// A short text in lower case, for comparing with known labels.
pub struct LowerAscii<const N: usize> {
    text: Text<N>,
}

impl<const N: usize> View for LowerAscii<N> {
    type V = Seq<char>;

    closed spec fn view(&self) -> Seq<char> {
        self.text@
    }
}

impl<const N: usize> LowerAscii<N> {
    /// Lowers the bytes of `input` one by one until the capacity is reached.
    pub fn new(input: &str) -> (lower: Self)
        ensures
            lower@ == lower_ascii(input@, N as int),
    {
        let mut text: Text<N> = Text::new();
        let bytes: &[u8] = input.as_bytes();
        let ghost all = bytes@.map_values(|byte: u8| lowered(byte));
        let mut i: usize = 0;
        proof {
            assert(all.skip(0) =~= all);
            assert(text@ + fitting(all.skip(0), N as int) =~= fitting(all, N as int));
            assert(utf8_len(Seq::<char>::empty()) == 0);
        }
        while i < bytes.len()
            invariant
                i <= bytes@.len(),
                bytes@ == encode_utf8(input@),
                all == bytes@.map_values(|byte: u8| lowered(byte)),
                text@ + fitting(all.skip(i as int), N - utf8_len(text@)) == fitting(all, N as int),
            decreases bytes@.len() - i,
        {
            let byte: u8 = bytes[i];
            let byte: u8 = if byte >= 65 && byte <= 90 { byte + 32 } else { byte };
            let c: char = byte as char;
            let ghost before = text@;
            proof {
                assert(all.skip(i as int)[0] == c);
                assert(all.skip(i as int).drop_first() =~= all.skip(i + 1));
                assert(before.push(c).drop_last() =~= before);
            }
            if text.push(c).is_err() {
                assert(text@ + Seq::<char>::empty() =~= text@);
                return LowerAscii { text };
            }
            proof {
                assert(before.push(c) + fitting(all.skip(i + 1), N - utf8_len(before.push(c)))
                    =~= before + (seq![c] + fitting(
                    all.skip(i + 1),
                    N - utf8_len(before) - char_width(c),
                )));
            }
            i += 1;
        }
        proof {
            assert(all.skip(i as int) =~= Seq::<char>::empty());
            assert(text@ + Seq::<char>::empty() =~= text@);
        }
        LowerAscii { text }
    }

    pub fn eq(&self, other: &str) -> (equal: bool)
        ensures
            equal == (self@ == other@),
    {
        same(&self.text.chars(), &chars_of(other))
    }

    pub fn starts_with(&self, other: &str) -> (starts: bool)
        ensures
            starts == stands_at(self@, other@, 0),
    {
        starts_with(&self.text.chars(), &chars_of(other))
    }

    pub fn ends_with(&self, other: &str) -> (ends: bool)
        ensures
            ends == stands_at(self@, other@, self@.len() - other@.len()),
    {
        ends_with(&self.text.chars(), &chars_of(other))
    }

    pub fn contains(&self, other: &str) -> (found: bool)
        ensures
            found == holds(self@, other@),
    {
        contains(&self.text.chars(), &chars_of(other))
    }

    /// Whether one of the words between ASCII spaces is `other`. A word is
    /// never empty and holds no space.
    pub fn word_eq(&self, other: &str) -> (found: bool)
        ensures
            found == (other@.len() > 0 && (forall|i: int|
                0 <= i < other@.len() ==> !is_ascii_space(#[trigger] other@[i])) && has_ascii_word(
                self@,
                other@,
            )),
    {
        let word = chars_of(other);
        if word.len() == 0 {
            return false;
        }
        let mut i: usize = 0;
        while i < word.len()
            invariant
                i <= word@.len(),
                word@ == other@,
                forall|j: int| 0 <= j < i ==> !is_ascii_space(#[trigger] word@[j]),
            decreases word@.len() - i,
        {
            if ascii_space(word[i]) {
                return false;
            }
            i += 1;
        }
        let text = self.text.chars();
        if word.len() > text.len() {
            return false;
        }
        let last: usize = text.len() - word.len();
        let mut at: usize = 0;
        loop
            invariant
                at <= last,
                last == text.len() - word.len(),
                word@.len() > 0,
                word@ == other@,
                text@ == self@,
                forall|j: int| 0 <= j < word@.len() ==> !is_ascii_space(#[trigger] word@[j]),
                forall|j: int| 0 <= j < at ==> !is_ascii_word_of(text@, word@, j),
            decreases last - at,
        {
            if (at == 0 || ascii_space(text[at - 1])) && (at == last || ascii_space(
                text[at + word.len()],
            )) && word_stands(&text, &word, at) {
                assert(is_ascii_word_of(text@, word@, at as int));
                return true;
            }
            if at == last {
                assert forall|j: int| !is_ascii_word_of(text@, word@, j) by {
                    if is_ascii_word_of(text@, word@, j) {
                        assert(j <= last);
                    }
                }
                return false;
            }
            at += 1;
        }
    }
}

fn ascii_space(c: char) -> (space: bool)
    ensures
        space == is_ascii_space(c),
{
    c == ' ' || c == '\t' || c == '\n' || c as u32 == 0x0c || c == '\r'
}

fn word_stands(text: &Vec<char>, word: &Vec<char>, at: usize) -> (stands: bool)
    requires
        at + word.len() <= text.len(),
    ensures
        stands == stands_at(text@, word@, at as int),
{
    let mut i: usize = 0;
    while i < word.len()
        invariant
            i <= word.len(),
            at + word.len() <= text.len(),
            forall|j: int| 0 <= j < i ==> text@[at + j] == word@[j],
        decreases word@.len() - i,
    {
        if text[at + i] != word[i] {
            assert(text@.subrange(at as int, at + word@.len())[i as int] != word@[i as int]);
            return false;
        }
        i += 1;
    }
    assert(text@.subrange(at as int, at + word@.len()) =~= word@);
    true
}

/// Whether a word opens with a mark that belongs to the word before it.
pub open spec fn opens_with_punctuation(word: Seq<char>) -> bool {
    word.len() > 0 && (word[0] == ',' || word[0] == '.' || word[0] == ';' || word[0] == ':'
        || word[0] == '!' || word[0] == '?' || word[0] == ')' || word[0] == ']' || word[0] == '}'
        || word[0] == '\u{2019}' || word[0] == '\u{201D}')
}

/// Whether a word opens with a mark that belongs to the word before it, so
/// that no space goes between them.
pub fn is_leading_punctuation_word(word: &str) -> (leading: bool)
    ensures
        leading == opens_with_punctuation(word@),
{
    if word.is_empty() {
        return false;
    }
    let c: char = word.get_char(0);
    c == ',' || c == '.' || c == ';' || c == ':' || c == '!' || c == '?' || c == ')' || c == ']' || c
        == '}' || c == '\u{2019}' || c == '\u{201D}'
}

/// How many stars a text holds.
pub open spec fn stars(text: Seq<char>) -> nat
    decreases text.len(),
{
    if text.len() == 0 {
        0
    } else {
        stars(text.drop_last()) + if text.last() == '*' { 1nat } else { 0 }
    }
}

pub open spec fn is_mark(c: char) -> bool {
    c == '*' || is_white_space(c)
}

/// A row of at least three stars, with nothing but space between them.
pub open spec fn is_separator(text: Seq<char>) -> bool {
    (forall|i: int| 0 <= i < text.len() ==> is_mark(#[trigger] text[i])) && stars(text) >= 3
}

proof fn lemma_stars_push(text: Seq<char>, n: int)
    requires
        0 <= n < text.len(),
    ensures
        stars(text.take(n + 1)) == stars(text.take(n)) + if text[n] == '*' { 1nat } else { 0 },
{
    assert(text.take(n + 1).drop_last() =~= text.take(n));
}

/// Whether a text is a decorative break between passages.
pub fn is_decorative_separator(text: &str) -> (decorative: bool)
    ensures
        decorative == is_separator(text@),
{
    let chars = chars_of(text);
    let (end, count) = leading_marks(&chars);
    proof {
        assert(text@.take(text@.len() as int) =~= text@);
        if end < text@.len() {
            assert(!is_mark(text@[end as int]));
        }
    }
    end == chars.len() && count >= 3
}

/// How many characters stand before the first that is neither star nor space.
pub open spec fn marks_len(text: Seq<char>) -> nat
    decreases text.len(),
{
    if text.len() == 0 || !is_mark(text[0]) {
        0
    } else {
        1 + marks_len(text.drop_first())
    }
}

proof fn lemma_marks_len_is(text: Seq<char>, n: nat)
    requires
        n <= text.len(),
        forall|i: int| 0 <= i < n ==> is_mark(#[trigger] text[i]),
        n == text.len() || !is_mark(text[n as int]),
    ensures
        marks_len(text) == n,
    decreases text.len(),
{
    if n > 0 {
        let rest = text.drop_first();
        assert forall|i: int| 0 <= i < n - 1 implies is_mark(#[trigger] rest[i]) by {
            assert(rest[i] == text[i + 1]);
        }
        lemma_marks_len_is(rest, (n - 1) as nat);
    }
}

/// The leading stars and spaces, and how many of them are stars, counted as
/// far as three.
fn leading_marks(chars: &Vec<char>) -> (found: (usize, u8))
    ensures
        found.0 == marks_len(chars@),
        found.0 <= chars@.len(),
        forall|i: int| 0 <= i < found.0 ==> is_mark(#[trigger] chars@[i]),
        found.0 == chars@.len() || !is_mark(chars@[found.0 as int]),
        found.1 >= 3 <==> stars(chars@.take(found.0 as int)) >= 3,
{
    let mut end: usize = 0;
    let mut count: u8 = 0;
    assert(stars(chars@.take(0)) == 0);
    while end < chars.len() && (chars[end] == '*' || is_whitespace(chars[end]))
        invariant
            end <= chars@.len(),
            forall|i: int| 0 <= i < end ==> is_mark(#[trigger] chars@[i]),
            count <= 3,
            count < 3 ==> stars(chars@.take(end as int)) == count,
            count == 3 ==> stars(chars@.take(end as int)) >= 3,
        decreases chars@.len() - end,
    {
        proof {
            lemma_stars_push(chars@, end as int);
        }
        if chars[end] == '*' && count < 3 {
            count += 1;
        }
        end += 1;
    }
    proof {
        lemma_marks_len_is(chars@, end as nat);
    }
    (end, count)
}

/// A text without the white space at its end.
pub open spec fn trimmed_end(text: Seq<char>) -> Seq<char>
    decreases text.len(),
{
    if text.len() > 0 && is_white_space(text.last()) {
        trimmed_end(text.drop_last())
    } else {
        text
    }
}

/// What follows a row of at least three stars, without the space around it.
pub open spec fn after_marks(text: Seq<char>) -> Option<Seq<char>> {
    let n = marks_len(text) as int;
    if stars(text.take(n)) >= 3 { Some(trimmed_end(text.skip(n))) } else { None }
}

/// What follows a row of at least three stars at the start of a text, without
/// the space around it.
pub fn decorative_prefix_rest(text: &str) -> (rest: Option<&str>)
    ensures
        match rest {
            Some(rest) => after_marks(text@) == Some(rest@),
            None => after_marks(text@) is None,
        },
{
    let chars = chars_of(text);
    let (start, count) = leading_marks(&chars);
    if count < 3 {
        return None;
    }
    let mut end: usize = chars.len();
    let ghost whole = text@.skip(start as int);
    proof {
        assert(whole =~= text@.subrange(start as int, end as int));
    }
    while end > start && is_whitespace(chars[end - 1])
        invariant
            start <= end <= chars@.len(),
            chars@ == text@,
            trimmed_end(whole) == trimmed_end(text@.subrange(start as int, end as int)),
        decreases end,
    {
        proof {
            let part = text@.subrange(start as int, end as int);
            assert(part.last() == chars@[end - 1]);
            assert(part.drop_last() =~= text@.subrange(start as int, end - 1));
        }
        end -= 1;
    }
    proof {
        let part = text@.subrange(start as int, end as int);
        if end > start {
            assert(part.last() == chars@[end - 1]);
        }
    }
    Some(text.substring_char(start, end))
}

pub open spec fn is_label(text: Seq<char>) -> bool {
    let lower = lower_ascii(text, 128);
    ||| stands_at(lower, ": "@, 0)
    ||| lower == "title"@
    ||| lower == "author"@
    ||| lower == "creator"@
    ||| lower == "language"@
    ||| lower == "english"@
    ||| lower == "english:"@
    ||| lower == "release date"@
    ||| lower == "original publication"@
    ||| stands_at(lower, "most recently updated"@, 0)
    ||| stands_at(lower, "other information"@, 0)
    ||| stands_at(lower, "other formats"@, 0)
    ||| stands_at(lower, "credits"@, 0)
    ||| stands_at(lower, "produced by"@, 0)
    ||| stands_at(lower, "transcribed from"@, 0)
    ||| stands_at(lower, "project gutenberg"@, 0)
    ||| stands_at(lower, "the project gutenberg"@, 0)
}

/// Whether a block is a label of a title page rather than text of the book.
pub fn is_epub_titlepage_label(text: &str) -> (label: bool)
    ensures
        label == is_label(text@),
{
    let lower = LowerAscii::<128>::new(text);
    lower.starts_with(": ") || lower.eq("title") || lower.eq("author") || lower.eq("creator")
        || lower.eq("language") || lower.eq("english") || lower.eq("english:") || lower.eq(
        "release date",
    ) || lower.eq("original publication") || lower.starts_with("most recently updated")
        || lower.starts_with("other information") || lower.starts_with("other formats")
        || lower.starts_with("credits") || lower.starts_with("produced by") || lower.starts_with(
        "transcribed from",
    ) || lower.starts_with("project gutenberg") || lower.starts_with("the project gutenberg")
}

pub open spec fn is_metadata(text: Seq<char>) -> bool {
    let lower = lower_ascii(text, 160);
    ||| holds(lower, "most recently updated"@)
    ||| holds(lower, "project gutenberg ebook"@)
    ||| holds(lower, "start of the project gutenberg"@)
    ||| holds(lower, "end of the project gutenberg"@)
    ||| holds(lower, "other information and formats"@)
    ||| holds(lower, "this ebook is for the use of anyone"@)
    ||| holds(lower, "project gutenberg license"@)
    ||| holds(lower, "www.gutenberg.org"@)
    ||| holds(lower, "laws of the country where you are located"@)
}

/// Whether a block holds a distributor's notice.
pub fn contains_gutenberg_metadata(text: &str) -> (found: bool)
    ensures
        found == is_metadata(text@),
{
    let lower = LowerAscii::<160>::new(text);
    lower.contains("most recently updated") || lower.contains("project gutenberg ebook")
        || lower.contains("start of the project gutenberg") || lower.contains(
        "end of the project gutenberg",
    ) || lower.contains("other information and formats") || lower.contains(
        "this ebook is for the use of anyone",
    ) || lower.contains("project gutenberg license") || lower.contains("www.gutenberg.org")
        || lower.contains("laws of the country where you are located")
}

/// A text without the plain spaces at its end.
pub open spec fn without_trailing_spaces(text: Seq<char>) -> Seq<char>
    decreases text.len(),
{
    if text.len() > 0 && text.last() == ' ' {
        without_trailing_spaces(text.drop_last())
    } else {
        text
    }
}

/// A text without the white space at its start.
pub open spec fn without_leading_space(text: Seq<char>) -> Seq<char>
    decreases text.len(),
{
    if text.len() > 0 && is_white_space(text[0]) {
        without_leading_space(text.drop_first())
    } else {
        text
    }
}

/// Takes the plain spaces off the end.
pub fn trim_trailing_space<const N: usize>(text: &mut Text<N>)
    ensures
        final(text)@ == without_trailing_spaces(old(text)@),
{
    let chars = text.chars();
    let mut len: usize = chars.len();
    proof {
        assert(chars@.take(len as int) =~= chars@);
    }
    while len > 0 && chars[len - 1] == ' '
        invariant
            len <= chars@.len(),
            text@ == chars@.take(len as int),
            without_trailing_spaces(chars@.take(len as int)) == without_trailing_spaces(chars@),
        decreases len,
    {
        proof {
            assert(chars@.take(len as int).last() == chars@[len - 1]);
            assert(chars@.take(len as int).drop_last() =~= chars@.take(len - 1));
        }
        let _ = text.pop();
        len -= 1;
    }
    proof {
        if len > 0 {
            assert(chars@.take(len as int).last() == chars@[len - 1]);
        }
    }
}

/// Takes the white space off the start.
pub fn trim_leading_space<const N: usize>(text: &mut Text<N>)
    ensures
        final(text)@ == without_leading_space(old(text)@),
{
    let chars = text.chars();
    let mut at: usize = 0;
    proof {
        assert(chars@.skip(0) =~= chars@);
    }
    while at < chars.len() && is_whitespace(chars[at])
        invariant
            at <= chars@.len(),
            without_leading_space(chars@.skip(at as int)) == without_leading_space(chars@),
        decreases chars@.len() - at,
    {
        proof {
            assert(chars@.skip(at as int)[0] == chars@[at as int]);
            assert(chars@.skip(at as int).drop_first() =~= chars@.skip(at + 1));
        }
        at += 1;
    }
    proof {
        if at < chars@.len() {
            assert(chars@.skip(at as int)[0] == chars@[at as int]);
        }
    }
    if at == 0 {
        return ;
    }
    let bytes: usize = text.len();
    let mut trimmed: Text<N> = Text::new();
    {
        let rest: &str = text.as_str().substring_char(at, chars.len());
        proof {
            assert(rest@ =~= chars@.skip(at as int));
            assert(utf8_len(Seq::<char>::empty()) == 0);
            lemma_utf8_len_concat(chars@.take(at as int), chars@.skip(at as int));
            assert(chars@.take(at as int) + chars@.skip(at as int) =~= chars@);
            assert(bytes <= N);
            assert(Seq::<char>::empty() + rest@ =~= rest@);
        }
        let _ = trimmed.push_str(rest);
    }
    *text = trimmed;
}

/// The one form every decorative break takes, as far as it fits.
pub open spec fn separator_text(capacity: int) -> Seq<char> {
    if utf8_len("* * *"@) <= capacity { "* * *"@ } else { Seq::empty() }
}

/// Writes a decorative break the one way all of them are written.
pub fn normalize_decorative_separator<const N: usize>(block: &mut Text<N>)
    ensures
        final(block)@ == if is_separator(old(block)@) {
            separator_text(N as int)
        } else {
            old(block)@
        },
{
    if !is_decorative_separator(block.as_str()) {
        return ;
    }
    block.clear();
    assert(utf8_len(Seq::<char>::empty()) == 0);
    assert(Seq::<char>::empty() + "* * *"@ =~= "* * *"@);
    let _ = block.push_str("* * *");
}

/// A block without the space around it.
pub open spec fn trimmed_block(block: Seq<char>) -> Seq<char> {
    without_leading_space(without_trailing_spaces(block))
}

/// Whether a block is text of the book: not empty, not a label, not a notice,
/// and neither of these behind a row of stars.
pub open spec fn is_book_text(block: Seq<char>) -> bool {
    let text = trimmed_block(block);
    &&& text.len() > 0
    &&& !is_label(text)
    &&& !is_metadata(text)
    &&& is_separator(text) || match after_marks(text) {
        Some(rest) => rest.len() == 0 || (!is_label(rest) && !is_metadata(rest)),
        None => true,
    }
}

/// Trims a block and says whether it is text of the book. A decorative break
/// that is kept takes its one form.
pub fn sanitize_preview_block<const N: usize>(block: &mut Text<N>) -> (keep: bool)
    ensures
        keep == is_book_text(old(block)@),
        final(block)@ == if keep && is_separator(trimmed_block(old(block)@)) {
            separator_text(N as int)
        } else {
            trimmed_block(old(block)@)
        },
{
    trim_trailing_space(block);
    trim_leading_space(block);
    if block.is_empty() {
        return false;
    }
    if is_epub_titlepage_label(block.as_str()) || contains_gutenberg_metadata(block.as_str()) {
        return false;
    }
    if is_decorative_separator(block.as_str()) {
        normalize_decorative_separator(block);
        return true;
    }
    let mut bare: bool = false;
    if let Some(rest) = decorative_prefix_rest(block.as_str()) {
        if rest.is_empty() {
            bare = true;
        } else if is_epub_titlepage_label(rest) || contains_gutenberg_metadata(rest) {
            return false;
        }
    }
    if bare {
        normalize_decorative_separator(block);
    }
    true
}

/// A character as the preview can draw it.
pub open spec fn drawable(c: char) -> char {
    if c == '\u{00A0}' {
        ' '
    } else if c as u32 <= 0xffff {
        c
    } else {
        '?'
    }
}

/// Appends a character as the preview can draw it.
pub fn push_normalized_char<const N: usize>(c: char, out: &mut Text<N>) -> (outcome: Result<(), ()>)
    ensures
        outcome is Ok <==> utf8_len(old(out)@) + char_width(drawable(c)) <= N,
        final(out)@ == if outcome is Ok { old(out)@.push(drawable(c)) } else { old(out)@ },
{
    if c == '\u{00A0}' {
        out.push(' ')
    } else if c as u32 <= 0xffff {
        out.push(c)
    } else {
        out.push('?')
    }
}

/// Where reading goes on after position `at`: past the entity that was
/// decoded there, or past the one character.
pub open spec fn next_position(text: Seq<char>, entities: Seq<Option<char>>, at: int) -> int {
    if entities[at] is Some {
        match position_from(text, ';', at) {
            Some(end) => end + 1,
            None => at + 1,
        }
    } else {
        at + 1
    }
}

/// The characters of a text from position `at`, its entities decoded.
/// `entities[i]` is the character that an entity at position `i` stands for.
pub open spec fn decoded(text: Seq<char>, entities: Seq<Option<char>>, at: int) -> Seq<char>
    decreases text.len() - at,
{
    if at < 0 || at >= text.len() {
        Seq::empty()
    } else {
        let c = match entities[at] {
            Some(c) => c,
            None => text[at],
        };
        let next = next_position(text, entities, at);
        if at < next <= text.len() {
            seq![c] + decoded(text, entities, next)
        } else {
            Seq::empty()
        }
    }
}

/// A text with each run of white space as one space, none at the start, and
/// every other character as it can be drawn.
pub open spec fn collapsed(text: Seq<char>, after_space: bool) -> Seq<char>
    decreases text.len(),
{
    if text.len() == 0 {
        Seq::empty()
    } else if is_white_space(text[0]) {
        if after_space {
            collapsed(text.drop_first(), true)
        } else {
            seq![' '] + collapsed(text.drop_first(), true)
        }
    } else {
        seq![drawable(text[0])] + collapsed(text.drop_first(), false)
    }
}

proof fn lemma_position_from(text: Seq<char>, mark: char, from: int)
    requires
        0 <= from,
    ensures
        position_from(text, mark, from) matches Some(at) ==> from <= at < text.len(),
    decreases text.len() - from,
{
    if from < text.len() && text[from] != mark {
        lemma_position_from(text, mark, from + 1);
    }
}

/// There is one entry for each character, and an entity that no `;` closes
/// begins with a character of one byte.
pub open spec fn entities_apply(text: Seq<char>, entities: Seq<Option<char>>) -> bool {
    &&& entities.len() == text.len()
    &&& forall|i: int|
        0 <= i < text.len() && (#[trigger] entities[i]) is Some && position_from(text, ';', i)
            is None ==> char_width(text[i]) == 1
}

/// Whether the entities can be applied to the text.
pub fn entities_match(text: &str, entities: &Vec<Option<char>>) -> (applies: bool)
    ensures
        applies == entities_apply(text@, entities@),
{
    let chars = chars_of(text);
    if chars.len() != entities.len() {
        return false;
    }
    let mut closed: bool = false;
    let mut i: usize = chars.len();
    while i > 0
        invariant
            i <= chars.len(),
            chars@ == text@,
            entities@.len() == text@.len(),
            closed == (position_from(text@, ';', i as int) is Some),
            forall|j: int|
                i <= j < text@.len() && (#[trigger] entities@[j]) is Some && position_from(
                    text@,
                    ';',
                    j,
                ) is None ==> char_width(text@[j]) == 1,
        decreases i,
    {
        i -= 1;
        if chars[i] == ';' {
            closed = true;
        }
        if entities[i].is_some() && !closed && (chars[i] as u32) >= 0x80 {
            assert(char_width(text@[i as int]) != 1);
            assert(entities@[i as int] is Some);
            return false;
        }
    }
    true
}

/// Appends a text with its entities decoded and its space normalized, as far
/// as it fits.
///
/// An entity that no `;` closes is skipped by one byte, so it must begin with
/// a character of one byte.
pub fn push_normalized_decoded<const N: usize>(
    text: &str,
    entities: &Vec<Option<char>>,
    out: &mut Text<N>,
)
    requires
        entities_apply(text@, entities@),
    ensures
        final(out)@ == old(out)@ + fitting(
            collapsed(decoded(text@, entities@, 0), true),
            N - utf8_len(old(out)@),
        ),
{
    let chars = chars_of(text);
    let mut previous_space: bool = true;
    let mut cursor: usize = 0;
    let ghost start = out@;
    let ghost whole = fitting(collapsed(decoded(text@, entities@, 0), true), N - utf8_len(start));
    assert(start + whole == out@ + whole);
    while cursor < chars.len()
        invariant
            cursor <= chars@.len(),
            chars@ == text@,
            entities@.len() == text@.len(),
            start == old(out)@,
            whole == fitting(
                collapsed(decoded(text@, entities@, 0), true),
                N - utf8_len(old(out)@),
            ),
            start + whole == out@ + fitting(
                collapsed(decoded(text@, entities@, cursor as int), previous_space),
                N - utf8_len(out@),
            ),
        decreases chars@.len() - cursor,
    {
        let mut next: usize = cursor + 1;
        let c: char = match entities[cursor] {
            Some(decoded) => {
                if let Some(end) = find_from(&chars, ';', cursor) {
                    next = end + 1;
                }
                decoded
            },
            None => chars[cursor],
        };
        let ghost tail = decoded(text@, entities@, next as int);
        let ghost before = out@;
        let ghost room = N - utf8_len(before);
        proof {
            lemma_position_from(text@, ';', cursor as int);
            assert(next == next_position(text@, entities@, cursor as int));
            assert(decoded(text@, entities@, cursor as int) =~= seq![c] + tail);
            assert((seq![c] + tail).drop_first() =~= tail);
            assert((seq![c] + tail)[0] == c);
        }
        if is_whitespace(c) {
            if !previous_space {
                let ghost rest = collapsed(tail, true);
                proof {
                    assert((seq![' '] + rest)[0] == ' ');
                    assert((seq![' '] + rest).drop_first() =~= rest);
                    assert(before.push(' ').drop_last() =~= before);
                }
                if out.push(' ').is_err() {
                    assert(out@ + Seq::<char>::empty() =~= out@);
                    return ;
                }
                proof {
                    assert(before.push(' ') + fitting(rest, room - 1) =~= before + (seq![' ']
                        + fitting(rest, room - 1)));
                }
            }
            previous_space = true;
        } else {
            let ghost d = drawable(c);
            let ghost rest = collapsed(tail, false);
            proof {
                assert((seq![d] + rest)[0] == d);
                assert((seq![d] + rest).drop_first() =~= rest);
                assert(before.push(d).drop_last() =~= before);
            }
            if push_normalized_char(c, out).is_err() {
                assert(out@ + Seq::<char>::empty() =~= out@);
                return ;
            }
            proof {
                assert(before.push(d) + fitting(rest, room - char_width(d)) =~= before + (seq![d]
                    + fitting(rest, room - char_width(d))));
            }
            previous_space = false;
        }
        cursor = next;
    }
    proof {
        assert(out@ + Seq::<char>::empty() =~= out@);
        assert(fitting(Seq::<char>::empty(), N - utf8_len(out@)) =~= Seq::<char>::empty());
    }
}

proof fn lemma_drawable(c: char)
    requires
        !is_white_space(c),
    ensures
        !is_white_space(drawable(c)),
        drawable(drawable(c)) == drawable(c),
{
}

proof fn lemma_collapsed_again(text: Seq<char>, after_space: bool)
    ensures
        collapsed(collapsed(text, after_space), after_space) == collapsed(text, after_space),
    decreases text.len(),
{
    if text.len() > 0 {
        let rest = text.drop_first();
        if is_white_space(text[0]) {
            lemma_collapsed_again(rest, true);
            if !after_space {
                let once = seq![' '] + collapsed(rest, true);
                assert(once[0] == ' ');
                assert(once.drop_first() =~= collapsed(rest, true));
            }
        } else {
            lemma_collapsed_again(rest, false);
            lemma_drawable(text[0]);
            let once = seq![drawable(text[0])] + collapsed(rest, false);
            assert(once[0] == drawable(text[0]));
            assert(once.drop_first() =~= collapsed(rest, false));
        }
    }
}

/// Normalizing a normalized text changes nothing.
pub proof fn law_normalizing_settles(text: Seq<char>)
    ensures
        collapsed(collapsed(text, true), true) == collapsed(text, true),
{
    lemma_collapsed_again(text, true);
}

/// Normalized text holds no white space but single plain spaces, none of them
/// at its start, and nothing the preview cannot draw.
pub proof fn law_normalized_text_is_plain(text: Seq<char>, after_space: bool, i: int)
    requires
        0 <= i < collapsed(text, after_space).len(),
    ensures
        ({
            let plain = collapsed(text, after_space);
            &&& plain[i] as u32 <= 0xffff
            &&& is_white_space(plain[i]) ==> plain[i] == ' '
            &&& is_white_space(plain[i]) ==> if i == 0 {
                !after_space
            } else {
                !is_white_space(plain[i - 1])
            }
        }),
    decreases text.len(),
{
    let rest = text.drop_first();
    if is_white_space(text[0]) {
        if after_space {
            law_normalized_text_is_plain(rest, true, i);
        } else if i > 0 {
            law_normalized_text_is_plain(rest, true, i - 1);
        }
    } else {
        lemma_drawable(text[0]);
        if i > 0 {
            law_normalized_text_is_plain(rest, false, i - 1);
        }
    }
}

/// What fits is a beginning of the text and never passes the room; and it is
/// all of the text exactly when the text fits.
pub proof fn law_fitting_is_the_longest_beginning(text: Seq<char>, room: int)
    requires
        room >= 0,
    ensures
        ({
            let part = fitting(text, room);
            &&& part.len() <= text.len()
            &&& part == text.take(part.len() as int)
            &&& utf8_len(part) <= room
            &&& part.len() < text.len() ==> utf8_len(text.take(part.len() as int + 1)) > room
        }),
    decreases text.len(),
{
    let part = fitting(text, room);
    assert(utf8_len(Seq::<char>::empty()) == 0);
    if text.len() > 0 {
        let first = seq![text[0]];
        let rest = text.drop_first();
        assert(first.drop_last() =~= Seq::<char>::empty());
        assert(utf8_len(first) == char_width(text[0]));
        if char_width(text[0]) <= room {
            let left = room - char_width(text[0]);
            law_fitting_is_the_longest_beginning(rest, left);
            let tail = fitting(rest, left);
            lemma_utf8_len_concat(first, tail);
            assert(part =~= text.take(part.len() as int));
            if part.len() < text.len() {
                lemma_utf8_len_concat(first, rest.take(tail.len() as int + 1));
                assert(text.take(part.len() as int + 1) =~= first + rest.take(tail.len() as int + 1));
            }
        } else {
            assert(text.take(1) =~= first);
            assert(part =~= text.take(0));
        }
    } else {
        assert(part =~= text.take(0));
    }
}

proof fn lemma_trailing_trimmed(text: Seq<char>)
    ensures
        without_trailing_spaces(text).len() == 0 || without_trailing_spaces(text).last() != ' ',
        without_trailing_spaces(without_trailing_spaces(text)) == without_trailing_spaces(text),
    decreases text.len(),
{
    if text.len() > 0 && text.last() == ' ' {
        lemma_trailing_trimmed(text.drop_last());
    }
}

proof fn lemma_leading_trimmed(text: Seq<char>)
    ensures
        ({
            let rest = without_leading_space(text);
            &&& rest.len() == 0 || !is_white_space(rest[0])
            &&& rest.len() <= text.len()
            &&& rest == text.skip(text.len() - rest.len())
            &&& without_leading_space(rest) == rest
        }),
    decreases text.len(),
{
    if text.len() > 0 && is_white_space(text[0]) {
        lemma_leading_trimmed(text.drop_first());
        let rest = without_leading_space(text);
        assert(text.drop_first().skip(text.len() - 1 - rest.len()) =~= text.skip(
            text.len() - rest.len(),
        ));
    } else {
        assert(text.skip(0) =~= text);
    }
}

/// Trimming settles, and a block that counts as text of the book still does
/// once it is trimmed.
pub proof fn law_kept_block_is_kept_again(block: Seq<char>)
    ensures
        trimmed_block(trimmed_block(block)) == trimmed_block(block),
        is_book_text(trimmed_block(block)) == is_book_text(block),
{
    let tail = without_trailing_spaces(block);
    let text = trimmed_block(block);
    lemma_trailing_trimmed(block);
    lemma_leading_trimmed(tail);
    if text.len() > 0 {
        assert(text.last() == tail.last());
    }
    assert(without_trailing_spaces(text) == text);
}

/// Every decorative break is written the one way, and that is a decorative
/// break again.
pub proof fn law_separators_have_one_form(capacity: int)
    requires
        capacity >= 5,
    ensures
        is_separator(separator_text(capacity)),
        separator_text(capacity) == "* * *"@,
{
    reveal_strlit("* * *");
    let form = "* * *"@;
    assert(form.len() == 5);
    assert(form =~= seq!['*', ' ', '*', ' ', '*']);
    let four = form.drop_last();
    let three = four.drop_last();
    let two = three.drop_last();
    let one = two.drop_last();
    assert(one.drop_last() =~= Seq::<char>::empty());
    assert(utf8_len(Seq::<char>::empty()) == 0);
    assert(utf8_len(one) == 1);
    assert(utf8_len(two) == 2);
    assert(utf8_len(three) == 3);
    assert(utf8_len(four) == 4);
    assert(utf8_len(form) == 5);
    assert(stars(Seq::<char>::empty()) == 0);
    assert(stars(one) == 1);
    assert(stars(two) == 1);
    assert(stars(three) == 2);
    assert(stars(four) == 2);
    assert(stars(form) == 3);
}

} // verus!
