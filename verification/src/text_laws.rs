//! What a book's text is cleared of, and what is never touched: laws of the
//! blocks on their way to the page, stated over their characters.
use vstd::prelude::*;
use vstd::string::*;
use crate::chars::{holds, is_white_space, stands_at};
use crate::phrases::{
    is_phrase, is_plain, lemma_found_is_read, lemma_opening, lemma_read_is_found, lemma_whole,
    mentions, reads,
};
use crate::text::{
    after_marks, collapsed, decoded, is_book_text, is_label, is_mark, is_metadata, is_separator,
    lower_ascii, marks_len, opens_with_punctuation, stars, trimmed_block, trimmed_end,
    without_leading_space, without_trailing_spaces,
};

verus! {

/// Whether a text is one of the labels that title pages are made of.
pub open spec fn is_known_label(text: Seq<char>) -> bool {
    ||| is_phrase(text, "title"@)
    ||| is_phrase(text, "author"@)
    ||| is_phrase(text, "creator"@)
    ||| is_phrase(text, "language"@)
    ||| is_phrase(text, "english"@)
    ||| is_phrase(text, "english:"@)
    ||| is_phrase(text, "release date"@)
    ||| is_phrase(text, "original publication"@)
}

/// Whether a text opens like a line of a distributor's front matter.
pub open spec fn opens_like_front_matter(text: Seq<char>) -> bool {
    ||| reads(text, ": "@, 0)
    ||| reads(text, "most recently updated"@, 0)
    ||| reads(text, "other information"@, 0)
    ||| reads(text, "other formats"@, 0)
    ||| reads(text, "credits"@, 0)
    ||| reads(text, "produced by"@, 0)
    ||| reads(text, "transcribed from"@, 0)
    ||| reads(text, "project gutenberg"@, 0)
    ||| reads(text, "the project gutenberg"@, 0)
}

/// Whether a text holds one of a distributor's notices.
pub open spec fn holds_known_notice(text: Seq<char>) -> bool {
    ||| mentions(text, "most recently updated"@)
    ||| mentions(text, "project gutenberg ebook"@)
    ||| mentions(text, "start of the project gutenberg"@)
    ||| mentions(text, "end of the project gutenberg"@)
    ||| mentions(text, "other information and formats"@)
    ||| mentions(text, "this ebook is for the use of anyone"@)
    ||| mentions(text, "project gutenberg license"@)
    ||| mentions(text, "www.gutenberg.org"@)
    ||| mentions(text, "laws of the country where you are located"@)
}

/// The texts that are not the book's.
pub open spec fn is_known_text(text: Seq<char>) -> bool {
    is_known_label(text) || opens_like_front_matter(text) || holds_known_notice(text)
}

/// Whether a text is `part` behind a row of at least three stars, with
/// nothing but space around it.
pub open spec fn is_behind_stars(text: Seq<char>, part: Seq<char>, from: int, to: int) -> bool {
    &&& 0 <= from <= to <= text.len()
    &&& text.subrange(from, to) == part
    &&& forall|i: int| 0 <= i < from ==> #[trigger] text[i] == '*' || is_white_space(text[i])
    &&& forall|i: int| to <= i < text.len() ==> is_white_space(#[trigger] text[i])
    &&& exists|i: int, j: int, k: int|
        0 <= i < j < k < from && #[trigger] text[i] == '*' && #[trigger] text[j] == '*'
            && #[trigger] text[k] == '*'
}

proof fn lemma_known_phrases_are_plain()
    ensures
        is_plain("title"@),
        "title"@.len() == 5,
        is_plain("author"@),
        "author"@.len() == 6,
        is_plain("creator"@),
        "creator"@.len() == 7,
        is_plain("language"@),
        "language"@.len() == 8,
        is_plain("english"@),
        "english"@.len() == 7,
        is_plain("english:"@),
        "english:"@.len() == 8,
        is_plain("release date"@),
        "release date"@.len() == 12,
        is_plain("original publication"@),
        "original publication"@.len() == 20,
        is_plain(": "@),
        ": "@.len() == 2,
        is_plain("most recently updated"@),
        "most recently updated"@.len() == 21,
        is_plain("other information"@),
        "other information"@.len() == 17,
        is_plain("other formats"@),
        "other formats"@.len() == 13,
        is_plain("credits"@),
        "credits"@.len() == 7,
        is_plain("produced by"@),
        "produced by"@.len() == 11,
        is_plain("transcribed from"@),
        "transcribed from"@.len() == 16,
        is_plain("project gutenberg"@),
        "project gutenberg"@.len() == 17,
        is_plain("the project gutenberg"@),
        "the project gutenberg"@.len() == 21,
        is_plain("project gutenberg ebook"@),
        "project gutenberg ebook"@.len() == 23,
        is_plain("start of the project gutenberg"@),
        "start of the project gutenberg"@.len() == 30,
        is_plain("end of the project gutenberg"@),
        "end of the project gutenberg"@.len() == 28,
        is_plain("other information and formats"@),
        "other information and formats"@.len() == 29,
        is_plain("this ebook is for the use of anyone"@),
        "this ebook is for the use of anyone"@.len() == 35,
        is_plain("project gutenberg license"@),
        "project gutenberg license"@.len() == 25,
        is_plain("www.gutenberg.org"@),
        "www.gutenberg.org"@.len() == 17,
        is_plain("laws of the country where you are located"@),
        "laws of the country where you are located"@.len() == 41,
{
    reveal_strlit("title");
    reveal_strlit("author");
    reveal_strlit("creator");
    reveal_strlit("language");
    reveal_strlit("english");
    reveal_strlit("english:");
    reveal_strlit("release date");
    reveal_strlit("original publication");
    reveal_strlit(": ");
    reveal_strlit("most recently updated");
    reveal_strlit("other information");
    reveal_strlit("other formats");
    reveal_strlit("credits");
    reveal_strlit("produced by");
    reveal_strlit("transcribed from");
    reveal_strlit("project gutenberg");
    reveal_strlit("the project gutenberg");
    reveal_strlit("project gutenberg ebook");
    reveal_strlit("start of the project gutenberg");
    reveal_strlit("end of the project gutenberg");
    reveal_strlit("other information and formats");
    reveal_strlit("this ebook is for the use of anyone");
    reveal_strlit("project gutenberg license");
    reveal_strlit("www.gutenberg.org");
    reveal_strlit("laws of the country where you are located");
}

proof fn lemma_labels(text: Seq<char>)
    ensures
        is_label(text) <==> is_known_label(text) || opens_like_front_matter(text),
{
    lemma_known_phrases_are_plain();
    lemma_whole(text, "title"@, 128);
    lemma_whole(text, "author"@, 128);
    lemma_whole(text, "creator"@, 128);
    lemma_whole(text, "language"@, 128);
    lemma_whole(text, "english"@, 128);
    lemma_whole(text, "english:"@, 128);
    lemma_whole(text, "release date"@, 128);
    lemma_whole(text, "original publication"@, 128);
    lemma_opening(text, ": "@, 128);
    lemma_opening(text, "most recently updated"@, 128);
    lemma_opening(text, "other information"@, 128);
    lemma_opening(text, "other formats"@, 128);
    lemma_opening(text, "credits"@, 128);
    lemma_opening(text, "produced by"@, 128);
    lemma_opening(text, "transcribed from"@, 128);
    lemma_opening(text, "project gutenberg"@, 128);
    lemma_opening(text, "the project gutenberg"@, 128);
}

proof fn lemma_holds(text: Seq<char>, phrase: Seq<char>, capacity: int)
    requires
        is_plain(phrase),
        capacity >= 0,
    ensures
        holds(lower_ascii(text, capacity), phrase) ==> mentions(text, phrase),
{
    if holds(lower_ascii(text, capacity), phrase) {
        let at = choose|at: int| stands_at(lower_ascii(text, capacity), phrase, at);
        let found = lemma_found_is_read(text, phrase, capacity, at);
        assert(reads(text, phrase, found));
    }
}

proof fn lemma_notices(text: Seq<char>)
    ensures
        is_metadata(text) ==> holds_known_notice(text),
{
    lemma_known_phrases_are_plain();
    lemma_holds(text, "most recently updated"@, 160);
    lemma_holds(text, "project gutenberg ebook"@, 160);
    lemma_holds(text, "start of the project gutenberg"@, 160);
    lemma_holds(text, "end of the project gutenberg"@, 160);
    lemma_holds(text, "other information and formats"@, 160);
    lemma_holds(text, "this ebook is for the use of anyone"@, 160);
    lemma_holds(text, "project gutenberg license"@, 160);
    lemma_holds(text, "www.gutenberg.org"@, 160);
    lemma_holds(text, "laws of the country where you are located"@, 160);
}

/// Where the stars of a text stand that holds one, two or three of them.
proof fn lemma_stars_stand(text: Seq<char>)
    ensures
        stars(text) >= 1 ==> exists|i: int| 0 <= i < text.len() && #[trigger] text[i] == '*',
        stars(text) >= 2 ==> exists|i: int, j: int|
            0 <= i < j < text.len() && #[trigger] text[i] == '*' && #[trigger] text[j] == '*',
        stars(text) >= 3 ==> exists|i: int, j: int, k: int|
            0 <= i < j < k < text.len() && #[trigger] text[i] == '*' && #[trigger] text[j] == '*'
                && #[trigger] text[k] == '*',
    decreases text.len(),
{
    if text.len() > 0 {
        let front = text.drop_last();
        let last = text.len() - 1;
        lemma_stars_stand(front);
        if stars(front) >= 1 {
            let i = choose|i: int| 0 <= i < front.len() && #[trigger] front[i] == '*';
            assert(text[i] == '*');
            if text.last() == '*' {
                assert(text[i] == '*' && text[last] == '*');
            }
        }
        if stars(front) >= 2 {
            let (i, j) = choose|i: int, j: int|
                0 <= i < j < front.len() && #[trigger] front[i] == '*' && #[trigger] front[j] == '*';
            assert(text[i] == '*' && text[j] == '*');
            if text.last() == '*' {
                assert(text[i] == '*' && text[j] == '*' && text[last] == '*');
            }
        }
        if stars(front) >= 3 {
            let (i, j, k) = choose|i: int, j: int, k: int|
                0 <= i < j < k < front.len() && #[trigger] front[i] == '*' && #[trigger] front[j]
                    == '*' && #[trigger] front[k] == '*';
            assert(text[i] == '*' && text[j] == '*' && text[k] == '*');
        }
        if text.last() == '*' {
            assert(text[last] == '*');
        }
    }
}

proof fn lemma_stars_count(text: Seq<char>, from: int)
    requires
        0 <= from < text.len(),
        text[from] == '*',
    ensures
        stars(text) >= stars(text.take(from)) + 1,
    decreases text.len(),
{
    if from == text.len() - 1 {
        assert(text.drop_last() =~= text.take(from));
    } else {
        lemma_stars_count(text.drop_last(), from);
        assert(text.drop_last().take(from) =~= text.take(from));
    }
}

/// A decorative break is nothing but stars and space, with at least three
/// stars.
pub proof fn law_break_is_three_stars(text: Seq<char>)
    ensures
        is_separator(text) <==> {
            &&& forall|i: int| 0 <= i < text.len() ==> #[trigger] text[i] == '*' || is_white_space(text[i])
            &&& exists|i: int, j: int, k: int|
                0 <= i < j < k < text.len() && #[trigger] text[i] == '*' && #[trigger] text[j]
                    == '*' && #[trigger] text[k] == '*'
        },
{
    lemma_stars_stand(text);
    if exists|i: int, j: int, k: int|
        0 <= i < j < k < text.len() && #[trigger] text[i] == '*' && #[trigger] text[j] == '*'
            && #[trigger] text[k] == '*' {
        let (i, j, k) = choose|i: int, j: int, k: int|
            0 <= i < j < k < text.len() && #[trigger] text[i] == '*' && #[trigger] text[j] == '*'
                && #[trigger] text[k] == '*';
        lemma_three_stars(text, i, j, k);
    }
    assert forall|i: int| 0 <= i < text.len() implies is_mark(#[trigger] text[i]) == (text[i] == '*'
        || is_white_space(text[i])) by {}
}

proof fn lemma_three_stars(text: Seq<char>, i: int, j: int, k: int)
    requires
        0 <= i < j < k < text.len(),
        text[i] == '*',
        text[j] == '*',
        text[k] == '*',
    ensures
        stars(text) >= 3,
{
    lemma_stars_count(text, k);
    lemma_stars_count(text.take(k), j);
    assert(text.take(k).take(j) =~= text.take(j));
    lemma_stars_count(text.take(j), i);
}

proof fn lemma_marks(text: Seq<char>)
    ensures
        marks_len(text) <= text.len(),
        forall|i: int| 0 <= i < marks_len(text) ==> is_mark(#[trigger] text[i]),
        marks_len(text) < text.len() ==> !is_mark(text[marks_len(text) as int]),
    decreases text.len(),
{
    if text.len() > 0 && is_mark(text[0]) {
        let rest = text.drop_first();
        lemma_marks(rest);
        assert forall|i: int| 0 <= i < marks_len(text) implies is_mark(#[trigger] text[i]) by {
            if i > 0 {
                assert(rest[i - 1] == text[i]);
            }
        }
    }
}

proof fn lemma_trimmed_end(text: Seq<char>)
    ensures
        trimmed_end(text).len() <= text.len(),
        trimmed_end(text) == text.take(trimmed_end(text).len() as int),
        forall|i: int|
            trimmed_end(text).len() <= i < text.len() ==> is_white_space(#[trigger] text[i]),
        trimmed_end(text).len() > 0 ==> !is_white_space(trimmed_end(text).last()),
    decreases text.len(),
{
    if text.len() > 0 && is_white_space(text.last()) {
        let front = text.drop_last();
        lemma_trimmed_end(front);
        assert(front.take(trimmed_end(front).len() as int) =~= text.take(
            trimmed_end(text).len() as int,
        ));
        assert forall|i: int| trimmed_end(text).len() <= i < text.len() implies is_white_space(
            #[trigger] text[i],
        ) by {
            if i < front.len() {
                assert(front[i] == text[i]);
            }
        }
    } else {
        assert(text.take(text.len() as int) =~= text);
    }
}

/// A block is left out only for what it says: it is empty, it is one of the
/// known labels, it opens like front matter or holds a notice, itself or
/// behind a row of stars. Every other block is text of the book and is kept.
pub proof fn law_only_known_texts_are_left_out(block: Seq<char>)
    requires
        !is_book_text(block),
        trimmed_block(block).len() > 0,
    ensures
        is_known_text(trimmed_block(block)) || exists|part: Seq<char>, from: int, to: int|
            #[trigger] is_behind_stars(trimmed_block(block), part, from, to) && is_known_text(part),
{
    let text = trimmed_block(block);
    lemma_labels(text);
    lemma_notices(text);
    if !is_label(text) && !is_metadata(text) {
        let n = marks_len(text) as int;
        let part = after_marks(text)->0;
        lemma_labels(part);
        lemma_notices(part);
        lemma_marks(text);
        lemma_trimmed_end(text.skip(n));
        let to = n + part.len();
        assert(text.subrange(n, to) =~= part);
        assert forall|i: int| to <= i < text.len() implies is_white_space(#[trigger] text[i]) by {
            assert(text[i] == text.skip(n)[i - n]);
        }
        assert forall|i: int| 0 <= i < n implies #[trigger] text[i] == '*' || is_white_space(
            text[i],
        ) by {
            assert(is_mark(text[i]));
        }
        let row = text.take(n);
        lemma_stars_stand(row);
        let (i, j, k) = choose|i: int, j: int, k: int|
            0 <= i < j < k < row.len() && #[trigger] row[i] == '*' && #[trigger] row[j] == '*'
                && #[trigger] row[k] == '*';
        assert(text[i] == '*' && text[j] == '*' && text[k] == '*');
        assert(is_behind_stars(text, part, n, to));
    }
}

/// Every known label and every line that opens like front matter is left out,
/// as it stands and behind a row of stars.
pub proof fn law_known_texts_are_left_out(block: Seq<char>)
    ensures
        is_known_label(trimmed_block(block)) || opens_like_front_matter(trimmed_block(block))
            ==> !is_book_text(block),
        forall|part: Seq<char>, from: int, to: int|
            #[trigger] is_behind_stars(trimmed_block(block), part, from, to) && part.len() > 0
                && !is_mark(part[0]) && !is_white_space(part.last()) && (is_known_label(part)
                || opens_like_front_matter(part)) ==> !is_book_text(block),
{
    let text = trimmed_block(block);
    lemma_labels(text);
    assert forall|part: Seq<char>, from: int, to: int|
        #[trigger] is_behind_stars(text, part, from, to) && part.len() > 0 && !is_mark(part[0])
            && !is_white_space(part.last()) && (is_known_label(part) || opens_like_front_matter(
            part,
        )) implies !is_book_text(block) by {
        lemma_labels(part);
        lemma_marks(text);
        let n = marks_len(text) as int;
        assert(text[from] == part[0]);
        assert forall|i: int| 0 <= i < from implies is_mark(#[trigger] text[i]) by {}
        if n > from {
            assert(is_mark(text[from]));
        }
        if n < from {
            assert(is_mark(text[n]));
        }
        let (i, j, k) = choose|i: int, j: int, k: int|
            0 <= i < j < k < from && #[trigger] text[i] == '*' && #[trigger] text[j] == '*'
                && #[trigger] text[k] == '*';
        let row = text.take(n);
        lemma_three_stars(row, i, j, k);
        let rest = text.skip(n);
        lemma_trimmed_end(rest);
        let cut = trimmed_end(rest);
        assert(rest[part.len() - 1] == part.last());
        if cut.len() > part.len() {
            assert(cut.last() == rest[cut.len() - 1]);
            assert(rest[cut.len() - 1] == text[n + cut.len() - 1]);
        }
        if cut.len() < part.len() {
            assert(is_white_space(rest[part.len() - 1]));
        }
        assert(cut =~= part);
        assert(!is_mark(text[from]) && !is_separator(text));
    }
}

/// A notice in plain letters that ends within the first 160 characters of a
/// block has it left out.
pub proof fn law_notices_are_left_out(block: Seq<char>, at: int, to: int)
    requires
        0 <= at <= to <= trimmed_block(block).len(),
        to <= 160,
        forall|i: int| 0 <= i < to ==> (#[trigger] trimmed_block(block)[i] as u32) < 0x80,
        holds_known_notice(trimmed_block(block).subrange(at, to)),
    ensures
        !is_book_text(block),
{
    let text = trimmed_block(block);
    let part = text.subrange(at, to);
    lemma_known_phrases_are_plain();
    lemma_noticed(text, "most recently updated"@, at, to);
    lemma_noticed(text, "project gutenberg ebook"@, at, to);
    lemma_noticed(text, "start of the project gutenberg"@, at, to);
    lemma_noticed(text, "end of the project gutenberg"@, at, to);
    lemma_noticed(text, "other information and formats"@, at, to);
    lemma_noticed(text, "this ebook is for the use of anyone"@, at, to);
    lemma_noticed(text, "project gutenberg license"@, at, to);
    lemma_noticed(text, "www.gutenberg.org"@, at, to);
    lemma_noticed(text, "laws of the country where you are located"@, at, to);
}

proof fn lemma_noticed(text: Seq<char>, phrase: Seq<char>, at: int, to: int)
    requires
        is_plain(phrase),
        0 <= at <= to <= text.len(),
        to <= 160,
        forall|i: int| 0 <= i < to ==> (#[trigger] text[i] as u32) < 0x80,
    ensures
        mentions(text.subrange(at, to), phrase) ==> holds(lower_ascii(text, 160), phrase),
{
    let part = text.subrange(at, to);
    if mentions(part, phrase) {
        let found = choose|found: int| reads(part, phrase, found);
        assert(reads(text, phrase, at + found)) by {
            assert forall|i: int| 0 <= i < phrase.len() implies #[trigger] crate::phrases::is_letter(
                text[at + found + i],
                phrase[i],
            ) by {
                assert(crate::phrases::is_letter(part[found + i], phrase[i]));
            }
        }
        lemma_read_is_found(text, phrase, 160, at + found);
    }
}

proof fn lemma_leading(text: Seq<char>)
    ensures
        ({
            let rest = without_leading_space(text);
            &&& rest.len() <= text.len()
            &&& rest == text.skip(text.len() - rest.len())
            &&& forall|i: int| 0 <= i < text.len() - rest.len() ==> is_white_space(#[trigger] text[i])
            &&& rest.len() > 0 ==> !is_white_space(rest[0])
        }),
    decreases text.len(),
{
    if text.len() > 0 && is_white_space(text[0]) {
        let later = text.drop_first();
        lemma_leading(later);
        let rest = without_leading_space(text);
        assert(later.skip(later.len() - rest.len()) =~= text.skip(text.len() - rest.len()));
        assert forall|i: int| 0 <= i < text.len() - rest.len() implies is_white_space(
            #[trigger] text[i],
        ) by {
            if i > 0 {
                assert(later[i - 1] == text[i]);
            }
        }
    } else {
        assert(text.skip(0) =~= text);
    }
}

proof fn lemma_trailing(text: Seq<char>)
    ensures
        ({
            let rest = without_trailing_spaces(text);
            &&& rest.len() <= text.len()
            &&& rest == text.take(rest.len() as int)
            &&& forall|i: int| rest.len() <= i < text.len() ==> #[trigger] text[i] == ' '
            &&& rest.len() > 0 ==> rest.last() != ' '
        }),
    decreases text.len(),
{
    if text.len() > 0 && text.last() == ' ' {
        let front = text.drop_last();
        lemma_trailing(front);
        let rest = without_trailing_spaces(text);
        assert(front.take(rest.len() as int) =~= text.take(rest.len() as int));
        assert forall|i: int| rest.len() <= i < text.len() implies #[trigger] text[i] == ' ' by {
            if i < front.len() {
                assert(front[i] == text[i]);
            }
        }
    } else {
        assert(text.take(text.len() as int) =~= text);
    }
}

/// Trimming a block takes off the white space before its first letter and the
/// plain spaces at its end, and not a letter in between.
pub proof fn law_trimming_takes_only_space(block: Seq<char>)
    ensures
        exists|from: int, to: int|
            {
                &&& 0 <= from <= to <= block.len()
                &&& trimmed_block(block) == #[trigger] block.subrange(from, to)
                &&& forall|i: int| 0 <= i < from ==> is_white_space(#[trigger] block[i])
                &&& forall|i: int| to <= i < block.len() ==> #[trigger] block[i] == ' '
                &&& from < to ==> !is_white_space(block[from]) && block[to - 1] != ' '
            },
{
    let tail = without_trailing_spaces(block);
    let text = trimmed_block(block);
    lemma_trailing(block);
    lemma_leading(tail);
    let from = tail.len() - text.len();
    let to = tail.len() as int;
    assert(block.subrange(from, to) =~= text);
    assert forall|i: int| 0 <= i < from implies is_white_space(#[trigger] block[i]) by {
        assert(tail[i] == block[i]);
    }
}

/// The marks that belong to the word before them, and no others.
pub proof fn law_closing_marks(word: Seq<char>)
    ensures
        opens_with_punctuation(word) <==> word.len() > 0 && seq![
            ',',
            '.',
            ';',
            ':',
            '!',
            '?',
            ')',
            ']',
            '}',
            '\u{2019}',
            '\u{201D}',
        ].contains(word[0]),
{
    let marks = seq![',', '.', ';', ':', '!', '?', ')', ']', '}', '\u{2019}', '\u{201D}'];
    if word.len() > 0 && opens_with_punctuation(word) {
        assert(marks[0] == ',' && marks[1] == '.' && marks[2] == ';' && marks[3] == ':' && marks[4]
            == '!' && marks[5] == '?' && marks[6] == ')' && marks[7] == ']' && marks[8] == '}'
            && marks[9] == '\u{2019}' && marks[10] == '\u{201D}');
    }
}

/// A text without entities is decoded to itself.
pub proof fn law_text_without_entities_is_itself(text: Seq<char>, entities: Seq<Option<char>>, at: int)
    requires
        0 <= at <= text.len(),
        entities.len() == text.len(),
        forall|i: int| at <= i < text.len() ==> #[trigger] entities[i] is None,
    ensures
        decoded(text, entities, at) == text.skip(at),
    decreases text.len() - at,
{
    if at < text.len() {
        law_text_without_entities_is_itself(text, entities, at + 1);
        assert(seq![text[at]] + text.skip(at + 1) =~= text.skip(at));
    } else {
        assert(text.skip(at) =~= Seq::<char>::empty());
    }
}

/// An entity stands for its one character, and the text goes on behind the
/// `;` that closes it.
pub proof fn law_entity_is_one_character(text: Seq<char>, entities: Seq<Option<char>>, at: int, end: int)
    requires
        0 <= at <= end < text.len(),
        entities.len() == text.len(),
        entities[at] is Some,
        text[end] == ';',
        forall|i: int| at <= i < end ==> #[trigger] text[i] != ';',
    ensures
        decoded(text, entities, at) == seq![entities[at]->0] + decoded(text, entities, end + 1),
{
    lemma_closing(text, at, end);
}

proof fn lemma_closing(text: Seq<char>, from: int, end: int)
    requires
        0 <= from <= end < text.len(),
        text[end] == ';',
        forall|i: int| from <= i < end ==> #[trigger] text[i] != ';',
    ensures
        crate::chars::position_from(text, ';', from) == Some(end),
    decreases end - from,
{
    if from < end {
        lemma_closing(text, from + 1, end);
    }
}

/// A text without its white space.
pub open spec fn without_space(text: Seq<char>) -> Seq<char> {
    text.filter(|c: char| !is_white_space(c))
}

/// Normalizing touches nothing but space: every letter that can be drawn is
/// still there, in its place.
pub proof fn law_normalizing_keeps_the_letters(text: Seq<char>, after_space: bool)
    requires
        forall|i: int| 0 <= i < text.len() ==> #[trigger] text[i] as u32 <= 0xffff,
    ensures
        without_space(collapsed(text, after_space)) == without_space(text),
    decreases text.len(),
{
    broadcast use vstd::seq_lib::group_filter_ensures;

    let solid = |c: char| !is_white_space(c);
    if text.len() == 0 {
        assert(collapsed(text, after_space) =~= text);
    } else {
        let first = seq![text[0]];
        let rest = text.drop_first();
        assert(text =~= first + rest);
        lemma_filter_first(text[0], rest, solid);
        assert forall|i: int| 0 <= i < rest.len() implies #[trigger] rest[i] as u32 <= 0xffff by {
            assert(rest[i] == text[i + 1]);
        }
        if is_white_space(text[0]) {
            law_normalizing_keeps_the_letters(rest, true);
            if !after_space {
                lemma_filter_first(' ', collapsed(rest, true), solid);
            }
        } else {
            law_normalizing_keeps_the_letters(rest, false);
            lemma_filter_first(text[0], collapsed(rest, false), solid);
        }
    }
}

proof fn lemma_filter_first(c: char, rest: Seq<char>, keep: spec_fn(char) -> bool)
    ensures
        (seq![c] + rest).filter(keep) == if keep(c) {
            seq![c] + rest.filter(keep)
        } else {
            rest.filter(keep)
        },
    decreases rest.len(),
{
    reveal(Seq::filter);
    let whole = seq![c] + rest;
    if rest.len() == 0 {
        assert(whole.drop_last() =~= Seq::<char>::empty());
        assert(whole.last() == c);
        assert(rest.filter(keep) =~= Seq::<char>::empty());
    } else {
        assert(whole.drop_last() =~= seq![c] + rest.drop_last());
        assert(whole.last() == rest.last());
        lemma_filter_first(c, rest.drop_last(), keep);
        assert(whole.filter(keep) =~= if keep(c) {
            seq![c] + rest.filter(keep)
        } else {
            rest.filter(keep)
        });
    }
}

} // verus!
