//! Setting a whole block, whatever widths come back: every letter of it ends
//! up on a line, in the order it was written.
use vstd::prelude::*;
use crate::bounded::{lemma_utf8_len_bounds, lemma_utf8_len_concat, utf8_len};
use crate::chars::{is_white_space, word_len, words};
use crate::line::{
    lemma_pieces_extend, pieces_fit, plain_text, with_pieces, word_pieces, FontStyle, TextAlign,
    TextRole,
};
use crate::sink::{Column, LineState, RunStyle, SinkModel, SinkStage};
use crate::sink_laws::{law_word_is_set_whole, well_marked};

verus! {

/// A text without its white space.
pub open spec fn spaceless(text: Seq<char>) -> Seq<char>
    decreases text.len(),
{
    if text.len() == 0 {
        Seq::empty()
    } else if is_white_space(text[0]) {
        spaceless(text.drop_first())
    } else {
        seq![text[0]] + spaceless(text.drop_first())
    }
}

/// The letters of a styled line, without markers and space.
pub open spec fn letters(line: Seq<char>, marker: char) -> Seq<char> {
    spaceless(plain_text(line, marker))
}

/// The letters of several lines.
pub open spec fn letters_of(lines: Seq<Seq<char>>, marker: char) -> Seq<char>
    decreases lines.len(),
{
    if lines.len() == 0 {
        Seq::empty()
    } else {
        letters_of(lines.drop_last(), marker) + letters(lines.last(), marker)
    }
}

/// Words one after another.
pub open spec fn joined(words: Seq<Seq<char>>) -> Seq<char>
    decreases words.len(),
{
    if words.len() == 0 {
        Seq::empty()
    } else {
        joined(words.drop_last()) + words.last()
    }
}

/// A sink that is setting a block, and the lines that have left it.
pub struct Setting {
    pub sink: SinkModel,
    pub lines: Seq<Seq<char>>,
}

/// What a width is measured in.
pub struct Measured {
    pub width: i16,
    pub column: Column,
    pub opens_paragraph: bool,
}

/// The line in progress leaves the sink.
pub open spec fn flushed(setting: Setting) -> Setting {
    if setting.sink.line.len() == 0 {
        setting
    } else {
        Setting {
            sink: SinkModel {
                line: Seq::empty(),
                state: LineState {
                    style: FontStyle::Regular,
                    pending_space: false,
                    ..setting.sink.state
                },
                ..setting.sink
            },
            lines: setting.lines.push(setting.sink.line),
        }
    }
}

/// The setting goes on by one answer: the line it asked to be flushed is, or
/// the line it asked to be measured is as wide as `answer` says.
pub open spec fn set_on(setting: Setting, answer: Measured) -> Setting {
    let after = flushed(setting);
    match setting.sink.stage {
        SinkStage::Measuring { .. } | SinkStage::Remeasuring => match setting.sink.measured(
            answer.width,
            answer.column,
            answer.opens_paragraph,
        ) {
            Some(next) => Setting { sink: next.0, ..setting },
            None => setting,
        },
        SinkStage::Ready => setting,
        _ => match after.sink.line_flushed() {
            Some(next) => Setting { sink: next.0, ..after },
            None => after,
        },
    }
}

/// A block set from where it was taken, by the answers in order.
pub open spec fn set_all(setting: Setting, answers: Seq<Measured>) -> Setting
    decreases answers.len(),
{
    if answers.len() == 0 {
        setting
    } else {
        set_on(set_all(setting, answers.drop_last()), answers.last())
    }
}

/// The words of the block can be set: none holds a marker or space, and each
/// fits a line of its own.
pub open spec fn settable(sink: SinkModel) -> bool {
    &&& sink.marks.marker != ' '
    &&& utf8_len(sink.line) <= sink.capacity < usize::MAX
    &&& forall|i: int| 0 <= i < sink.words.len() ==> #[trigger] word_is_settable(sink, i)
}

pub open spec fn word_is_settable(sink: SinkModel, i: int) -> bool {
    let word = sink.words[i];
    &&& word.len() > 0
    &&& forall|j: int|
        0 <= j < word.len() ==> #[trigger] word[j] != sink.marks.marker && !is_white_space(word[j])
    &&& pieces_fit(
        Seq::empty(),
        word_pieces(word, sink.run.style, FontStyle::Regular, false, sink.marks),
        sink.capacity,
    )
}

proof fn lemma_spaceless_concat(a: Seq<char>, b: Seq<char>)
    ensures
        spaceless(a + b) == spaceless(a) + spaceless(b),
    decreases a.len(),
{
    if a.len() == 0 {
        assert(a + b =~= b);
        assert(spaceless(a) + spaceless(b) =~= spaceless(b));
    } else {
        assert((a + b)[0] == a[0]);
        assert((a + b).drop_first() =~= a.drop_first() + b);
        lemma_spaceless_concat(a.drop_first(), b);
        assert(spaceless(a + b) =~= spaceless(a) + spaceless(b));
    }
}

proof fn lemma_spaceless_word(word: Seq<char>)
    requires
        forall|j: int| 0 <= j < word.len() ==> !is_white_space(#[trigger] word[j]),
    ensures
        spaceless(word) == word,
    decreases word.len(),
{
    if word.len() > 0 {
        let rest = word.drop_first();
        assert forall|j: int| 0 <= j < rest.len() implies !is_white_space(#[trigger] rest[j]) by {
            assert(rest[j] == word[j + 1]);
        }
        lemma_spaceless_word(rest);
        assert(seq![word[0]] + rest =~= word);
    }
}

/// A word that fits adds exactly its letters to the line.
proof fn lemma_word_adds_its_letters(sink: SinkModel, leading_space: bool)
    requires
        settable(sink),
        well_marked(sink.line, sink.marks.marker),
        0 <= sink.next < sink.words.len(),
        pieces_fit(sink.line, sink.pieces(leading_space), sink.capacity),
    ensures
        ({
            let after = with_pieces(sink.line, sink.pieces(leading_space), sink.capacity);
            &&& well_marked(after, sink.marks.marker)
            &&& letters(after, sink.marks.marker) == letters(sink.line, sink.marks.marker)
                + sink.word()
        }),
{
    let marker = sink.marks.marker;
    let word = sink.word();
    assert(word_is_settable(sink, sink.next));
    assert forall|j: int| 0 <= j < word.len() implies #[trigger] word[j] != marker by {}
    law_word_is_set_whole(
        sink.line,
        word,
        sink.run.style,
        sink.state.style,
        leading_space,
        sink.marks,
        sink.capacity,
    );
    let before = plain_text(sink.line, marker);
    let space = if leading_space { seq![' '] } else { Seq::<char>::empty() };
    lemma_spaceless_concat(before + space, word);
    lemma_spaceless_concat(before, space);
    assert forall|j: int| 0 <= j < word.len() implies !is_white_space(#[trigger] word[j]) by {
        assert(word[j] != marker);
    }
    lemma_spaceless_word(word);
    if leading_space {
        assert(seq![' '].drop_first() =~= Seq::<char>::empty());
        assert(spaceless(Seq::<char>::empty()) == Seq::<char>::empty());
        assert(spaceless(space) =~= Seq::<char>::empty());
    } else {
        assert(spaceless(space) =~= Seq::<char>::empty());
    }
    assert(spaceless(before) + spaceless(space) =~= spaceless(before));
}

/// What stands on all lines so far.
pub open spec fn on_paper(setting: Setting) -> Seq<char> {
    letters_of(setting.lines, setting.sink.marks.marker) + letters(
        setting.sink.line,
        setting.sink.marks.marker,
    )
}

/// How many words are on paper at this stage.
pub open spec fn words_set(sink: SinkModel) -> int {
    match sink.stage {
        SinkStage::Measuring { .. } | SinkStage::Remeasuring => sink.next + 1,
        _ => sink.next,
    }
}

/// Holds of a setting at every step: what is on paper is what was there
/// before and the words set so far.
pub open spec fn set_right(setting: Setting, before: Seq<char>) -> bool {
    let sink = setting.sink;
    let marker = sink.marks.marker;
    &&& settable(sink)
    &&& well_marked(sink.line, marker)
    &&& 0 <= sink.next <= sink.words.len()
    &&& words_set(sink) <= sink.words.len()
    &&& on_paper(setting) == before + joined(sink.words.take(words_set(sink)))
    &&& sink.line.len() == 0 ==> sink.state.style == FontStyle::Regular || sink.stage
        is RoleChanged || sink.stage is Ending || sink.stage is Ready
    &&& match sink.stage {
        SinkStage::Overflowed | SinkStage::Wrapped => sink.next < sink.words.len(),
        SinkStage::Measuring { kept_chars, line_was_empty, .. } => {
            let kept = sink.line.take(kept_chars as int);
            &&& kept_chars <= sink.line.len()
            &&& line_was_empty == (kept_chars == 0)
            &&& well_marked(kept, marker)
            &&& letters(sink.line, marker) == letters(kept, marker) + sink.words[sink.next]
        },
        SinkStage::Remeasuring => sink.line.len() > 0,
        SinkStage::Ending | SinkStage::Ready => sink.next == sink.words.len(),
        SinkStage::RoleChanged => sink.next == 0 && sink.line.len() > 0,
    }
}

proof fn lemma_joined_next(words: Seq<Seq<char>>, n: int)
    requires
        0 <= n < words.len(),
    ensures
        joined(words.take(n + 1)) == joined(words.take(n)) + words[n],
{
    assert(words.take(n + 1).drop_last() =~= words.take(n));
}

/// The next word is put on the line, or asks for a fresh one, or there is
/// none left: either way nothing is lost. `sink.stage` does not matter here.
proof fn lemma_next_word(setting: Setting, before: Seq<char>)
    requires
        settable(setting.sink),
        well_marked(setting.sink.line, setting.sink.marks.marker),
        0 <= setting.sink.next <= setting.sink.words.len(),
        on_paper(setting) == before + joined(setting.sink.words.take(setting.sink.next)),
        setting.sink.line.len() == 0 ==> setting.sink.state.style == FontStyle::Regular,
    ensures
        set_right(Setting { sink: setting.sink.next_word().0, ..setting }, before),
{
    let sink = setting.sink;
    let marker = sink.marks.marker;
    let after = Setting { sink: sink.next_word().0, ..setting };
    lemma_utf8_len_bounds(sink.line);
    if sink.next < sink.words.len() {
        let pieces = sink.pieces(sink.spaced());
        if pieces_fit(sink.line, pieces, sink.capacity) {
            lemma_word_adds_its_letters(sink, sink.spaced());
            lemma_pieces_extend(sink.line, pieces, sink.capacity);
            lemma_joined_next(sink.words, sink.next);
            let line = with_pieces(sink.line, pieces, sink.capacity);
            assert(after.sink.line == line);
            assert(line.take(sink.line.len() as int) == sink.line);
            assert(on_paper(after) =~= on_paper(setting) + sink.word());
            assert(before + joined(sink.words.take(sink.next)) + sink.word() =~= before + (joined(
                sink.words.take(sink.next),
            ) + sink.word()));
            lemma_line_bound(sink.line, pieces, sink.capacity);
            assert(after.sink.words == sink.words);
            assert forall|i: int| 0 <= i < after.sink.words.len() implies #[trigger] word_is_settable(
                after.sink,
                i,
            ) by {
                assert(word_is_settable(sink, i));
            }
            assert(word_is_settable(sink, sink.next));
            if line.len() == 0 {
                assert(letters(line, marker) == letters(sink.line, marker) + sink.word());
                assert(plain_text(line, marker) == Seq::<char>::empty());
                assert(letters(line, marker) == Seq::<char>::empty());
                assert(sink.word().len() == 0);
            }
        } else {
            assert(on_paper(after) == on_paper(setting));
            assert forall|i: int| 0 <= i < after.sink.words.len() implies #[trigger] word_is_settable(
                after.sink,
                i,
            ) by {
                assert(word_is_settable(sink, i));
            }
        }
    } else {
        assert(on_paper(after) == on_paper(setting));
        assert forall|i: int| 0 <= i < after.sink.words.len() implies #[trigger] word_is_settable(
            after.sink,
            i,
        ) by {
            assert(word_is_settable(sink, i));
        }
    }
}

proof fn lemma_line_bound(line: Seq<char>, pieces: Seq<Seq<char>>, capacity: int)
    requires
        pieces_fit(line, pieces, capacity),
        pieces.len() > 0,
    ensures
        utf8_len(with_pieces(line, pieces, capacity)) <= capacity,
        with_pieces(line, pieces, capacity).len() <= capacity,
    decreases pieces.len(),
{
    let next = line + pieces[0];
    lemma_utf8_len_concat(line, pieces[0]);
    if pieces.len() == 1 {
        assert(pieces.drop_first() =~= Seq::<Seq<char>>::empty());
        assert(with_pieces(next, pieces.drop_first(), capacity) == next);
    } else {
        lemma_line_bound(next, pieces.drop_first(), capacity);
    }
    lemma_utf8_len_bounds(with_pieces(line, pieces, capacity));
}

proof fn lemma_cancel(a: Seq<char>, b: Seq<char>, w: Seq<char>)
    requires
        a + w == b + w,
    ensures
        a == b,
{
    assert((a + w).len() == (b + w).len());
    assert(a =~= (a + w).take(a.len() as int));
    assert(b =~= (b + w).take(b.len() as int));
}

/// Flushing moves letters from the line to the lines and loses none.
proof fn lemma_flushed(setting: Setting)
    requires
        well_marked(setting.sink.line, setting.sink.marks.marker),
        settable(setting.sink),
    ensures
        on_paper(flushed(setting)) == on_paper(setting),
        settable(flushed(setting).sink),
        flushed(setting).sink.line == Seq::<char>::empty(),
{
    let after = flushed(setting);
    let marker = setting.sink.marks.marker;
    let none = Seq::<char>::empty();
    if setting.sink.line.len() == 0 {
        assert(setting.sink.line =~= none);
    } else {
        assert(setting.lines.push(setting.sink.line).drop_last() =~= setting.lines);
        assert(plain_text(none, marker) == none);
        assert(spaceless(none) == none);
        assert(on_paper(after) =~= on_paper(setting));
        assert(utf8_len(none) == 0);
        assert forall|i: int| 0 <= i < after.sink.words.len() implies #[trigger] word_is_settable(
            after.sink,
            i,
        ) by {
            assert(word_is_settable(setting.sink, i));
        }
    }
}

proof fn lemma_after_flush(setting: Setting, before: Seq<char>)
    requires
        set_right(setting, before),
        setting.sink.stage is RoleChanged || setting.sink.stage is Overflowed || setting.sink.stage
            is Wrapped || setting.sink.stage is Ending,
    ensures
        flushed(setting).sink.line_flushed() matches Some(next) && set_right(
            Setting { sink: next.0, ..flushed(setting) },
            before,
        ),
{
    let after = flushed(setting);
    let sink = after.sink;
    let marker = sink.marks.marker;
    lemma_flushed(setting);
    assert(well_marked(sink.line, marker));
    assert(sink.stage == setting.sink.stage);
    match sink.stage {
        SinkStage::RoleChanged => {
            let started = Setting { sink: sink.words_started(), ..after };
            assert forall|i: int| 0 <= i < started.sink.words.len() implies #[trigger] word_is_settable(
                started.sink,
                i,
            ) by {
                assert(word_is_settable(sink, i));
            }
            assert(on_paper(started) == on_paper(after));
            lemma_next_word(started, before);
        },
        SinkStage::Overflowed | SinkStage::Wrapped => {
            assert(word_is_settable(sink, sink.next));
            assert(sink.state.style == FontStyle::Regular);
            let pieces = sink.pieces(false);
            assert(pieces_fit(sink.line, pieces, sink.capacity));
            lemma_word_adds_its_letters(sink, false);
            lemma_line_bound(sink.line, pieces, sink.capacity);
            lemma_joined_next(sink.words, sink.next);
            let next = Setting { sink: (sink.line_flushed()->0).0, ..after };
            let line = with_pieces(sink.line, pieces, sink.capacity);
            assert(next.sink.line == line);
            assert(on_paper(next) =~= on_paper(after) + sink.word());
            assert(before + joined(sink.words.take(sink.next)) + sink.word() =~= before + (joined(
                sink.words.take(sink.next),
            ) + sink.word()));
            if line.len() == 0 {
                assert(plain_text(line, marker) == Seq::<char>::empty());
                assert(letters(line, marker) == Seq::<char>::empty());
                assert(letters(line, marker).len() == letters(sink.line, marker).len()
                    + sink.word().len());
            }
            assert forall|i: int| 0 <= i < next.sink.words.len() implies #[trigger] word_is_settable(
                next.sink,
                i,
            ) by {
                assert(word_is_settable(sink, i));
            }
        },
        _ => {
            let next = Setting { sink: (sink.line_flushed()->0).0, ..after };
            assert(on_paper(next) == on_paper(after));
            assert forall|i: int| 0 <= i < next.sink.words.len() implies #[trigger] word_is_settable(
                next.sink,
                i,
            ) by {
                assert(word_is_settable(sink, i));
            }
        },
    }
}

proof fn lemma_settled(setting: Setting, before: Seq<char>, line_was_empty: bool)
    requires
        set_right(setting, before),
        setting.sink.stage is Measuring || setting.sink.stage is Remeasuring,
    ensures
        set_right(
            Setting { sink: setting.sink.word_settled(line_was_empty).next_word().0, ..setting },
            before,
        ),
{
    let sink = setting.sink;
    let marker = sink.marks.marker;
    let settled = Setting { sink: sink.word_settled(line_was_empty), ..setting };
    assert(on_paper(settled) == on_paper(setting));
    assert(word_is_settable(sink, sink.next));
    if sink.line.len() == 0 {
        assert(plain_text(sink.line, marker) == Seq::<char>::empty());
        assert(letters(sink.line, marker).len() == 0);
    }
    assert(sink.line.len() > 0);
    assert forall|i: int| 0 <= i < settled.sink.words.len() implies #[trigger] word_is_settable(
        settled.sink,
        i,
    ) by {
        assert(word_is_settable(sink, i));
    }
    lemma_next_word(settled, before);
}

proof fn lemma_wrapped(setting: Setting, before: Seq<char>, answer: Measured)
    requires
        set_right(setting, before),
        setting.sink.stage is Measuring,
        setting.sink.measured(answer.width, answer.column, answer.opens_paragraph) matches Some(next)
            && next.1 is WrapLine,
    ensures
        set_right(set_on(setting, answer), before),
{
    let sink = setting.sink;
    let marker = sink.marks.marker;
    let next = set_on(setting, answer);
    let kept_chars = sink.stage->Measuring_kept_chars as int;
    let kept = sink.line.take(kept_chars);
    lemma_next_is_wrap(setting, answer);
    assert(next.sink.line == kept);
    lemma_joined_next(sink.words, sink.next);
    let word = sink.words[sink.next];
    let old_lines = letters_of(setting.lines, marker);
    assert(on_paper(setting) =~= (old_lines + letters(kept, marker)) + word);
    assert(before + (joined(sink.words.take(sink.next)) + word) =~= (before + joined(
        sink.words.take(sink.next),
    )) + word);
    lemma_cancel(
        old_lines + letters(kept, marker),
        before + joined(sink.words.take(sink.next)),
        word,
    );
    crate::bounded::lemma_utf8_len_prefix(sink.line, kept_chars);
    assert forall|i: int| 0 <= i < next.sink.words.len() implies #[trigger] word_is_settable(
        next.sink,
        i,
    ) by {
        assert(word_is_settable(sink, i));
    }
}

proof fn lemma_next_is_wrap(setting: Setting, answer: Measured)
    requires
        setting.sink.stage is Measuring,
        setting.sink.measured(answer.width, answer.column, answer.opens_paragraph) matches Some(next)
            && next.1 is WrapLine,
    ensures
        ({
            let sink = setting.sink;
            let next = set_on(setting, answer).sink;
            &&& next.line == sink.line.take(sink.stage->Measuring_kept_chars as int)
            &&& next.stage is Wrapped
            &&& next.words == sink.words
            &&& next.next == sink.next
            &&& next.run == sink.run
            &&& next.marks == sink.marks
            &&& next.capacity == sink.capacity
            &&& !sink.stage->Measuring_line_was_empty
            &&& set_on(setting, answer).lines == setting.lines
        }),
{
    let sink = setting.sink;
    let settled = sink.word_settled(sink.stage->Measuring_line_was_empty).next_word();
    assert(!(settled.1 is WrapLine));
}

/// One answer keeps the setting right.
pub proof fn lemma_set_on(setting: Setting, before: Seq<char>, answer: Measured)
    requires
        set_right(setting, before),
    ensures
        set_right(set_on(setting, answer), before),
{
    let sink = setting.sink;
    match sink.stage {
        SinkStage::Ready => {},
        SinkStage::Measuring { line_was_empty, .. } => {
            let next = sink.measured(answer.width, answer.column, answer.opens_paragraph)->0;
            if next.1 is WrapLine {
                lemma_wrapped(setting, before, answer);
            } else {
                lemma_settled(setting, before, line_was_empty);
            }
        },
        SinkStage::Remeasuring => {
            lemma_settled(setting, before, true);
        },
        _ => {
            lemma_after_flush(setting, before);
        },
    }
}

proof fn lemma_set_all(setting: Setting, before: Seq<char>, answers: Seq<Measured>)
    requires
        set_right(setting, before),
    ensures
        set_right(set_all(setting, answers), before),
    decreases answers.len(),
{
    if answers.len() > 0 {
        lemma_set_all(setting, before, answers.drop_last());
        lemma_set_on(set_all(setting, answers.drop_last()), before, answers.last());
    }
}

proof fn lemma_joined_front(first: Seq<char>, rest: Seq<Seq<char>>)
    ensures
        joined(seq![first] + rest) == first + joined(rest),
    decreases rest.len(),
{
    let all = seq![first] + rest;
    if rest.len() == 0 {
        assert(all.drop_last() =~= Seq::<Seq<char>>::empty());
        assert(joined(Seq::<Seq<char>>::empty()) == Seq::<char>::empty());
        assert(joined(all) =~= first);
        assert(first + joined(rest) =~= first);
    } else {
        assert(all.drop_last() =~= seq![first] + rest.drop_last());
        lemma_joined_front(first, rest.drop_last());
        assert(joined(all) =~= first + joined(rest));
    }
}

proof fn lemma_word_len_facts(text: Seq<char>)
    ensures
        word_len(text) <= text.len(),
        forall|i: int| 0 <= i < word_len(text) ==> !is_white_space(#[trigger] text[i]),
    decreases text.len(),
{
    if text.len() > 0 && !is_white_space(text[0]) {
        let rest = text.drop_first();
        lemma_word_len_facts(rest);
        assert forall|i: int| 0 <= i < word_len(text) implies !is_white_space(#[trigger] text[i]) by {
            if i > 0 {
                assert(rest[i - 1] == text[i]);
            }
        }
    }
}

/// The words of a text are its letters: nothing but space lies between them.
pub proof fn law_words_are_the_letters(text: Seq<char>)
    ensures
        joined(words(text)) == spaceless(text),
    decreases text.len(),
{
    if text.len() > 0 {
        if is_white_space(text[0]) {
            law_words_are_the_letters(text.drop_first());
        } else {
            let n = word_len(text) as int;
            lemma_word_len_facts(text);
            let word = text.take(n);
            let rest = text.skip(n);
            law_words_are_the_letters(rest);
            lemma_joined_front(word, words(rest));
            assert(word + rest =~= text);
            lemma_spaceless_concat(word, rest);
            assert forall|j: int| 0 <= j < word.len() implies !is_white_space(#[trigger] word[j]) by {
                assert(word[j] == text[j]);
            }
            lemma_spaceless_word(word);
        }
    }
}

/// A block of the book is begun with nothing lost.
pub proof fn lemma_block_begins(
    sink: SinkModel,
    lines: Seq<Seq<char>>,
    text: Seq<char>,
    style: FontStyle,
    role: TextRole,
    align: TextAlign,
    paragraph_end: bool,
    starts: bool,
    ends: bool,
)
    requires
        well_marked(sink.line, sink.marks.marker),
        settable(
            SinkModel {
                words: words(text),
                run: RunStyle { style, ..sink.run },
                ..sink
            },
        ),
    ensures
        set_right(
            Setting {
                sink: sink.text_taken(text, style, role, align, paragraph_end, starts, ends).0,
                lines,
            },
            on_paper(Setting { sink, lines }),
        ),
        sink.text_taken(text, style, role, align, paragraph_end, starts, ends).0.words == words(text),
{
    let before = on_paper(Setting { sink, lines });
    let begun = sink.text_taken(text, style, role, align, paragraph_end, starts, ends).0;
    let given = SinkModel { words: words(text), run: RunStyle { style, ..sink.run }, ..sink };
    let run = RunStyle {
        style,
        role,
        align: crate::line::block_align(align, text, role),
        paragraph_end,
        starts_with_space: starts,
        ends_with_space: ends,
    };
    let set = SinkModel { words: words(text), next: 0, run, ..sink };
    assert(words(text).take(0) =~= Seq::<Seq<char>>::empty());
    assert(joined(Seq::<Seq<char>>::empty()) == Seq::<char>::empty());
    assert(before + Seq::<char>::empty() =~= before);
    assert forall|i: int| 0 <= i < set.words.len() implies #[trigger] word_is_settable(set, i) by {
        assert(word_is_settable(given, i));
    }
    let start = Setting { sink: begun, lines };
    if sink.line.len() > 0 && (sink.state.role != run.role || sink.state.align != run.align) {
        assert forall|i: int| 0 <= i < begun.words.len() implies #[trigger] word_is_settable(
            begun,
            i,
        ) by {
            assert(word_is_settable(given, i));
        }
        assert(on_paper(start) == before);
        assert(set_right(start, before));
    } else {
        let ready = Setting { sink: set.words_started(), lines };
        assert forall|i: int| 0 <= i < ready.sink.words.len() implies #[trigger] word_is_settable(
            ready.sink,
            i,
        ) by {
            assert(word_is_settable(given, i));
        }
        assert(on_paper(ready) == before);
        lemma_next_word(ready, before);
    }
}

/// The same, held as one fact.
#[verifier::opaque]
pub open spec fn stands_right(setting: Setting, before: Seq<char>) -> bool {
    set_right(setting, before)
}

/// The sink once it has taken a text, held as one value.
#[verifier::opaque]
pub open spec fn text_begun(
    sink: SinkModel,
    text: Seq<char>,
    style: FontStyle,
    role: TextRole,
    align: TextAlign,
    paragraph_end: bool,
    starts: bool,
    ends: bool,
) -> SinkModel {
    sink.text_taken(text, style, role, align, paragraph_end, starts, ends).0
}

pub proof fn lemma_begun_stands_right(
    sink: SinkModel,
    lines: Seq<Seq<char>>,
    text: Seq<char>,
    style: FontStyle,
    role: TextRole,
    align: TextAlign,
    paragraph_end: bool,
    starts: bool,
    ends: bool,
)
    requires
        well_marked(sink.line, sink.marks.marker),
        settable(
            SinkModel {
                words: words(text),
                run: RunStyle { style, ..sink.run },
                ..sink
            },
        ),
    ensures
        stands_right(
            Setting {
                sink: text_begun(sink, text, style, role, align, paragraph_end, starts, ends),
                lines,
            },
            on_paper(Setting { sink, lines }),
        ),
        text_begun(sink, text, style, role, align, paragraph_end, starts, ends).words == words(text),
{
    lemma_block_begins(sink, lines, text, style, role, align, paragraph_end, starts, ends);
    reveal(stands_right);
    reveal(text_begun);
}

/// A block that is set leaves all its letters on the lines, in order and
/// behind what stood there before, whatever widths come back and however
/// often the lines are wrapped. Its words hold no marker and each fits a line.
pub proof fn law_block_is_set_whole(
    sink: SinkModel,
    lines: Seq<Seq<char>>,
    text: Seq<char>,
    style: FontStyle,
    role: TextRole,
    align: TextAlign,
    paragraph_end: bool,
    starts: bool,
    ends: bool,
    answers: Seq<Measured>,
)
    requires
        well_marked(sink.line, sink.marks.marker),
        settable(
            SinkModel {
                words: words(text),
                run: RunStyle { style, ..sink.run },
                ..sink
            },
        ),
    ensures
        block_is_set_whole(
            Setting {
                sink: sink.text_taken(text, style, role, align, paragraph_end, starts, ends).0,
                lines,
            },
            on_paper(Setting { sink, lines }),
            text,
            answers,
        ),
{
    lemma_begun_is_set_whole(
        sink,
        lines,
        text,
        style,
        role,
        align,
        paragraph_end,
        starts,
        ends,
        answers,
    );
    reveal(text_begun);
}

/// Whether a block, once it is set, has left what was there before and its own
/// letters behind it.
pub open spec fn block_is_set_whole(start: Setting, before: Seq<char>, text: Seq<char>, answers: Seq<Measured>) -> bool {
    let done = set_all(start, answers);
    done.sink.stage is Ready ==> on_paper(done) == before + spaceless(text)
}

proof fn lemma_begun_is_set_whole(
    sink: SinkModel,
    lines: Seq<Seq<char>>,
    text: Seq<char>,
    style: FontStyle,
    role: TextRole,
    align: TextAlign,
    paragraph_end: bool,
    starts: bool,
    ends: bool,
    answers: Seq<Measured>,
)
    requires
        well_marked(sink.line, sink.marks.marker),
        settable(
            SinkModel {
                words: words(text),
                run: RunStyle { style, ..sink.run },
                ..sink
            },
        ),
    ensures
        block_is_set_whole(
            Setting {
                sink: text_begun(sink, text, style, role, align, paragraph_end, starts, ends),
                lines,
            },
            on_paper(Setting { sink, lines }),
            text,
            answers,
        ),
{
    let begun = text_begun(sink, text, style, role, align, paragraph_end, starts, ends);
    lemma_begun_stands_right(sink, lines, text, style, role, align, paragraph_end, starts, ends);
    lemma_set_done(
        Setting { sink: begun, lines },
        on_paper(Setting { sink, lines }),
        text,
        answers,
    );
}

proof fn lemma_set_done(start: Setting, before: Seq<char>, text: Seq<char>, answers: Seq<Measured>)
    requires
        stands_right(start, before),
        start.sink.words == words(text),
    ensures
        block_is_set_whole(start, before, text, answers),
{
    reveal(stands_right);
    lemma_set_all(start, before, answers);
    let done = set_all(start, answers);
    lemma_words_stay(start, answers);
    law_words_are_the_letters(text);
    if done.sink.stage is Ready {
        assert(done.sink.words.take(done.sink.words.len() as int) =~= done.sink.words);
    }
}

proof fn lemma_words_stay(setting: Setting, answers: Seq<Measured>)
    ensures
        set_all(setting, answers).sink.words == setting.sink.words,
    decreases answers.len(),
{
    if answers.len() > 0 {
        lemma_words_stay(setting, answers.drop_last());
    }
}

} // verus!
