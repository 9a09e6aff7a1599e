//! What holds of every block that is set: its words stay whole and in order,
//! its anchors stay inside it, and it ends the paragraph it says it ends.
use vstd::prelude::*;
use crate::line::{
    lemma_pieces_extend, mark_code, pieces_fit, plain_text, with_pieces, word_pieces, FontStyle,
    StyleMarks, TextAlign, TextRole,
};
use crate::sink::{saturated, word_taken, Column, LineState, SinkAction, SinkModel};
use crate::text::{is_book_text, opens_with_punctuation};

verus! {

/// Whether every marker of a line is followed by its code.
pub open spec fn well_marked(line: Seq<char>, marker: char) -> bool
    decreases line.len(),
{
    if line.len() == 0 {
        true
    } else if line[0] == marker {
        line.len() >= 2 && well_marked(line.skip(2), marker)
    } else {
        well_marked(line.drop_first(), marker)
    }
}

proof fn lemma_plain_concat(a: Seq<char>, b: Seq<char>, marker: char)
    requires
        well_marked(a, marker),
    ensures
        plain_text(a + b, marker) == plain_text(a, marker) + plain_text(b, marker),
        well_marked(a + b, marker) == well_marked(b, marker),
    decreases a.len(),
{
    if a.len() == 0 {
        assert(a + b =~= b);
        assert(plain_text(a, marker) + plain_text(b, marker) =~= plain_text(b, marker));
    } else {
        assert((a + b)[0] == a[0]);
        if a[0] == marker {
            assert((a + b).skip(2) =~= a.skip(2) + b);
            lemma_plain_concat(a.skip(2), b, marker);
        } else {
            assert((a + b).drop_first() =~= a.drop_first() + b);
            lemma_plain_concat(a.drop_first(), b, marker);
            assert(plain_text(a + b, marker) =~= plain_text(a, marker) + plain_text(b, marker));
        }
    }
}

proof fn lemma_plain_without_marker(text: Seq<char>, marker: char)
    requires
        forall|i: int| 0 <= i < text.len() ==> #[trigger] text[i] != marker,
    ensures
        well_marked(text, marker),
        plain_text(text, marker) == text,
    decreases text.len(),
{
    if text.len() > 0 {
        let rest = text.drop_first();
        assert forall|i: int| 0 <= i < rest.len() implies #[trigger] rest[i] != marker by {
            assert(rest[i] == text[i + 1]);
        }
        lemma_plain_without_marker(rest, marker);
        assert(seq![text[0]] + rest =~= text);
    }
}

proof fn lemma_all_pieces(line: Seq<char>, a: Seq<char>, rest: Seq<Seq<char>>, capacity: int)
    requires
        pieces_fit(line, seq![a] + rest, capacity),
    ensures
        with_pieces(line, seq![a] + rest, capacity) == with_pieces(line + a, rest, capacity),
        pieces_fit(line + a, rest, capacity),
{
    assert((seq![a] + rest)[0] == a);
    assert((seq![a] + rest).drop_first() =~= rest);
}

/// What a word that fits adds to a line: the space that was due and the word
/// itself, whole and at the end; what the line said before it still says. The
/// marker is nobody's letter, so the word does not hold it.
pub proof fn law_word_is_set_whole(
    line: Seq<char>,
    word: Seq<char>,
    style: FontStyle,
    current: FontStyle,
    leading_space: bool,
    marks: StyleMarks,
    capacity: int,
)
    requires
        well_marked(line, marks.marker),
        marks.marker != ' ',
        forall|i: int| 0 <= i < word.len() ==> #[trigger] word[i] != marks.marker,
        pieces_fit(line, word_pieces(word, style, current, leading_space, marks), capacity),
    ensures
        ({
            let pieces = word_pieces(word, style, current, leading_space, marks);
            let after = with_pieces(line, pieces, capacity);
            &&& well_marked(after, marks.marker)
            &&& plain_text(after, marks.marker) == plain_text(line, marks.marker) + (
            if leading_space { seq![' '] } else { Seq::<char>::empty() }) + word
        }),
{
    let marker = marks.marker;
    let code = mark_code(marks, style);
    let none = Seq::<Seq<char>>::empty();
    let pieces = word_pieces(word, style, current, leading_space, marks);
    let mark = if style != current { seq![seq![marker], seq![code]] } else { none };
    let tail = mark + seq![word];
    let spaced = if leading_space { line + seq![' '] } else { line };
    let space = if leading_space { seq![' '] } else { Seq::<char>::empty() };
    if leading_space {
        assert(pieces =~= seq![seq![' ']] + tail);
        lemma_all_pieces(line, seq![' '], tail, capacity);
    } else {
        assert(pieces =~= tail);
    }
    assert(with_pieces(line, pieces, capacity) == with_pieces(spaced, tail, capacity));
    assert(pieces_fit(spaced, tail, capacity));
    lemma_plain_without_marker(space, marker);
    lemma_plain_concat(line, space, marker);
    assert(spaced =~= line + space);
    let marked = if style != current { spaced + seq![marker] + seq![code] } else { spaced };
    if style != current {
        assert(tail =~= seq![seq![marker]] + (seq![seq![code]] + seq![word]));
        lemma_all_pieces(spaced, seq![marker], seq![seq![code]] + seq![word], capacity);
        lemma_all_pieces(spaced + seq![marker], seq![code], seq![word], capacity);
        let both = seq![marker, code];
        assert(both[0] == marker);
        assert(both.skip(2) =~= Seq::<char>::empty());
        assert(well_marked(Seq::<char>::empty(), marker));
        assert(plain_text(Seq::<char>::empty(), marker) == Seq::<char>::empty());
        assert(well_marked(both, marker));
        assert(plain_text(both, marker) =~= Seq::<char>::empty());
        assert(marked =~= spaced + both);
        lemma_plain_concat(spaced, both, marker);
        assert(plain_text(marked, marker) =~= plain_text(spaced, marker));
    } else {
        assert(tail =~= seq![word]);
    }
    assert(seq![word] =~= seq![word] + none);
    assert(pieces_fit(marked, seq![word] + none, capacity));
    lemma_all_pieces(marked, word, none, capacity);
    assert(with_pieces(marked + word, none, capacity) == marked + word);
    lemma_plain_without_marker(word, marker);
    lemma_plain_concat(marked, word, marker);
}

/// A word that ran past the column leaves its line as it found it.
pub proof fn law_wrapped_word_leaves_the_line(
    sink: SinkModel,
    width: i16,
    column: Column,
    opens_paragraph: bool,
)
    requires
        0 <= sink.next < sink.words.len(),
        sink.line.len() <= usize::MAX,
        pieces_fit(sink.line, sink.pieces(sink.spaced()), sink.capacity),
    ensures
        sink.next_word().0.measured(width, column, opens_paragraph) matches Some(next) && (next.1
            is WrapLine ==> next.0.line == sink.line && next.0.next == sink.next),
{
    lemma_pieces_extend(sink.line, sink.pieces(sink.spaced()), sink.capacity);
}

/// A word alone on its line is never wrapped, however wide: setting always
/// goes on.
pub proof fn law_lone_word_is_never_wrapped(
    sink: SinkModel,
    width: i16,
    column: Column,
    opens_paragraph: bool,
)
    requires
        sink.stage is Remeasuring || (sink.stage is Measuring
            && sink.stage->Measuring_line_was_empty),
    ensures
        sink.measured(width, column, opens_paragraph) matches Some(next) && !(next.1 is WrapLine),
{
}

/// A block is never consumed past its end, what is consumed never shrinks,
/// and where a line begins lies inside the block its first word came from.
pub proof fn law_anchors_stay_in_their_block(state: LineState, word: Seq<char>, line_was_empty: bool)
    requires
        state.block_consumed <= state.block_len,
    ensures
        ({
            let after = word_taken(state, word, line_was_empty);
            &&& state.block_consumed <= after.block_consumed <= after.block_len
            &&& line_was_empty ==> saturated(state.block_offset as int) <= after.line_offset
                <= saturated(state.block_offset + state.block_len)
            &&& !line_was_empty ==> after.line_offset == state.line_offset
        }),
{
}

/// Lines that begin later in a block have later anchors.
pub proof fn law_anchors_are_in_order(state: LineState, word: Seq<char>, next: Seq<char>)
    requires
        state.block_consumed <= state.block_len,
    ensures
        word_taken(state, word, true).line_offset <= word_taken(
            word_taken(state, word, true),
            next,
            true,
        ).line_offset,
{
}

/// A block that is left out still ends its paragraph when it says so, and
/// otherwise takes the rest of the paragraph with it.
pub proof fn law_left_out_block_ends_its_paragraph(
    sink: SinkModel,
    text: Seq<char>,
    normal: Seq<char>,
    style: FontStyle,
    role: TextRole,
    align: TextAlign,
    paragraph_end: bool,
)
    requires
        !sink.state.dropping_paragraph,
        !is_book_text(normal),
    ensures
        ({
            let next = sink.block_taken(text, normal, style, role, align, paragraph_end);
            &&& next.0.state.dropping_paragraph == !paragraph_end
            &&& next.0.line == sink.line
            &&& paragraph_end ==> next.1 == (SinkAction::FlushLine { paragraph_end: true })
        }),
{
}

/// No space is set before closing punctuation or at the start of a line.
pub proof fn law_punctuation_attaches(sink: SinkModel)
    ensures
        opens_with_punctuation(sink.word()) || sink.line.len() == 0 ==> !sink.spaced(),
{
}

} // verus!
