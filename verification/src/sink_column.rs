//! Lines and their column: a word joins a line exactly while the line stays
//! left of the column's edge, and what a block says is what is set.
use vstd::prelude::*;
use crate::chars::{is_white_space, words};
use crate::line::{FontStyle, TextAlign, TextRole};
use crate::sink::{is_opening, RunStyle, SinkAction, SinkModel, SinkStage};
use crate::sink_laws::well_marked;
use crate::sink_runs::{
    lemma_begun_stands_right, lemma_set_on, letters, on_paper, set_on, set_right, settable,
    stands_right, text_begun, word_is_settable, Measured, Setting,
};
use crate::spine::{column_of, Measurement};
use crate::text::{is_book_text, is_separator, trimmed_block};

verus! {

/// Where a measured line would end on the page: from the left edge of its
/// column, moved in where it opens a paragraph, over its width, with the
/// safety left free.
pub open spec fn line_end(answer: Measured) -> int {
    answer.column.x + (if answer.opens_paragraph { answer.column.indent as int } else { 0int })
        + answer.width + answer.column.safety
}

/// Whether a measured line keeps left of its column's edge.
pub open spec fn keeps_its_column(answer: Measured) -> bool {
    line_end(answer) <= answer.column.max_x
}

/// A word that joins a line which already holds words stays on it exactly
/// when the line still keeps its column; otherwise it is taken back, whole,
/// and the line is as it was without it.
pub proof fn law_word_stays_while_the_line_fits(sink: SinkModel, answer: Measured)
    requires
        sink.stage matches SinkStage::Measuring { line_was_empty, .. } && !line_was_empty,
    ensures
        sink.measured(answer.width, answer.column, answer.opens_paragraph) matches Some(next) && {
            &&& next.1 is WrapLine <==> !keeps_its_column(answer)
            &&& next.1 is WrapLine ==> next.0.line == sink.line.take(
                sink.stage->Measuring_kept_chars as int,
            ) && next.0.next == sink.next && next.0.stage is Wrapped
            &&& !(next.1 is WrapLine) ==> next.0.next == sink.next + 1
        },
{
}

/// How a line is filled: how many words have been left on it, and the measure
/// the last of them was left by.
pub struct Filled {
    pub words: nat,
    pub last: Option<Measured>,
}

/// A setting, with the filling of the line in progress and of the lines that
/// have gone out.
pub struct Filling {
    pub setting: Setting,
    pub now: Filled,
    pub lines: Seq<Filled>,
}

/// One more answer, seen from outside: where the setting goes on to its next
/// word the answer has left one on the line, and where a line has gone out
/// the next begins.
pub open spec fn fill_on(run: Filling, answer: Measured) -> Filling {
    let after = set_on(run.setting, answer);
    let left = if after.sink.next > run.setting.sink.next {
        Filled { words: run.now.words + 1, last: Some(answer) }
    } else {
        run.now
    };
    if after.lines.len() > run.setting.lines.len() {
        Filling {
            setting: after,
            now: Filled { words: 0, last: None },
            lines: run.lines.push(left),
        }
    } else {
        Filling { setting: after, now: left, lines: run.lines }
    }
}

pub open spec fn fill_all(run: Filling, answers: Seq<Measured>) -> Filling
    decreases answers.len(),
{
    if answers.len() == 0 {
        run
    } else {
        fill_on(fill_all(run, answers.drop_last()), answers.last())
    }
}

/// A line of more than one word keeps its column.
pub open spec fn filled_right(line: Filled) -> bool {
    line.words > 1 ==> (line.last matches Some(answer) && keeps_its_column(answer))
}

spec fn fill_invariant(run: Filling, before: Seq<char>) -> bool {
    let sink = run.setting.sink;
    &&& set_right(run.setting, before)
    &&& filled_right(run.now)
    &&& forall|i: int| 0 <= i < run.lines.len() ==> filled_right(#[trigger] run.lines[i])
    &&& match sink.stage {
        SinkStage::Measuring { line_was_empty, .. } => line_was_empty ==> run.now.words == 0,
        SinkStage::Remeasuring => run.now.words == 0,
        _ => sink.line.len() == 0 ==> run.now.words == 0,
    }
}

/// The line that is being measured holds the word.
proof fn lemma_measured_line(setting: Setting, before: Seq<char>)
    requires
        set_right(setting, before),
        setting.sink.stage is Measuring,
    ensures
        setting.sink.line.len() > 0,
{
    let sink = setting.sink;
    assert(word_is_settable(sink, sink.next));
    if sink.line.len() == 0 {
        assert(sink.line.take(0) =~= sink.line);
        assert(letters(sink.line, sink.marks.marker).len() == letters(
            sink.line,
            sink.marks.marker,
        ).len() + sink.words[sink.next].len());
    }
}

proof fn lemma_fill_on(run: Filling, before: Seq<char>, answer: Measured)
    requires
        fill_invariant(run, before),
    ensures
        fill_invariant(fill_on(run, answer), before),
{
    let sink = run.setting.sink;
    let next = fill_on(run, answer);
    lemma_set_on(run.setting, before, answer);
    match sink.stage {
        SinkStage::Measuring { line_was_empty, .. } => {
            lemma_measured_line(run.setting, before);
            if !line_was_empty {
                law_word_stays_while_the_line_fits(sink, answer);
            }
        },
        _ => {},
    }
    assert forall|i: int| 0 <= i < next.lines.len() implies filled_right(
        #[trigger] next.lines[i],
    ) by {
        if i < run.lines.len() {
            assert(next.lines[i] == run.lines[i]);
        }
    }
}

proof fn lemma_fill_all(run: Filling, before: Seq<char>, answers: Seq<Measured>)
    requires
        fill_invariant(run, before),
    ensures
        fill_invariant(fill_all(run, answers), before),
    decreases answers.len(),
{
    if answers.len() > 0 {
        lemma_fill_all(run, before, answers.drop_last());
        lemma_fill_on(fill_all(run, answers.drop_last()), before, answers.last());
    }
}

/// A block begins on the line that the block before it left: what it finds
/// empty was empty, and what it empties goes out first.
proof fn lemma_begun_finds_its_line(
    sink: SinkModel,
    text: Seq<char>,
    style: FontStyle,
    role: TextRole,
    align: TextAlign,
    paragraph_end: bool,
    starts: bool,
    ends: bool,
)
    ensures
        ({
            let begun = text_begun(sink, text, style, role, align, paragraph_end, starts, ends);
            match begun.stage {
                SinkStage::Measuring { line_was_empty, .. } => line_was_empty ==> sink.line.len()
                    == 0,
                SinkStage::Remeasuring => sink.line.len() == 0,
                _ => begun.line.len() == 0 ==> sink.line.len() == 0,
            }
        }),
{
    reveal(text_begun);
}

/// Whether every line of a block keeps its column.
pub open spec fn block_keeps_its_column(begun: SinkModel, held: Filled, answers: Seq<Measured>) -> bool {
    let run = fill_all(
        Filling {
            setting: Setting { sink: begun, lines: Seq::empty() },
            now: held,
            lines: Seq::empty(),
        },
        answers,
    );
    &&& filled_right(run.now)
    &&& forall|i: int| 0 <= i < run.lines.len() ==> filled_right(#[trigger] run.lines[i])
}

proof fn lemma_begun_keeps_its_column(
    sink: SinkModel,
    text: Seq<char>,
    style: FontStyle,
    role: TextRole,
    align: TextAlign,
    paragraph_end: bool,
    starts: bool,
    ends: bool,
    held: Filled,
    answers: Seq<Measured>,
)
    requires
        well_marked(sink.line, sink.marks.marker),
        settable(SinkModel { words: words(text), run: RunStyle { style, ..sink.run }, ..sink }),
        filled_right(held),
        sink.line.len() == 0 ==> held.words == 0,
    ensures
        block_keeps_its_column(
            text_begun(sink, text, style, role, align, paragraph_end, starts, ends),
            held,
            answers,
        ),
{
    let begun = text_begun(sink, text, style, role, align, paragraph_end, starts, ends);
    let before = on_paper(Setting { sink, lines: Seq::empty() });
    lemma_begun_stands_right(
        sink,
        Seq::empty(),
        text,
        style,
        role,
        align,
        paragraph_end,
        starts,
        ends,
    );
    lemma_begun_finds_its_line(sink, text, style, role, align, paragraph_end, starts, ends);
    lemma_fill_from(begun, before, held, answers);
}

/// Over the whole of a block, whatever widths come back: no line of more than
/// one word goes out, and none is left in progress, that passes its column's
/// edge by the measure its last word was left by. `held` is what stands on the
/// line from the block before.
pub proof fn law_lines_keep_their_column(
    sink: SinkModel,
    text: Seq<char>,
    style: FontStyle,
    role: TextRole,
    align: TextAlign,
    paragraph_end: bool,
    starts: bool,
    ends: bool,
    held: Filled,
    answers: Seq<Measured>,
)
    requires
        well_marked(sink.line, sink.marks.marker),
        settable(SinkModel { words: words(text), run: RunStyle { style, ..sink.run }, ..sink }),
        filled_right(held),
        sink.line.len() == 0 ==> held.words == 0,
    ensures
        block_keeps_its_column(
            sink.text_taken(text, style, role, align, paragraph_end, starts, ends).0,
            held,
            answers,
        ),
{
    lemma_begun_keeps_its_column(
        sink,
        text,
        style,
        role,
        align,
        paragraph_end,
        starts,
        ends,
        held,
        answers,
    );
    reveal(text_begun);
}

proof fn lemma_fill_from(begun: SinkModel, before: Seq<char>, held: Filled, answers: Seq<Measured>)
    requires
        stands_right(Setting { sink: begun, lines: Seq::empty() }, before),
        filled_right(held),
        match begun.stage {
            SinkStage::Measuring { line_was_empty, .. } => line_was_empty ==> held.words == 0,
            SinkStage::Remeasuring => held.words == 0,
            _ => begun.line.len() == 0 ==> held.words == 0,
        },
    ensures
        block_keeps_its_column(begun, held, answers),
{
    reveal(stands_right);
    let start = Filling {
        setting: Setting { sink: begun, lines: Seq::empty() },
        now: held,
        lines: Seq::empty(),
    };
    lemma_fill_all(start, before, answers);
}

/// A line is measured in the column of its role, moved in for a first line
/// only where body text runs from the left edge.
pub proof fn law_column_is_the_measured_one(run: RunStyle, measured: Measurement)
    ensures
        ({
            let column = column_of(run, measured);
            &&& column.x == measured.x
            &&& column.max_x == measured.max_x
            &&& column.safety == measured.safety
            &&& column.indent == if run.role == TextRole::Body && (run.align == TextAlign::Left
                || run.align == TextAlign::Justify) {
                measured.indent
            } else {
                0
            }
        }),
{
}

/// The first line of a section opens a paragraph, and so does any line behind
/// a block that ends one; no other does.
pub proof fn law_first_lines_open_paragraphs(block_count: usize, last_paragraph_end: Option<bool>)
    ensures
        block_count == 0 ==> is_opening(block_count, last_paragraph_end),
        last_paragraph_end == Some(true) ==> is_opening(block_count, last_paragraph_end),
        block_count > 0 && last_paragraph_end == Some(false) ==> !is_opening(
            block_count,
            last_paragraph_end,
        ),
{
}

/// A block that is text of the book is set: all its words, in order, from the
/// first on, in its own style and role. Headings, breaks and what was centred
/// are centred; the rest keeps its alignment.
pub proof fn law_book_text_is_set(
    sink: SinkModel,
    text: Seq<char>,
    normal: Seq<char>,
    style: FontStyle,
    role: TextRole,
    align: TextAlign,
    paragraph_end: bool,
)
    requires
        !sink.state.dropping_paragraph,
        is_book_text(normal),
        !is_separator(trimmed_block(normal)),
    ensures
        ({
            let next = sink.block_taken(text, normal, style, role, align, paragraph_end);
            &&& next.0.words == words(trimmed_block(normal))
            &&& next.0.next == 0
            &&& !next.0.state.dropping_paragraph
            &&& next.0.run.style == style
            &&& next.0.run.role == role
            &&& next.0.run.paragraph_end == paragraph_end
            &&& next.0.run.align == if role == TextRole::Heading1 || role == TextRole::Heading2
                || role == TextRole::Heading3 {
                TextAlign::Center
            } else {
                align
            }
            &&& next.0.run.starts_with_space <==> text.len() > 0 && is_white_space(text[0])
            &&& next.0.run.ends_with_space <==> text.len() > 0 && is_white_space(text.last())
        }),
{
}

/// A line goes out before a block of another role or alignment is begun, and
/// for no other reason: a run of the same kind goes on where the last ended.
pub proof fn law_line_breaks_where_the_kind_changes(
    sink: SinkModel,
    text: Seq<char>,
    style: FontStyle,
    role: TextRole,
    align: TextAlign,
    paragraph_end: bool,
    starts: bool,
    ends: bool,
)
    ensures
        ({
            let next = sink.text_taken(text, style, role, align, paragraph_end, starts, ends);
            next.0.stage is RoleChanged <==> sink.line.len() > 0 && (sink.state.role != role
                || sink.state.align != next.0.run.align)
        }),
        ({
            let next = sink.text_taken(text, style, role, align, paragraph_end, starts, ends);
            next.0.stage is RoleChanged ==> next.1 == (SinkAction::FlushLine { paragraph_end: false })
        }),
{
}

/// A paragraph that is being left out goes on being left out until it ends,
/// and nothing of it reaches a line; the paragraph behind it is set again.
pub proof fn law_left_out_paragraph_ends(
    sink: SinkModel,
    text: Seq<char>,
    normal: Seq<char>,
    style: FontStyle,
    role: TextRole,
    align: TextAlign,
    paragraph_end: bool,
)
    requires
        sink.state.dropping_paragraph,
    ensures
        ({
            let next = sink.block_taken(text, normal, style, role, align, paragraph_end);
            &&& next.1 is Done
            &&& next.0.line == sink.line
            &&& next.0.words == sink.words
            &&& next.0.state.dropping_paragraph <==> !paragraph_end
        }),
{
}

/// A block's last line ends its paragraph exactly when the block does.
pub proof fn law_paragraph_ends_with_its_block(sink: SinkModel)
    requires
        sink.next >= sink.words.len(),
    ensures
        sink.next_word().1 == if sink.run.paragraph_end {
            SinkAction::FlushLine { paragraph_end: true }
        } else {
            SinkAction::Done
        },
        sink.next_word().0.line == sink.line,
{
}

} // verus!
