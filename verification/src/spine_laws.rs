//! How lines leave the sink and sections leave the arena.
use vstd::prelude::*;
use crate::bounded::utf8_len;
use crate::chars::is_white_space;
use crate::line::{block_align, drawn_style, FontStyle, TextAlign, TextRole};
use crate::sections::{is_full, ArenaFacts, SectionEnd};
use crate::sink::{normal_form, FlushAction, FlushStage, RunStyle, SinkAction, SinkModel};
use crate::spine::{
    BlockModel, LineWhy, SectionWhy, SpineAction, SpineReply, SpineStage, SpineState,
};
use crate::text::{is_book_text, is_separator, opens_with_punctuation, trimmed_block};

verus! {

/// A space goes before a word exactly where the line has something on it, the
/// word does not open with closing punctuation, and there was space: between
/// the words of a run there always is, and between two runs where the one
/// ended or the other began with it.
pub proof fn law_space_goes_between_words(sink: SinkModel)
    ensures
        sink.line.len() == 0 ==> !sink.spaced(),
        opens_with_punctuation(sink.word()) ==> !sink.spaced(),
        sink.line.len() > 0 && !opens_with_punctuation(sink.word()) && sink.next > 0 ==> sink.spaced(),
        sink.line.len() > 0 && !opens_with_punctuation(sink.word()) && sink.next == 0 ==> (sink.spaced()
            <==> sink.state.pending_space || sink.run.starts_with_space),
{
}

/// The space a run ends with is kept for the next, and one that is owed stays
/// owed until a word is set or the line is done.
pub proof fn law_space_is_owed_until_a_word_comes(sink: SinkModel, line_was_empty: bool, appended: bool)
    ensures
        sink.next >= sink.words.len() ==> (sink.next_word().0.state.pending_space
            <==> sink.state.pending_space || sink.run.ends_with_space),
        !sink.word_settled(line_was_empty).state.pending_space,
        !sink.line_done(appended).0.state.pending_space,
{
}

/// A word that is set gives the line its kind: the role, alignment and style
/// of its run; and the next word is up.
pub proof fn law_word_gives_the_line_its_kind(sink: SinkModel, line_was_empty: bool)
    ensures
        ({
            let after = sink.word_settled(line_was_empty);
            &&& after.state.role == sink.run.role
            &&& after.state.align == sink.run.align
            &&& after.state.style == sink.run.style
            &&& after.next == sink.next + 1
            &&& after.line == sink.line
            &&& after.words == sink.words
        }),
        sink.line.len() == 0 ==> sink.words_started().state.role == sink.run.role
            && sink.words_started().state.align == sink.run.align && sink.words_started().state.style
            == FontStyle::Regular,
        sink.line.len() > 0 ==> sink.words_started() == sink,
{
}

/// Whether a line gives the contents a chapter: it is the first heading of an
/// item whose contents come from its headings, and says something.
pub open spec fn names_a_chapter(sink: SinkModel) -> bool {
    &&& sink.state.generate_toc_from_headings
    &&& !sink.state.generated_toc_for_spine
    &&& sink.state.role == TextRole::Heading1 || sink.state.role == TextRole::Heading2
        || sink.state.role == TextRole::Heading3
    &&& sink.toc_title().len() > 0
}

/// What is asked for about the line: that it be taken as a block of its kind,
/// in its item.
pub open spec fn pushes_the_line(action: FlushAction, sink: SinkModel, paragraph_end: bool) -> bool {
    action == (FlushAction::PushLine {
        role: sink.state.role,
        align: sink.state.align,
        paragraph_end,
        spine_index: sink.state.spine_index,
    })
}

/// An empty line is not flushed, but an end of its paragraph is marked. Any
/// other is offered as it is, behind the chapter it names, and once more
/// behind a section where there was no room; then it is gone, with the style
/// it was in. A chapter is named once in an item, by the first heading that
/// the contents take.
pub proof fn law_line_is_flushed(sink: SinkModel, paragraph_end: bool, accepted: bool, appended: bool)
    ensures
        sink.line.len() == 0 ==> sink.flush_begun(paragraph_end).1 == (if paragraph_end {
            FlushAction::MarkParagraphEnd
        } else {
            FlushAction::Nothing
        }),
        sink.line.len() > 0 ==> ({
            let (begun, action) = sink.flush_begun(paragraph_end);
            &&& action is PushToc <==> names_a_chapter(sink)
            &&& action is PushToc ==> action == (FlushAction::PushToc {
                level: if sink.state.role == TextRole::Heading1 {
                    1
                } else if sink.state.role == TextRole::Heading2 {
                    2
                } else {
                    3
                },
                spine_index: sink.state.spine_index,
            })
            &&& !(action is PushToc) ==> pushes_the_line(action, sink, paragraph_end)
            &&& action is PushToc ==> (begun.toc_pushed(accepted) matches Some(next) && pushes_the_line(
                next.1,
                sink,
                paragraph_end,
            ) && next.0.line == sink.line && (next.0.state.generated_toc_for_spine <==> accepted))
            &&& !(action is PushToc) ==> (begun.line_pushed(accepted, appended) matches Some(next) && (
            if accepted {
                next.1 == (FlushAction::Flushed { appended, line_offset: sink.state.line_offset })
                    && next.0.line.len() == 0 && next.0.state.style == FontStyle::Regular
            } else {
                next.1 is FlushSection && next.0.line == sink.line && (
                next.0.section_flushed() matches Some(again) && pushes_the_line(
                    again.1,
                    sink,
                    paragraph_end,
                ) && (again.0.line_pushed(appended, appended) matches Some(last) && last.1
                    == (FlushAction::Flushed { appended, line_offset: sink.state.line_offset })
                    && last.0.line.len() == 0))
            }))
        }),
{
}

/// A line that does not fit is flushed, and its word begins the next: by
/// itself, without a space before it.
pub proof fn law_word_begins_the_next_line(sink: SinkModel)
    requires
        sink.stage is Overflowed || sink.stage is Wrapped,
    ensures
        sink.line_flushed() matches Some(next) && next.0.stage is Remeasuring && next.1
            == (SinkAction::Measure { from: 0 }) && next.0.next == sink.next && next.0.line
            == crate::line::with_pieces(
            sink.line,
            crate::line::word_pieces(
                sink.word(),
                sink.run.style,
                sink.state.style,
                false,
                sink.marks,
            ),
            sink.capacity,
        ),
{
}

/// What the sink asks for is asked for as it is.
pub proof fn law_sink_is_heard(state: SpineState, action: FlushAction, why: LineWhy, arena: ArenaFacts)
    ensures
        ({
            let (after, asked) = state.flush_action(action, why, arena);
            &&& after.sink == state.sink && after.block == state.block
            &&& (action is Nothing ==> asked is Pass && after.stage == SpineStage::LineOut(why))
            &&& (action is MarkParagraphEnd ==> asked is MarkParagraphEnd && after.stage
                == SpineStage::LineOut(why))
            &&& (action matches FlushAction::PushToc { level, spine_index } ==> asked
                == (SpineAction::PushToc { level, spine_index }))
            &&& (action matches FlushAction::PushLine { role, align, paragraph_end, spine_index }
                ==> asked == (SpineAction::PushLine { role, align, paragraph_end, spine_index }))
            &&& (action matches FlushAction::Flushed { appended, line_offset } ==> asked
                == (SpineAction::LineDone { appended, line_offset }))
            &&& (action is FlushSection ==> asked is WriteSection || asked is ClearArena
                || (asked is Pass && after.stopped))
        }),
{
}

/// Whether a sink is still setting the same run of the same block.
pub open spec fn same_run(before: SinkModel, after: SinkModel) -> bool {
    &&& after.run == before.run
    &&& after.state.block_offset == before.state.block_offset
    &&& after.state.block_len == before.state.block_len
}

proof fn lemma_sink_action_keeps_run(state: SpineState, action: SinkAction, arena: ArenaFacts)
    ensures
        same_run(state.sink, state.sink_action(action, arena).0.sink),
        state.sink_action(action, arena).0.block == state.block,
{
    let done = state.sink.flush_begun(false);
    law_sink_is_heard(SpineState { sink: done.0, ..state }, done.1, LineWhy::AfterBlock, arena);
    if let SinkAction::FlushLine { paragraph_end } = action {
        let begun = state.sink.flush_begun(paragraph_end);
        law_sink_is_heard(SpineState { sink: begun.0, ..state }, begun.1, LineWhy::Setting, arena);
    }
}

proof fn lemma_next_word_keeps_run(sink: SinkModel)
    ensures
        same_run(sink, sink.next_word().0),
        same_run(sink, sink.words_started()),
{
}

proof fn lemma_text_is_taken(
    sink: SinkModel,
    text: Seq<char>,
    style: FontStyle,
    role: TextRole,
    align: TextAlign,
    paragraph_end: bool,
    starts: bool,
    ends: bool,
)
    ensures
        ({
            let run = RunStyle {
                style,
                role,
                align: block_align(align, text, role),
                paragraph_end,
                starts_with_space: starts,
                ends_with_space: ends,
            };
            same_run(
                SinkModel { run, ..sink },
                sink.text_taken(text, style, role, align, paragraph_end, starts, ends).0,
            )
        }),
{
    let run = RunStyle {
        style,
        role,
        align: block_align(align, text, role),
        paragraph_end,
        starts_with_space: starts,
        ends_with_space: ends,
    };
    let set = SinkModel { words: crate::chars::words(text), next: 0, run, ..sink };
    lemma_next_word_keeps_run(set);
    lemma_next_word_keeps_run(set.words_started());
}

/// A block is set as it is drawn: plain text of a heading bold, any other text
/// in its own style, in its role, from where it starts in its source.
pub proof fn law_block_is_set_as_it_is_drawn(state: SpineState, block: BlockModel, arena: ArenaFacts)
    requires
        !state.sink.state.dropping_paragraph,
        utf8_len(block.text) <= u32::MAX,
        is_book_text(normal_form(block.text, block.entities, state.sink.capacity)),
        !is_separator(
            trimmed_block(normal_form(block.text, block.entities, state.sink.capacity)),
        ),
        trimmed_block(normal_form(block.text, block.entities, state.sink.capacity)).len() > 0,
    ensures
        ({
            let after = state.set_block(block, arena).0;
            let heading = block.role == TextRole::Heading1 || block.role == TextRole::Heading2
                || block.role == TextRole::Heading3;
            &&& after.block is None
            &&& after.sink.run.role == block.role
            &&& after.sink.run.paragraph_end == block.paragraph_end
            &&& after.sink.run.style == if heading && block.style == FontStyle::Regular {
                FontStyle::Bold
            } else {
                block.style
            }
            &&& heading ==> after.sink.run.align == TextAlign::Center
            &&& !heading ==> after.sink.run.align == block.align
            &&& after.sink.state.block_offset == block.logical_offset
            &&& after.sink.state.block_len == utf8_len(block.text)
        }),
{
    let normal = normal_form(block.text, block.entities, state.sink.capacity);
    let kept = trimmed_block(normal);
    let sink = state.sink.block_started(block.logical_offset, utf8_len(block.text));
    let style = drawn_style(block.style, block.role);
    let starts = block.text.len() > 0 && is_white_space(block.text[0]);
    let ends = block.text.len() > 0 && is_white_space(block.text.last());
    let taken = sink.text_taken(
        kept,
        style,
        block.role,
        block.align,
        block.paragraph_end,
        starts,
        ends,
    );
    assert(sink.block_taken(
        block.text,
        normal,
        style,
        block.role,
        block.align,
        block.paragraph_end,
    ) == taken);
    lemma_text_is_taken(
        sink,
        kept,
        style,
        block.role,
        block.align,
        block.paragraph_end,
        starts,
        ends,
    );
    lemma_sink_action_keeps_run(
        SpineState { sink: taken.0, block: None, ..state },
        taken.1,
        arena,
    );
}

/// Whether the sections recorded before are recorded still, and a partial
/// book is partial still.
pub open spec fn keeps_sections(before: SpineState, after: SpineState) -> bool {
    &&& after.table.records == before.table.records
    &&& after.table.total_pages == before.table.total_pages
    &&& before.table.book_partial ==> after.table.book_partial
}

proof fn lemma_flush_section_keeps(state: SpineState, arena: ArenaFacts, partial: bool, carry: bool, why: SectionWhy)
    ensures
        keeps_sections(state, state.flush_section(arena, partial, carry, why).0),
{
}

proof fn lemma_flush_action_keeps(state: SpineState, action: FlushAction, why: LineWhy, arena: ArenaFacts)
    ensures
        keeps_sections(state, state.flush_action(action, why, arena).0),
{
    lemma_flush_section_keeps(state, arena, false, true, SectionWhy::InLine(why));
}

proof fn lemma_sink_action_keeps(state: SpineState, action: SinkAction, arena: ArenaFacts)
    ensures
        keeps_sections(state, state.sink_action(action, arena).0),
{
    let done = state.sink.flush_begun(false);
    lemma_flush_action_keeps(
        SpineState { sink: done.0, ..state },
        done.1,
        LineWhy::AfterBlock,
        arena,
    );
    if let SinkAction::FlushLine { paragraph_end } = action {
        let begun = state.sink.flush_begun(paragraph_end);
        lemma_flush_action_keeps(
            SpineState { sink: begun.0, ..state },
            begun.1,
            LineWhy::Setting,
            arena,
        );
    }
}

proof fn lemma_set_block_keeps(state: SpineState, block: BlockModel, arena: ArenaFacts)
    ensures
        keeps_sections(state, state.set_block(block, arena).0),
{
    let taken = state.sink.block_started(block.logical_offset, utf8_len(block.text)).block_taken(
        block.text,
        normal_form(block.text, block.entities, state.sink.capacity),
        drawn_style(block.style, block.role),
        block.role,
        block.align,
        block.paragraph_end,
    );
    lemma_sink_action_keeps(SpineState { sink: taken.0, block: None, ..state }, taken.1, arena);
}

/// What follows a section leaves it recorded.
proof fn lemma_section_over_keeps(state: SpineState, why: SectionWhy, arena: ArenaFacts)
    ensures
        state.section_over(why, arena) matches Some(next) ==> keeps_sections(state, next.0),
{
    match why {
        SectionWhy::BeforeBlock => {
            if let Some(block) = state.block {
                lemma_set_block_keeps(state, block, arena);
            }
        },
        SectionWhy::InLine(line) => {
            if let Some(next) = state.sink.section_flushed() {
                lemma_flush_action_keeps(
                    SpineState { sink: next.0, ..state },
                    next.1,
                    line,
                    arena,
                );
            }
        },
        _ => {},
    }
}

/// A section that was written is in the table as it was cut: of this item,
/// with its pages behind those before it, partial if it was asked for so, and
/// leaving the book partial if it did not reach the card.
pub proof fn law_written_section_is_in_the_table(
    state: SpineState,
    why: SectionWhy,
    partial: bool,
    wrote: bool,
    page_count: usize,
    opens_at: Option<u32>,
    arena: ArenaFacts,
)
    requires
        state.stage == (SpineStage::Section { why, partial }),
        page_count <= u16::MAX,
        state.table.total_pages + page_count <= u32::MAX,
        state.table.records.len() <= u16::MAX,
    ensures
        state.next(SpineReply::Written { wrote, page_count, opens_at }, arena) matches Some(next) ==> {
            let records = next.0.table.records;
            let last = records[state.table.records.len() as int];
            &&& records.len() == state.table.records.len() + 1
            &&& forall|i: int|
                0 <= i < state.table.records.len() ==> #[trigger] records[i] == state.table.records[i]
            &&& last.spine == state.sink.state.spine_index
            &&& last.section == state.table.records.len()
            &&& last.start_page == state.table.total_pages
            &&& last.page_count == page_count
            &&& last.partial == partial
            &&& opens_at is Some ==> last.logical_offset == opens_at->0
            &&& next.0.table.total_pages == state.table.total_pages + page_count
            &&& !wrote || state.table.book_partial ==> next.0.table.book_partial
        },
{
    let written = SpineState {
        table: state.table.section_written(
            state.sink.state.spine_index,
            partial,
            wrote,
            page_count,
            opens_at,
        ),
        ..state
    };
    assert(state.next(SpineReply::Written { wrote, page_count, opens_at }, arena)
        == written.section_over(why, arena));
    lemma_section_over_keeps(written, why, arena);
}

/// An item takes no more text once the index has refused one of its sections,
/// and for no other reason.
pub proof fn law_refused_section_stops_the_item(state: SpineState, arena: ArenaFacts, partial: bool, carry: bool, why: SectionWhy)
    ensures
        ({
            let (after, asked) = state.flush_section(arena, partial, carry, why);
            let empty = arena.block_count == 0 || arena.page_count == 0;
            let full = state.table.records.len() >= state.table.capacity;
            &&& after.stopped <==> state.stopped || (!empty && full)
            &&& asked is ClearArena <==> empty
            &&& asked is WriteSection <==> !empty && !full
            &&& (asked matches SpineAction::WriteSection { spine, partial: cut, end, .. } ==> spine
                == state.sink.state.spine_index && cut == partial && (!carry ==> end
                == SectionEnd::Whole))
            &&& after.sink == state.sink && after.block == state.block
        }),
{
}

/// The end of an item ends its last paragraph and writes its last section
/// whole, partial if it is so or if the index was full; then the item is
/// over.
pub proof fn law_item_ends_with_its_last_section(state: SpineState, partial: bool, arena: ArenaFacts)
    ensures
        ({
            let (after, asked) = state.spine_finished(partial, arena);
            &&& state.sink.line.len() == 0 ==> asked is MarkParagraphEnd && after.stage
                == SpineStage::LineOut(LineWhy::Finishing { partial })
            &&& (asked matches SpineAction::PushLine { paragraph_end, .. } ==> paragraph_end)
            &&& state.sink.line.len() > 0 ==> asked is PushLine || asked is PushToc
        }),
        ({
            let flushed = SpineState {
                stage: SpineStage::LineOut(LineWhy::Finishing { partial }),
                ..state
            };
            flushed.next(SpineReply::Done, arena) matches Some(next) && (
            next.1 matches SpineAction::WriteSection { partial: cut, end, .. } ==> (cut <==> partial
                || state.stopped) && end == SectionEnd::Whole)
        }),
        ({
            let out = SpineState {
                stage: SpineStage::SectionOut(SectionWhy::Finishing),
                ..state
            };
            out.next(SpineReply::Done, arena) matches Some(next) && next.1 is Done && next.0.stage
                is Over
        }),
{
}

/// A line that goes out only to make room leaves its paragraph open, behind a
/// block or before one; the last line of an item closes it.
pub proof fn law_making_room_ends_no_paragraph(state: SpineState, block: BlockModel, arena: ArenaFacts, partial: bool)
    requires
        is_full(arena),
        !state.stopped,
    ensures
        ({
            let (next, action) = state.block_pushed(block, arena);
            &&& !(action is MarkParagraphEnd)
            &&& (action matches SpineAction::PushLine { paragraph_end, .. } ==> !paragraph_end)
            &&& (action is PushToc ==> next.sink.flush == (FlushStage::Toc { paragraph_end: false }))
        }),
        ({
            let (next, action) = state.sink_action(SinkAction::Done, arena);
            &&& !(action is MarkParagraphEnd)
            &&& (action matches SpineAction::PushLine { paragraph_end, .. } ==> !paragraph_end)
            &&& (action is PushToc ==> next.sink.flush == (FlushStage::Toc { paragraph_end: false }))
        }),
        ({
            let (next, action) = state.spine_finished(partial, arena);
            &&& state.sink.line.len() == 0 ==> action is MarkParagraphEnd
            &&& (action matches SpineAction::PushLine { paragraph_end, .. } ==> paragraph_end)
            &&& (action is PushToc ==> next.sink.flush == (FlushStage::Toc { paragraph_end: true }))
        }),
{
}

} // verus!
