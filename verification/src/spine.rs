//! The text of one spine item on its way into sections: when a block may be
//! set, when a section is cut before and after it, and how the item's last
//! section ends.
use vstd::prelude::*;
use crate::bounded::utf8_len;
use crate::chars::is_white_space;
use crate::line::{
    drawn_style, is_indented, preview_style_for_proto_style, takes_indent, FontStyle, StyleMarks,
    TextAlign, TextRole,
};
use crate::sections::{
    is_full, section_end, section_is_full, ArenaFacts, SectionAction, SectionEnd, SectionTable,
    TableModel,
};
use crate::sink::{
    is_opening, normal_form, opens_paragraph, BlockSink, Column, FlushAction, LineState, RunStyle,
    SinkAction, SinkModel, SinkStage,
};
use crate::text::{entities_apply, is_separator, separator_text, trimmed_block};

verus! {

/// A run of text of a book.
pub struct Block {
    pub text: String,
    /// The character that an entity which begins at each place stands for.
    pub entities: Vec<Option<char>>,
    pub style: FontStyle,
    pub role: TextRole,
    pub align: TextAlign,
    pub paragraph_end: bool,
    /// Where the run starts in its source.
    pub logical_offset: u32,
}

/// A block as a mathematical value.
pub struct BlockModel {
    pub text: Seq<char>,
    pub entities: Seq<Option<char>>,
    pub style: FontStyle,
    pub role: TextRole,
    pub align: TextAlign,
    pub paragraph_end: bool,
    pub logical_offset: u32,
}

impl View for Block {
    type V = BlockModel;

    open spec fn view(&self) -> BlockModel {
        BlockModel {
            text: self.text@,
            entities: self.entities@,
            style: self.style,
            role: self.role,
            align: self.align,
            paragraph_end: self.paragraph_end,
            logical_offset: self.logical_offset,
        }
    }
}

impl BlockModel {
    /// A block that can be set: its entities are those of its text.
    pub open spec fn valid(self) -> bool {
        utf8_len(self.text) <= u32::MAX && entities_apply(self.text, self.entities)
    }
}

/// Why a line is being flushed.
#[derive(Clone, Copy, PartialEq, Eq, Structural, Debug)]
pub enum LineWhy {
    /// The arena was full when a block came.
    BeforeBlock,
    /// The block that is being set asked for it.
    Setting,
    /// The arena was full when a block was set.
    AfterBlock,
    /// The item is over.
    Finishing { partial: bool },
}

/// Why a section is being flushed.
#[derive(Clone, Copy, PartialEq, Eq, Structural, Debug)]
pub enum SectionWhy {
    BeforeBlock,
    AfterBlock,
    /// The arena had no room for a line.
    InLine(LineWhy),
    Finishing,
}

/// Which answer the item is waiting for.
#[derive(Clone, Copy, PartialEq, Eq, Structural, Debug)]
pub enum SpineStage {
    /// The next block may come.
    Ready,
    Measuring,
    TakingBack,
    Toc(LineWhy),
    Line(LineWhy),
    /// The line is out of the way.
    LineOut(LineWhy),
    Section { why: SectionWhy, partial: bool },
    /// The section is out of the way.
    SectionOut(SectionWhy),
    /// The item is over.
    Over,
}

#[derive(Clone, Copy, PartialEq, Eq, Structural, Debug)]
pub enum SpineAction {
    /// The block is set, or the item is over.
    Done,
    /// The index is full: no more text is taken.
    Refused,
    /// Nothing is to be done. Answer: `Done`.
    Pass,
    /// Measure the line from this byte on. Answer: `Measured`, with the
    /// column of the role.
    Measure { from: usize, role: TextRole },
    /// Take back the last measurement. Answer: `Done`.
    TakeBack,
    /// Mark the last block as the end of its paragraph. Answer: `Done`.
    MarkParagraphEnd,
    /// Add the title to the table of contents. Answer: `Accepted`.
    PushToc { level: u8, spine_index: u16 },
    /// Append the line as a block. Answer: `Pushed`.
    PushLine { role: TextRole, align: TextAlign, paragraph_end: bool, spine_index: u16 },
    /// The line has left the sink: forget its measure, and where it became a
    /// block that opened a page, note where that page begins. Answer: `Done`.
    LineDone { appended: bool, line_offset: u32 },
    /// Clear the arena. Answer: `Done`.
    ClearArena,
    /// Write the section and cut it off the arena. Answer: `Written`.
    WriteSection { section: u16, spine: u16, partial: bool, end: SectionEnd },
}

/// A measured line, and the column it is in.
#[derive(Clone, Copy, PartialEq, Eq, Structural, Debug)]
pub struct Measurement {
    pub width: i16,
    /// The left edge for the role.
    pub x: i16,
    /// What an indented paragraph's first line is moved in by.
    pub indent: i16,
    pub safety: i16,
    pub max_x: i16,
}

#[derive(Clone, Copy, PartialEq, Eq, Structural, Debug)]
pub enum SpineReply {
    Done,
    Measured(Measurement),
    Accepted(bool),
    /// Whether the arena took the line, and whether that made a block.
    Pushed { accepted: bool, appended: bool },
    /// Whether the section was written, its pages and where it opens.
    Written { wrote: bool, page_count: usize, opens_at: Option<u32> },
}

/// The text of one spine item.
pub struct SpineText<const N: usize> {
    sink: BlockSink<N>,
    stopped: bool,
    stage: SpineStage,
    block: Option<Block>,
}

/// An item and the book's sections as mathematical values.
pub struct SpineState {
    pub sink: SinkModel,
    /// The index refused a section of this item.
    pub stopped: bool,
    pub stage: SpineStage,
    /// The block that waits until there is room.
    pub block: Option<BlockModel>,
    pub table: TableModel,
}

/// The column a line of the run is set in.
pub open spec fn column_of(run: RunStyle, measured: Measurement) -> Column {
    Column {
        x: measured.x,
        indent: if is_indented(run.role, run.align) { measured.indent } else { 0 },
        safety: measured.safety,
        max_x: measured.max_x,
    }
}

impl SpineState {
    pub open spec fn to(self, stage: SpineStage, action: SpineAction) -> (SpineState, SpineAction) {
        (SpineState { stage, ..self }, action)
    }

    /// What the sink asks for about its line.
    pub open spec fn flush_action(self, action: FlushAction, why: LineWhy, arena: ArenaFacts) -> (SpineState, SpineAction) {
        match action {
            FlushAction::Nothing => self.to(SpineStage::LineOut(why), SpineAction::Pass),
            FlushAction::MarkParagraphEnd => self.to(
                SpineStage::LineOut(why),
                SpineAction::MarkParagraphEnd,
            ),
            FlushAction::PushToc { level, spine_index } => self.to(
                SpineStage::Toc(why),
                SpineAction::PushToc { level, spine_index },
            ),
            FlushAction::PushLine { role, align, paragraph_end, spine_index } => self.to(
                SpineStage::Line(why),
                SpineAction::PushLine { role, align, paragraph_end, spine_index },
            ),
            FlushAction::FlushSection => self.flush_section(
                arena,
                false,
                true,
                SectionWhy::InLine(why),
            ),
            FlushAction::Flushed { appended, line_offset } => self.to(
                SpineStage::LineOut(why),
                SpineAction::LineDone { appended, line_offset },
            ),
        }
    }

    /// The line in progress is to be flushed.
    pub open spec fn flush_line(self, paragraph_end: bool, why: LineWhy, arena: ArenaFacts) -> (SpineState, SpineAction) {
        let begun = self.sink.flush_begun(paragraph_end);
        SpineState { sink: begun.0, ..self }.flush_action(begun.1, why, arena)
    }

    /// The arena is to be flushed as a section.
    pub open spec fn flush_section(self, arena: ArenaFacts, partial: bool, carry_incomplete: bool, why: SectionWhy) -> (SpineState, SpineAction) {
        let begun = self.table.section_begun(
            arena,
            self.sink.state.spine_index,
            partial,
            carry_incomplete,
        );
        let at = SpineState { table: begun.0, ..self };
        match begun.1 {
            SectionAction::Clear => at.to(SpineStage::SectionOut(why), SpineAction::ClearArena),
            SectionAction::Refuse => SpineState { stopped: true, ..at }.to(
                SpineStage::SectionOut(why),
                SpineAction::Pass,
            ),
            SectionAction::Write { section, spine, partial, end } => at.to(
                SpineStage::Section { why, partial },
                SpineAction::WriteSection { section, spine, partial, end },
            ),
        }
    }

    /// What the sink asks for about the block. A block that is set leaves the
    /// arena flushed if it is full.
    pub open spec fn sink_action(self, action: SinkAction, arena: ArenaFacts) -> (SpineState, SpineAction) {
        match action {
            SinkAction::Done => if is_full(arena) {
                self.flush_line(false, LineWhy::AfterBlock, arena)
            } else {
                self.to(SpineStage::Ready, SpineAction::Done)
            },
            SinkAction::Measure { from } => self.to(
                SpineStage::Measuring,
                SpineAction::Measure { from, role: self.sink.run.role },
            ),
            SinkAction::FlushLine { paragraph_end } => self.flush_line(
                paragraph_end,
                LineWhy::Setting,
                arena,
            ),
            SinkAction::WrapLine => self.to(SpineStage::TakingBack, SpineAction::TakeBack),
        }
    }

    /// The block that waits is set, in the style it is drawn in.
    pub open spec fn set_block(self, block: BlockModel, arena: ArenaFacts) -> (SpineState, SpineAction) {
        let taken = self.sink.block_started(block.logical_offset, utf8_len(block.text)).block_taken(
            block.text,
            normal_form(block.text, block.entities, self.sink.capacity),
            drawn_style(block.style, block.role),
            block.role,
            block.align,
            block.paragraph_end,
        );
        SpineState { sink: taken.0, block: None, ..self }.sink_action(taken.1, arena)
    }

    /// The line is out of the way. Before and after a block the section
    /// follows it, to be cut at its last whole page; at the end of the item
    /// the last section follows it, whole.
    pub open spec fn line_over(self, why: LineWhy, arena: ArenaFacts) -> Option<(SpineState, SpineAction)> {
        match why {
            LineWhy::BeforeBlock => Some(
                self.flush_section(arena, false, true, SectionWhy::BeforeBlock),
            ),
            LineWhy::AfterBlock => Some(
                self.flush_section(arena, false, true, SectionWhy::AfterBlock),
            ),
            LineWhy::Finishing { partial } => Some(
                self.flush_section(arena, partial || self.stopped, false, SectionWhy::Finishing),
            ),
            LineWhy::Setting => match self.sink.line_flushed() {
                Some(next) => Some(
                    SpineState { sink: next.0, ..self }.sink_action(next.1, arena),
                ),
                None => None,
            },
        }
    }

    /// The section is out of the way.
    pub open spec fn section_over(self, why: SectionWhy, arena: ArenaFacts) -> Option<(SpineState, SpineAction)> {
        match why {
            SectionWhy::BeforeBlock => match self.block {
                Some(block) => Some(self.set_block(block, arena)),
                None => None,
            },
            SectionWhy::AfterBlock => Some(self.to(SpineStage::Ready, SpineAction::Done)),
            SectionWhy::Finishing => Some(self.to(SpineStage::Over, SpineAction::Done)),
            SectionWhy::InLine(why) => match self.sink.section_flushed() {
                Some(next) => Some(
                    SpineState { sink: next.0, ..self }.flush_action(next.1, why, arena),
                ),
                None => None,
            },
        }
    }

    /// A block comes. One that comes to a full arena waits until the line and
    /// the section before it are flushed.
    pub open spec fn block_pushed(self, block: BlockModel, arena: ArenaFacts) -> (SpineState, SpineAction) {
        if self.stopped {
            (self, SpineAction::Refused)
        } else if is_full(arena) {
            SpineState { block: Some(block), ..self }.flush_line(
                false,
                LineWhy::BeforeBlock,
                arena,
            )
        } else {
            self.set_block(block, arena)
        }
    }

    /// The item is over: its last line ends its paragraph.
    pub open spec fn spine_finished(self, partial: bool, arena: ArenaFacts) -> (SpineState, SpineAction) {
        self.flush_line(true, LineWhy::Finishing { partial }, arena)
    }

    /// What an answer does. `None` when the stage is not waiting for it.
    pub open spec fn next(self, reply: SpineReply, arena: ArenaFacts) -> Option<(SpineState, SpineAction)> {
        match (self.stage, reply) {
            (SpineStage::Measuring, SpineReply::Measured(measured)) => match self.sink.measured(
                measured.width,
                column_of(self.sink.run, measured),
                is_opening(arena.block_count, arena.last_paragraph_end),
            ) {
                Some(next) => Some(
                    SpineState { sink: next.0, ..self }.sink_action(next.1, arena),
                ),
                None => None,
            },
            (SpineStage::TakingBack, SpineReply::Done) => Some(
                self.flush_line(false, LineWhy::Setting, arena),
            ),
            (SpineStage::Toc(why), SpineReply::Accepted(accepted)) => match self.sink.toc_pushed(
                accepted,
            ) {
                Some(next) => Some(
                    SpineState { sink: next.0, ..self }.flush_action(next.1, why, arena),
                ),
                None => None,
            },
            (SpineStage::Line(why), SpineReply::Pushed { accepted, appended }) => {
                match self.sink.line_pushed(accepted, appended) {
                    Some(next) => Some(
                        SpineState { sink: next.0, ..self }.flush_action(next.1, why, arena),
                    ),
                    None => None,
                }
            },
            (SpineStage::LineOut(why), SpineReply::Done) => self.line_over(why, arena),
            (
                SpineStage::Section { why, partial },
                SpineReply::Written { wrote, page_count, opens_at },
            ) => SpineState {
                table: self.table.section_written(
                    self.sink.state.spine_index,
                    partial,
                    wrote,
                    page_count,
                    opens_at,
                ),
                ..self
            }.section_over(why, arena),
            (SpineStage::SectionOut(why), SpineReply::Done) => self.section_over(why, arena),
            _ => None,
        }
    }

    /// Whether a block waits for the flush that is under way.
    pub open spec fn holds_block(self) -> bool {
        match self.stage {
            SpineStage::Toc(why) => why is BeforeBlock,
            SpineStage::Line(why) => why is BeforeBlock,
            SpineStage::LineOut(why) => why is BeforeBlock,
            SpineStage::Section { why, .. } => why is BeforeBlock || why == SectionWhy::InLine(
                LineWhy::BeforeBlock,
            ),
            SpineStage::SectionOut(why) => why is BeforeBlock || why == SectionWhy::InLine(
                LineWhy::BeforeBlock,
            ),
            _ => false,
        }
    }

    /// Whether a line is offered again once the section is out of the way.
    pub open spec fn offers_line_again(self) -> bool {
        match self.stage {
            SpineStage::Section { why, .. } => why is InLine,
            SpineStage::SectionOut(why) => why is InLine,
            _ => false,
        }
    }

    /// Whether a block is being set.
    pub open spec fn is_setting(self) -> bool {
        match self.stage {
            SpineStage::Measuring | SpineStage::TakingBack => true,
            SpineStage::Toc(why) => why is Setting,
            SpineStage::Line(why) => why is Setting,
            SpineStage::LineOut(why) => why is Setting,
            SpineStage::Section { why, .. } => why == SectionWhy::InLine(LineWhy::Setting),
            SpineStage::SectionOut(why) => why == SectionWhy::InLine(LineWhy::Setting),
            _ => false,
        }
    }

    /// What holds between calls: outside a block the sink is ready for the
    /// next one, and a block that waits can be set.
    pub open spec fn valid(self) -> bool {
        &&& !self.is_setting() ==> self.sink.stage is Ready
        &&& self.stage is Measuring || !(self.sink.stage is Measuring)
        &&& self.holds_block() == (self.block is Some)
        &&& self.offers_line_again() ==> self.sink.flush is Section
        &&& self.block matches Some(block) ==> block.valid()
    }
}

/// What a sink that asked for this stands at.
pub open spec fn sink_agrees(sink: SinkModel, action: SinkAction) -> bool {
    &&& action is Done ==> sink.stage is Ready
    &&& !(action is Measure) ==> !(sink.stage is Measuring)
}

proof fn lemma_next_agrees(sink: SinkModel)
    ensures
        sink_agrees(sink.next_word().0, sink.next_word().1),
{
}

proof fn lemma_text_agrees(sink: SinkModel, text: Seq<char>, style: FontStyle, role: TextRole, align: TextAlign, paragraph_end: bool, starts: bool, ends: bool)
    ensures
        ({
            let next = sink.text_taken(text, style, role, align, paragraph_end, starts, ends);
            sink_agrees(next.0, next.1)
        }),
{
    let run = RunStyle {
        style,
        role,
        align: crate::line::block_align(align, text, role),
        paragraph_end,
        starts_with_space: starts,
        ends_with_space: ends,
    };
    let set = SinkModel { words: crate::chars::words(text), next: 0, run, ..sink };
    lemma_next_agrees(set.words_started());
}

proof fn lemma_normal_agrees(sink: SinkModel, normal: Seq<char>, style: FontStyle, role: TextRole, align: TextAlign, paragraph_end: bool, starts: bool, ends: bool)
    ensures
        ({
            let next = sink.normal_taken(normal, style, role, align, paragraph_end, starts, ends);
            sink_agrees(next.0, next.1)
        }),
{
    let kept = if is_separator(trimmed_block(normal)) {
        separator_text(sink.capacity)
    } else {
        trimmed_block(normal)
    };
    let text = if is_separator(kept) { separator_text(sink.capacity) } else { kept };
    lemma_text_agrees(sink, text, style, role, align, paragraph_end, starts, ends);
}

proof fn lemma_measured_agrees(sink: SinkModel, width: i16, column: Column, opens: bool)
    ensures
        sink.measured(width, column, opens) matches Some(next) ==> sink_agrees(next.0, next.1),
{
}

proof fn lemma_flushed_agrees(sink: SinkModel)
    ensures
        sink.line_flushed() matches Some(next) ==> sink_agrees(next.0, next.1),
{
}

proof fn lemma_taken_agrees(sink: SinkModel, text: Seq<char>, normal: Seq<char>, style: FontStyle, role: TextRole, align: TextAlign, paragraph_end: bool)
    requires
        sink.stage is Ready,
    ensures
        ({
            let next = sink.block_taken(text, normal, style, role, align, paragraph_end);
            sink_agrees(next.0, next.1)
        }),
{
    lemma_normal_agrees(
        sink,
        normal,
        style,
        role,
        align,
        paragraph_end,
        text.len() > 0 && is_white_space(text[0]),
        text.len() > 0 && is_white_space(text.last()),
    );
}

impl<const N: usize> SpineText<N> {
    /// The item together with the book's sections.
    pub closed spec fn state(&self, table: TableModel) -> SpineState {
        SpineState {
            sink: self.sink.model(),
            stopped: self.stopped,
            stage: self.stage,
            block: match self.block {
                Some(block) => Some(block@),
                None => None,
            },
            table,
        }
    }

    pub closed spec fn wf(&self) -> bool {
        self.sink.wf() && forall|table: TableModel| (#[trigger] self.state(table)).valid()
    }

    /// The text of a fresh item, which is set in an empty arena. A build and a
    /// replay both start their items here, so the same blocks and the same
    /// answers give the same sections.
    pub fn begin_spine(spine_index: u16, generate_toc_from_headings: bool, marks: StyleMarks) -> (spine: Self)
        requires
            N <= u32::MAX,
        ensures
            spine.wf(),
            forall|table: TableModel|
                (#[trigger] spine.state(table)) == (SpineState {
                    sink: SinkModel {
                        capacity: N as int,
                        line: Seq::empty(),
                        state: LineState {
                            role: TextRole::Body,
                            align: TextAlign::Justify,
                            style: FontStyle::Regular,
                            pending_space: false,
                            dropping_paragraph: false,
                            block_offset: 0,
                            block_len: 0,
                            block_consumed: 0,
                            line_offset: 0,
                            generate_toc_from_headings,
                            generated_toc_for_spine: false,
                            spine_index,
                        },
                        marks,
                        words: Seq::empty(),
                        next: 0,
                        run: RunStyle {
                            style: FontStyle::Regular,
                            role: TextRole::Body,
                            align: TextAlign::Justify,
                            paragraph_end: false,
                            starts_with_space: false,
                            ends_with_space: false,
                        },
                        stage: SinkStage::Ready,
                        flush: crate::sink::FlushStage::Ready,
                    },
                    stopped: false,
                    stage: SpineStage::Ready,
                    block: None,
                    table,
                }),
    {
        SpineText {
            sink: BlockSink::begin_spine(spine_index, generate_toc_from_headings, marks),
            stopped: false,
            stage: SpineStage::Ready,
            block: None,
        }
    }

    /// The characters of the line in progress.
    pub fn line_chars(&self) -> (chars: Vec<char>)
        ensures
            forall|table: TableModel| chars@ == (#[trigger] self.state(table)).sink.line,
    {
        self.sink.line_chars()
    }

    /// The characters of the title a heading line gives.
    pub fn toc_title(&self) -> (title: Vec<char>)
        ensures
            forall|table: TableModel|
                title@ == (#[trigger] self.state(table)).sink.toc_title(),
    {
        self.sink.toc_title()
    }

    /// Whether the index refused a section of the item.
    pub fn stopped(&self) -> (stopped: bool)
        ensures
            forall|table: TableModel| stopped == (#[trigger] self.state(table)).stopped,
    {
        self.stopped
    }

    fn flush_section(&mut self, table: &mut SectionTable, arena: &ArenaFacts, partial: bool, carry_incomplete: bool, why: SectionWhy) -> (action: SpineAction)
        requires
            old(self).sink.wf(),
        ensures
            final(self).sink.wf(),
            (final(self).state(final(table)@), action) == old(self).state(
                old(table)@,
            ).flush_section(*arena, partial, carry_incomplete, why),
    {
        let spine: u16 = self.sink.state().spine_index;
        match table.begin_section(arena, spine, partial, carry_incomplete) {
            SectionAction::Clear => {
                self.stage = SpineStage::SectionOut(why);
                SpineAction::ClearArena
            },
            SectionAction::Refuse => {
                self.stopped = true;
                self.stage = SpineStage::SectionOut(why);
                SpineAction::Pass
            },
            SectionAction::Write { section, spine, partial, end } => {
                self.stage = SpineStage::Section { why, partial };
                SpineAction::WriteSection { section, spine, partial, end }
            },
        }
    }

    fn flush_action(&mut self, table: &mut SectionTable, action: FlushAction, why: LineWhy, arena: &ArenaFacts) -> (next: SpineAction)
        requires
            old(self).sink.wf(),
        ensures
            final(self).sink.wf(),
            (final(self).state(final(table)@), next) == old(self).state(old(table)@).flush_action(
                action,
                why,
                *arena,
            ),
    {
        match action {
            FlushAction::Nothing => {
                self.stage = SpineStage::LineOut(why);
                SpineAction::Pass
            },
            FlushAction::MarkParagraphEnd => {
                self.stage = SpineStage::LineOut(why);
                SpineAction::MarkParagraphEnd
            },
            FlushAction::PushToc { level, spine_index } => {
                self.stage = SpineStage::Toc(why);
                SpineAction::PushToc { level, spine_index }
            },
            FlushAction::PushLine { role, align, paragraph_end, spine_index } => {
                self.stage = SpineStage::Line(why);
                SpineAction::PushLine { role, align, paragraph_end, spine_index }
            },
            FlushAction::FlushSection => self.flush_section(
                table,
                arena,
                false,
                true,
                SectionWhy::InLine(why),
            ),
            FlushAction::Flushed { appended, line_offset } => {
                self.stage = SpineStage::LineOut(why);
                SpineAction::LineDone { appended, line_offset }
            },
        }
    }

    fn flush_line(&mut self, table: &mut SectionTable, paragraph_end: bool, why: LineWhy, arena: &ArenaFacts) -> (next: SpineAction)
        requires
            old(self).sink.wf(),
        ensures
            final(self).sink.wf(),
            (final(self).state(final(table)@), next) == old(self).state(old(table)@).flush_line(
                paragraph_end,
                why,
                *arena,
            ),
    {
        let action = self.sink.begin_flush(paragraph_end);
        self.flush_action(table, action, why, arena)
    }

    fn sink_action(&mut self, table: &mut SectionTable, action: SinkAction, arena: &ArenaFacts) -> (next: SpineAction)
        requires
            old(self).sink.wf(),
        ensures
            final(self).sink.wf(),
            (final(self).state(final(table)@), next) == old(self).state(old(table)@).sink_action(
                action,
                *arena,
            ),
    {
        match action {
            SinkAction::Done => {
                if section_is_full(arena) {
                    self.flush_line(table, false, LineWhy::AfterBlock, arena)
                } else {
                    self.stage = SpineStage::Ready;
                    SpineAction::Done
                }
            },
            SinkAction::Measure { from } => {
                self.stage = SpineStage::Measuring;
                SpineAction::Measure { from, role: self.sink.run().role }
            },
            SinkAction::FlushLine { paragraph_end } => self.flush_line(
                table,
                paragraph_end,
                LineWhy::Setting,
                arena,
            ),
            SinkAction::WrapLine => {
                self.stage = SpineStage::TakingBack;
                SpineAction::TakeBack
            },
        }
    }

    fn set_block(&mut self, table: &mut SectionTable, block: &Block, arena: &ArenaFacts) -> (next: SpineAction)
        requires
            old(self).sink.wf(),
            old(self).sink.model().stage is Ready,
            old(self).block is None,
            block@.valid(),
        ensures
            final(self).sink.wf(),
            (final(self).state(final(table)@), next) == old(self).state(old(table)@).set_block(
                block@,
                *arena,
            ),
    {
        let style = preview_style_for_proto_style(block.style, block.role);
        let action = self.sink.begin_block(
            block.text.as_str(),
            &block.entities,
            style,
            block.role,
            block.align,
            block.paragraph_end,
            block.logical_offset,
        );
        self.sink_action(table, action, arena)
    }

    /// Takes a block. The arena is flushed before it if it is full, its line
    /// first, and again once the block is set. `Refused`, with nothing
    /// changed, once the index has refused a section.
    pub fn push_block(&mut self, table: &mut SectionTable, block: Block, arena: &ArenaFacts) -> (action: SpineAction)
        requires
            old(self).wf(),
            old(self).state(old(table)@).stage is Ready,
            block@.valid(),
        ensures
            final(self).wf(),
            (final(self).state(final(table)@), action) == old(self).state(
                old(table)@,
            ).block_pushed(block@, *arena),
    {
        proof {
            assert(self.state(table@).valid());
        }
        if self.stopped {
            return SpineAction::Refused;
        }
        let ghost begun = self.state(table@);
        if section_is_full(arena) {
            self.block = Some(block);
            let action = self.flush_line(table, false, LineWhy::BeforeBlock, arena);
            proof {
                lemma_flush_line_valid(
                    SpineState { block: Some(block@), ..begun },
                    false,
                    LineWhy::BeforeBlock,
                    *arena,
                );
                self.lemma_wf(table@);
            }
            return action;
        }
        let action = self.set_block(table, &block, arena);
        proof {
            lemma_set_block_valid(begun, block@, *arena);
            self.lemma_wf(table@);
        }
        action
    }

    /// Ends the item: its last line ends its paragraph, and its last section
    /// keeps its trailing page. It counts as partial where the caller says so
    /// or the index had refused a section.
    pub fn finish_spine(&mut self, table: &mut SectionTable, partial: bool, arena: &ArenaFacts) -> (action: SpineAction)
        requires
            old(self).wf(),
            old(self).state(old(table)@).stage is Ready,
        ensures
            final(self).wf(),
            (final(self).state(final(table)@), action) == old(self).state(
                old(table)@,
            ).spine_finished(partial, *arena),
    {
        let ghost begun = self.state(table@);
        let action = self.flush_line(table, true, LineWhy::Finishing { partial }, arena);
        proof {
            assert(begun.valid());
            lemma_flush_line_valid(begun, true, LineWhy::Finishing { partial }, *arena);
            self.lemma_wf(table@);
        }
        action
    }

    proof fn lemma_wf(&self, table: TableModel)
        requires
            self.sink.wf(),
            self.state(table).valid(),
        ensures
            self.wf(),
    {
        assert forall|other: TableModel| (#[trigger] self.state(other)).valid() by {
            let a = self.state(table);
            let b = self.state(other);
            assert(b == SpineState { table: other, ..a });
        }
    }

    fn line_over(&mut self, table: &mut SectionTable, why: LineWhy, arena: &ArenaFacts) -> (next: Option<SpineAction>)
        requires
            old(self).sink.wf(),
        ensures
            final(self).sink.wf(),
            match old(self).state(old(table)@).line_over(why, *arena) {
                Some(then) => (final(self).state(final(table)@), next) == (then.0, Some(then.1)),
                None => next is None && final(self).state(final(table)@) == old(self).state(
                    old(table)@,
                ),
            },
    {
        match why {
            LineWhy::BeforeBlock => Some(
                self.flush_section(table, arena, false, true, SectionWhy::BeforeBlock),
            ),
            LineWhy::AfterBlock => Some(
                self.flush_section(table, arena, false, true, SectionWhy::AfterBlock),
            ),
            LineWhy::Finishing { partial } => {
                let partial: bool = partial || self.stopped;
                Some(self.flush_section(table, arena, partial, false, SectionWhy::Finishing))
            },
            LineWhy::Setting => match self.sink.line_flushed() {
                Some(action) => Some(self.sink_action(table, action, arena)),
                None => None,
            },
        }
    }

    fn section_over(&mut self, table: &mut SectionTable, why: SectionWhy, arena: &ArenaFacts) -> (next: Option<SpineAction>)
        requires
            old(self).sink.wf(),
            why is BeforeBlock ==> old(self).sink.model().stage is Ready && old(self).block is Some,
            why is InLine ==> old(self).sink.model().flush is Section,
            old(self).block matches Some(block) ==> block@.valid(),
        ensures
            final(self).sink.wf(),
            old(self).state(old(table)@).section_over(why, *arena) matches Some(then) && (
                final(self).state(final(table)@),
                next,
            ) == (then.0, Some(then.1)),
    {
        match why {
            SectionWhy::BeforeBlock => match self.block.take() {
                Some(block) => Some(self.set_block(table, &block, arena)),
                None => None,
            },
            SectionWhy::AfterBlock => {
                self.stage = SpineStage::Ready;
                Some(SpineAction::Done)
            },
            SectionWhy::Finishing => {
                self.stage = SpineStage::Over;
                Some(SpineAction::Done)
            },
            SectionWhy::InLine(why) => match self.sink.section_flushed() {
                Some(action) => Some(self.flush_action(table, action, why, arena)),
                None => None,
            },
        }
    }

    fn take(&mut self, table: &mut SectionTable, reply: SpineReply, arena: &ArenaFacts) -> (next: Option<SpineAction>)
        requires
            old(self).sink.wf(),
            old(self).state(old(table)@).valid(),
        ensures
            final(self).sink.wf(),
            match old(self).state(old(table)@).next(reply, *arena) {
                Some(then) => (final(self).state(final(table)@), next) == (then.0, Some(then.1)),
                None => next is None && final(self).state(final(table)@) == old(self).state(
                    old(table)@,
                ),
            },
    {
        match (self.stage, reply) {
            (SpineStage::Measuring, SpineReply::Measured(measured)) => {
                let run = self.sink.run();
                let column = Column {
                    x: measured.x,
                    indent: if takes_indent(run.role, run.align) {
                        measured.indent
                    } else {
                        0
                    },
                    safety: measured.safety,
                    max_x: measured.max_x,
                };
                let opens: bool = opens_paragraph(arena.block_count, arena.last_paragraph_end);
                match self.sink.measured(measured.width, &column, opens) {
                    Some(action) => Some(self.sink_action(table, action, arena)),
                    None => None,
                }
            },
            (SpineStage::TakingBack, SpineReply::Done) => Some(
                self.flush_line(table, false, LineWhy::Setting, arena),
            ),
            (SpineStage::Toc(why), SpineReply::Accepted(accepted)) => {
                match self.sink.toc_pushed(accepted) {
                    Some(action) => Some(self.flush_action(table, action, why, arena)),
                    None => None,
                }
            },
            (SpineStage::Line(why), SpineReply::Pushed { accepted, appended }) => {
                match self.sink.line_pushed(accepted, appended) {
                    Some(action) => Some(self.flush_action(table, action, why, arena)),
                    None => None,
                }
            },
            (SpineStage::LineOut(why), SpineReply::Done) => self.line_over(table, why, arena),
            (
                SpineStage::Section { why, partial },
                SpineReply::Written { wrote, page_count, opens_at },
            ) => {
                let spine: u16 = self.sink.state().spine_index;
                table.section_written(spine, partial, wrote, page_count, opens_at);
                self.section_over(table, why, arena)
            },
            (SpineStage::SectionOut(why), SpineReply::Done) => self.section_over(table, why, arena),
            _ => None,
        }
    }

    /// What the answer to the last action does. `None`, with nothing changed,
    /// when the item is not waiting for that kind of answer.
    pub fn advance(&mut self, table: &mut SectionTable, reply: SpineReply, arena: &ArenaFacts) -> (next: Option<SpineAction>)
        requires
            old(self).wf(),
        ensures
            final(self).wf(),
            match old(self).state(old(table)@).next(reply, *arena) {
                Some(then) => (final(self).state(final(table)@), next) == (then.0, Some(then.1)),
                None => next is None && final(self).state(final(table)@) == old(self).state(
                    old(table)@,
                ),
            },
    {
        let ghost begun = self.state(table@);
        proof {
            assert(begun.valid());
            lemma_next_valid(begun, reply, *arena);
        }
        let next = self.take(table, reply, arena);
        proof {
            self.lemma_wf(table@);
        }
        next
    }
}

proof fn lemma_flush_line_valid(state: SpineState, paragraph_end: bool, why: LineWhy, arena: ArenaFacts)
    requires
        !(state.sink.stage is Measuring),
        why is Setting || state.sink.stage is Ready,
        (why is BeforeBlock) == (state.block is Some),
        state.block matches Some(block) ==> block.valid(),
    ensures
        state.flush_line(paragraph_end, why, arena).0.valid(),
{
}

proof fn lemma_flush_action_valid(state: SpineState, action: FlushAction, why: LineWhy, arena: ArenaFacts)
    requires
        !(state.sink.stage is Measuring),
        why is Setting || state.sink.stage is Ready,
        (why is BeforeBlock) == (state.block is Some),
        action is FlushSection ==> state.sink.flush is Section,
        state.block matches Some(block) ==> block.valid(),
    ensures
        state.flush_action(action, why, arena).0.valid(),
{
}

proof fn lemma_sink_action_valid(state: SpineState, action: SinkAction, arena: ArenaFacts)
    requires
        sink_agrees(state.sink, action),
        state.block is None,
    ensures
        state.sink_action(action, arena).0.valid(),
{
    if action is Done && is_full(arena) {
        lemma_flush_line_valid(state, false, LineWhy::AfterBlock, arena);
    }
    if let SinkAction::FlushLine { paragraph_end } = action {
        lemma_flush_line_valid(state, paragraph_end, LineWhy::Setting, arena);
    }
}

proof fn lemma_set_block_valid(state: SpineState, block: BlockModel, arena: ArenaFacts)
    requires
        state.sink.stage is Ready,
    ensures
        state.set_block(block, arena).0.valid(),
{
    let started = state.sink.block_started(block.logical_offset, utf8_len(block.text));
    let normal = normal_form(block.text, block.entities, state.sink.capacity);
    let style = drawn_style(block.style, block.role);
    lemma_taken_agrees(
        started,
        block.text,
        normal,
        style,
        block.role,
        block.align,
        block.paragraph_end,
    );
    let taken = started.block_taken(
        block.text,
        normal,
        style,
        block.role,
        block.align,
        block.paragraph_end,
    );
    lemma_sink_action_valid(
        SpineState { sink: taken.0, block: None, ..state },
        taken.1,
        arena,
    );
}

proof fn lemma_line_over_valid(state: SpineState, why: LineWhy, arena: ArenaFacts)
    requires
        state.valid(),
        state.stage == SpineStage::LineOut(why),
    ensures
        state.line_over(why, arena) matches Some(next) ==> next.0.valid(),
{
    if why is Setting {
        lemma_flushed_agrees(state.sink);
        if let Some(next) = state.sink.line_flushed() {
            lemma_sink_action_valid(SpineState { sink: next.0, ..state }, next.1, arena);
        }
    }
}

proof fn lemma_section_over_valid(state: SpineState, why: SectionWhy, arena: ArenaFacts)
    requires
        state.valid(),
        state.stage == SpineStage::SectionOut(why) || (state.stage is Section
            && state.stage->Section_why == why),
    ensures
        state.section_over(why, arena) matches Some(next) && next.0.valid(),
{
    match why {
        SectionWhy::BeforeBlock => {
            if let Some(block) = state.block {
                lemma_set_block_valid(state, block, arena);
            }
        },
        SectionWhy::InLine(line) => {
            if let Some(next) = state.sink.section_flushed() {
                lemma_flush_action_valid(
                    SpineState { sink: next.0, ..state },
                    next.1,
                    line,
                    arena,
                );
            }
        },
        _ => {},
    }
}

proof fn lemma_next_valid(state: SpineState, reply: SpineReply, arena: ArenaFacts)
    requires
        state.valid(),
    ensures
        state.next(reply, arena) matches Some(next) ==> next.0.valid(),
{
    match (state.stage, reply) {
        (SpineStage::Measuring, SpineReply::Measured(measured)) => {
            let column = column_of(state.sink.run, measured);
            let opens = is_opening(arena.block_count, arena.last_paragraph_end);
            lemma_measured_agrees(state.sink, measured.width, column, opens);
            if let Some(next) = state.sink.measured(measured.width, column, opens) {
                lemma_sink_action_valid(SpineState { sink: next.0, ..state }, next.1, arena);
            }
        },
        (SpineStage::TakingBack, SpineReply::Done) => {
            lemma_flush_line_valid(state, false, LineWhy::Setting, arena);
        },
        (SpineStage::Toc(why), SpineReply::Accepted(accepted)) => {
            if let Some(next) = state.sink.toc_pushed(accepted) {
                lemma_flush_action_valid(SpineState { sink: next.0, ..state }, next.1, why, arena);
            }
        },
        (SpineStage::Line(why), SpineReply::Pushed { accepted, appended }) => {
            if let Some(next) = state.sink.line_pushed(accepted, appended) {
                lemma_flush_action_valid(SpineState { sink: next.0, ..state }, next.1, why, arena);
            }
        },
        (SpineStage::LineOut(why), SpineReply::Done) => {
            lemma_line_over_valid(state, why, arena);
        },
        (
            SpineStage::Section { why, partial },
            SpineReply::Written { wrote, page_count, opens_at },
        ) => {
            let table = state.table.section_written(
                state.sink.state.spine_index,
                partial,
                wrote,
                page_count,
                opens_at,
            );
            lemma_section_over_valid(SpineState { table, ..state }, why, arena);
        },
        (SpineStage::SectionOut(why), SpineReply::Done) => {
            lemma_section_over_valid(state, why, arena);
        },
        _ => {},
    }
}

/// Where sections end. All but an item's last one end on a whole page: they
/// are cut before their unfinished last page, which goes on in the next
/// section, and none of them is partial. The last one keeps its trailing
/// page, and is partial where the caller said so or the index had refused a
/// section of the item.
pub proof fn law_last_section_keeps_its_page(state: SpineState, reply: SpineReply, arena: ArenaFacts)
    ensures
        state.next(reply, arena) matches Some(next) ==> (next.1 matches SpineAction::WriteSection {
            partial,
            end,
            spine,
            ..
        } ==> {
            &&& spine == state.sink.state.spine_index
            &&& match state.stage {
                SpineStage::LineOut(LineWhy::Finishing { partial: asked }) => partial == (asked
                    || state.stopped) && end == SectionEnd::Whole,
                _ => !partial && end == section_end(arena, true),
            }
        }),
{
    lemma_sections_of_next(state, reply, arena);
}

/// What a step may say of the section it has written, `arena` being as it is
/// then.
pub open spec fn cut_at_a_page(next: (SpineState, SpineAction), spine_index: u16, arena: ArenaFacts) -> bool {
    next.1 matches SpineAction::WriteSection { partial, end, spine, .. } ==> !partial && end
        == section_end(arena, true) && spine == spine_index
}

proof fn lemma_section_of_flush(state: SpineState, action: FlushAction, why: LineWhy, arena: ArenaFacts)
    ensures
        cut_at_a_page(
            state.flush_action(action, why, arena),
            state.sink.state.spine_index,
            arena,
        ),
{
}

proof fn lemma_section_of_sink(state: SpineState, action: SinkAction, arena: ArenaFacts)
    ensures
        !(state.sink_action(action, arena).1 is WriteSection),
{
}

proof fn lemma_sections_of_next(state: SpineState, reply: SpineReply, arena: ArenaFacts)
    ensures
        state.next(reply, arena) matches Some(next) ==> if state.stage is LineOut
            && state.stage->LineOut_0 is Finishing {
            next.1 matches SpineAction::WriteSection { partial, end, spine, .. } ==> partial == (
            state.stage->LineOut_0->Finishing_partial || state.stopped) && end == SectionEnd::Whole
                && spine == state.sink.state.spine_index
        } else {
            cut_at_a_page(next, state.sink.state.spine_index, arena)
        },
{
    let index = state.sink.state.spine_index;
    match (state.stage, reply) {
        (SpineStage::Measuring, SpineReply::Measured(measured)) => {
            let column = column_of(state.sink.run, measured);
            let opens = is_opening(arena.block_count, arena.last_paragraph_end);
            if let Some(next) = state.sink.measured(measured.width, column, opens) {
                lemma_section_of_sink(SpineState { sink: next.0, ..state }, next.1, arena);
            }
        },
        (SpineStage::Toc(why), SpineReply::Accepted(accepted)) => {
            if let Some(next) = state.sink.toc_pushed(accepted) {
                lemma_section_of_flush(SpineState { sink: next.0, ..state }, next.1, why, arena);
            }
        },
        (SpineStage::Line(why), SpineReply::Pushed { accepted, appended }) => {
            if let Some(next) = state.sink.line_pushed(accepted, appended) {
                assert(next.0.state.spine_index == index);
                lemma_section_of_flush(SpineState { sink: next.0, ..state }, next.1, why, arena);
            }
        },
        (SpineStage::LineOut(why), SpineReply::Done) => {
            if why is Setting {
                if let Some(next) = state.sink.line_flushed() {
                    lemma_section_of_sink(SpineState { sink: next.0, ..state }, next.1, arena);
                }
            }
        },
        (
            SpineStage::Section { why, partial },
            SpineReply::Written { wrote, page_count, opens_at },
        ) => {
            let table = state.table.section_written(index, partial, wrote, page_count, opens_at);
            lemma_section_of_over(SpineState { table, ..state }, why, arena);
        },
        (SpineStage::SectionOut(why), SpineReply::Done) => {
            lemma_section_of_over(state, why, arena);
        },
        _ => {},
    }
}

proof fn lemma_section_of_over(state: SpineState, why: SectionWhy, arena: ArenaFacts)
    ensures
        state.section_over(why, arena) matches Some(next) ==> cut_at_a_page(
            next,
            state.sink.state.spine_index,
            arena,
        ),
{
    match why {
        SectionWhy::BeforeBlock => {
            if let Some(block) = state.block {
                lemma_section_of_set(state, block, arena);
            }
        },
        SectionWhy::InLine(line) => {
            if let Some(next) = state.sink.section_flushed() {
                lemma_section_of_flush(SpineState { sink: next.0, ..state }, next.1, line, arena);
            }
        },
        _ => {},
    }
}

proof fn lemma_section_of_set(state: SpineState, block: BlockModel, arena: ArenaFacts)
    ensures
        !(state.set_block(block, arena).1 is WriteSection),
{
    let taken = state.sink.block_started(block.logical_offset, utf8_len(block.text)).block_taken(
        block.text,
        normal_form(block.text, block.entities, state.sink.capacity),
        drawn_style(block.style, block.role),
        block.role,
        block.align,
        block.paragraph_end,
    );
    lemma_section_of_sink(SpineState { sink: taken.0, block: None, ..state }, taken.1, arena);
}

/// A block that comes to a full arena waits, whole, while the line before it
/// and then the section are flushed, and is set when that is done; into an
/// arena with room it is set at once. One that comes after the index refused
/// a section is refused and changes nothing.
pub proof fn law_block_waits_for_room(state: SpineState, block: BlockModel, arena: ArenaFacts)
    ensures
        state.stopped ==> state.block_pushed(block, arena) == (state, SpineAction::Refused),
        !state.stopped && is_full(arena) ==> ({
            let next = state.block_pushed(block, arena);
            &&& next.0.block == Some(block)
            &&& next.0.holds_block()
            &&& next.0.table == state.table
            &&& !(next.1 is Measure) && !(next.1 is Done)
        }),
        !state.stopped && !is_full(arena) ==> state.block_pushed(block, arena) == state.set_block(
            block,
            arena,
        ),
        ({
            let flushed = SpineState {
                block: Some(block),
                stage: SpineStage::LineOut(LineWhy::BeforeBlock),
                ..state
            };
            flushed.next(SpineReply::Done, arena) == Some(
                flushed.flush_section(arena, false, true, SectionWhy::BeforeBlock),
            )
        }),
        ({
            let cleared = SpineState {
                block: Some(block),
                stage: SpineStage::SectionOut(SectionWhy::BeforeBlock),
                ..state
            };
            cleared.next(SpineReply::Done, arena) == Some(cleared.set_block(block, arena))
        }),
{
}

/// A block that is set leaves no full arena behind: where the arena is full
/// when the block is set, its line and its section are flushed before the
/// next block may come.
pub proof fn law_set_block_leaves_room(state: SpineState, arena: ArenaFacts)
    ensures
        state.sink_action(SinkAction::Done, arena).1 is Done <==> !is_full(arena),
        ({
            let flushed = SpineState { stage: SpineStage::LineOut(LineWhy::AfterBlock), ..state };
            flushed.next(SpineReply::Done, arena) == Some(
                flushed.flush_section(arena, false, true, SectionWhy::AfterBlock),
            )
        }),
{
}

} // verus!
