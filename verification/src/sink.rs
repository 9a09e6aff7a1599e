//! The sink a book's text runs into: words are put on lines, full lines
//! become blocks of the page arena, and each line knows where in the source
//! it began.
//!
//! Fonts and the arena stay outside. The sink says what to measure and what
//! to append, and is told the width and whether there was room.
use vstd::prelude::*;
use vstd::string::*;
use crate::bounded::{lemma_utf8_len_prefix, utf8_len, Text};
use crate::chars::{
    chars_of, cut, is_white_space, is_whitespace, spans_within, split_words, words, Span,
};
use crate::line::{
    append_styled_word, block_align, block_align_for, heading, heading_toc_level, is_heading,
    lemma_pieces_extend, pieces_fit, plain_text, push_plain_styled_text, take_back, with_each,
    with_pieces, word_pieces, FontStyle, StyleMarks, TextAlign, TextRole,
};
use crate::text::{
    collapsed, decoded, entities_apply, fitting, is_book_text, is_leading_punctuation_word, is_separator,
    normalize_decorative_separator, opens_with_punctuation, push_normalized_decoded,
    sanitize_preview_block, separator_text, trim_trailing_space, trimmed_block,
    without_trailing_spaces,
};

verus! {

/// The longest title a generated table of contents takes, in bytes.
pub const TOC_TITLE_BYTES: usize = 160;

/// What the sink knows beside the line itself.
#[derive(Clone, Copy, PartialEq, Eq, Structural, Debug)]
pub struct LineState {
    pub role: TextRole,
    pub align: TextAlign,
    /// The style the line's last word is in.
    pub style: FontStyle,
    pub pending_space: bool,
    /// The rest of the paragraph is not text of the book.
    pub dropping_paragraph: bool,
    /// Where the block being consumed starts in the source, how long it is
    /// and how much of it the lines have taken.
    pub block_offset: u32,
    pub block_len: u32,
    pub block_consumed: u32,
    /// Where the first word of the line in progress stands in the source.
    pub line_offset: u32,
    pub generate_toc_from_headings: bool,
    pub generated_toc_for_spine: bool,
    pub spine_index: u16,
}

/// How the words of a block are to be set.
#[derive(Clone, Copy, PartialEq, Eq, Structural, Debug)]
pub struct RunStyle {
    pub style: FontStyle,
    pub role: TextRole,
    pub align: TextAlign,
    pub paragraph_end: bool,
    pub starts_with_space: bool,
    pub ends_with_space: bool,
}

/// Which answer the sink is waiting for while it sets a block.
#[derive(Clone, Copy, PartialEq, Eq, Structural, Debug)]
pub enum SinkStage {
    /// No block is being set.
    Ready,
    /// The line before a change of role or alignment is being flushed.
    RoleChanged,
    /// The word did not fit the line's buffer; the line is being flushed.
    Overflowed,
    /// The word is on the line and is being measured.
    Measuring { kept_len: usize, kept_chars: usize, line_was_empty: bool },
    /// The word was too wide; the line without it is being flushed.
    Wrapped,
    /// The word opens a fresh line and is being measured.
    Remeasuring,
    /// The paragraph's last line is being flushed.
    Ending,
}

/// What to do next for the block being set.
#[derive(Clone, Copy, PartialEq, Eq, Structural, Debug)]
pub enum SinkAction {
    /// The block is set.
    Done,
    /// Flush the line, then report it.
    FlushLine { paragraph_end: bool },
    /// Measure the line from this byte on, added to what was measured before.
    Measure { from: usize },
    /// Take back the last measurement, flush the line, then report it.
    WrapLine,
}

/// Which answer the flush of a line is waiting for.
#[derive(Clone, Copy, PartialEq, Eq, Structural, Debug)]
pub enum FlushStage {
    Ready,
    Toc { paragraph_end: bool },
    Line { paragraph_end: bool },
    Section { paragraph_end: bool },
    Retry { paragraph_end: bool },
}

/// What to do next for the line being flushed.
#[derive(Clone, Copy, PartialEq, Eq, Structural, Debug)]
pub enum FlushAction {
    /// There was nothing to flush.
    Nothing,
    /// Mark the last block as the end of its paragraph.
    MarkParagraphEnd,
    /// Add the title to the table of contents, then report it.
    PushToc { level: u8, spine_index: u16 },
    /// Append the line as a block, then report it.
    PushLine { role: TextRole, align: TextAlign, paragraph_end: bool, spine_index: u16 },
    /// Flush the section, keeping its unfinished page, then report it.
    FlushSection,
    /// The line is flushed. When it became a block that opened a page, this
    /// is where that page begins.
    Flushed { appended: bool, line_offset: u32 },
}

/// The column a line is set in.
#[derive(Clone, Copy, PartialEq, Eq, Structural, Debug)]
pub struct Column {
    pub x: i16,
    /// What a paragraph's first line is moved in by.
    pub indent: i16,
    pub safety: i16,
    pub max_x: i16,
}

/// The sink of one spine item.
pub struct BlockSink<const N: usize> {
    line: Text<N>,
    state: LineState,
    marks: StyleMarks,
    text: Text<N>,
    spans: Vec<Span>,
    next: usize,
    run: RunStyle,
    stage: SinkStage,
    flush: FlushStage,
}

/// A sink as a mathematical value.
pub struct SinkModel {
    pub capacity: int,
    pub line: Seq<char>,
    pub state: LineState,
    pub marks: StyleMarks,
    /// The words of the block being set, and how many are on their line.
    pub words: Seq<Seq<char>>,
    pub next: int,
    pub run: RunStyle,
    pub stage: SinkStage,
    pub flush: FlushStage,
}

pub open spec fn saturated(sum: int) -> u32 {
    if sum <= u32::MAX { sum as u32 } else { u32::MAX }
}

/// The state after a word is taken into a line.
pub open spec fn word_taken(state: LineState, word: Seq<char>, line_was_empty: bool) -> LineState {
    let consumed = state.block_consumed + utf8_len(word) + 1;
    LineState {
        line_offset: if line_was_empty {
            saturated(state.block_offset + state.block_consumed)
        } else {
            state.line_offset
        },
        block_consumed: if consumed <= state.block_len { consumed as u32 } else { state.block_len },
        ..state
    }
}

/// A text as it is set: decoded, its space normalized, as much as fits, and
/// without spaces at the end.
pub open spec fn normal_form(text: Seq<char>, entities: Seq<Option<char>>, capacity: int) -> Seq<char> {
    without_trailing_spaces(fitting(collapsed(decoded(text, entities, 0), true), capacity))
}

impl SinkModel {
    pub open spec fn word(self) -> Seq<char> {
        self.words[self.next]
    }

    /// Whether a space goes before the word: never at the start of a line or
    /// before closing punctuation, and between two runs only where one of
    /// them had it.
    pub open spec fn spaced(self) -> bool {
        self.line.len() > 0 && !opens_with_punctuation(self.word()) && (self.state.pending_space
            || self.next > 0 || self.run.starts_with_space)
    }

    pub open spec fn pieces(self, leading_space: bool) -> Seq<Seq<char>> {
        word_pieces(self.word(), self.run.style, self.state.style, leading_space, self.marks)
    }

    /// The next word goes on the line, or the block is set.
    pub open spec fn next_word(self) -> (SinkModel, SinkAction) {
        if self.next >= self.words.len() {
            let state = LineState {
                pending_space: self.state.pending_space || self.run.ends_with_space,
                ..self.state
            };
            if self.run.paragraph_end {
                (
                    SinkModel { state, stage: SinkStage::Ending, ..self },
                    SinkAction::FlushLine { paragraph_end: true },
                )
            } else {
                (SinkModel { state, stage: SinkStage::Ready, ..self }, SinkAction::Done)
            }
        } else if pieces_fit(self.line, self.pieces(self.spaced()), self.capacity) {
            (
                SinkModel {
                    line: with_pieces(self.line, self.pieces(self.spaced()), self.capacity),
                    stage: SinkStage::Measuring {
                        kept_len: utf8_len(self.line) as usize,
                        kept_chars: self.line.len() as usize,
                        line_was_empty: self.line.len() == 0,
                    },
                    ..self
                },
                SinkAction::Measure { from: utf8_len(self.line) as usize },
            )
        } else {
            (
                SinkModel { stage: SinkStage::Overflowed, ..self },
                SinkAction::FlushLine { paragraph_end: false },
            )
        }
    }

    /// The word is on its line for good.
    pub open spec fn word_settled(self, line_was_empty: bool) -> SinkModel {
        SinkModel {
            state: LineState {
                role: self.run.role,
                align: self.run.align,
                style: self.run.style,
                pending_space: false,
                ..word_taken(self.state, self.word(), line_was_empty)
            },
            next: self.next + 1,
            ..self
        }
    }

    /// An empty line takes on the block's role and alignment.
    pub open spec fn words_started(self) -> SinkModel {
        if self.line.len() == 0 {
            SinkModel {
                state: LineState {
                    role: self.run.role,
                    align: self.run.align,
                    style: FontStyle::Regular,
                    ..self.state
                },
                ..self
            }
        } else {
            self
        }
    }

    /// What the width of the line does.
    pub open spec fn measured(self, width: i16, column: Column, opens_paragraph: bool) -> Option<(SinkModel, SinkAction)> {
        match self.stage {
            SinkStage::Measuring { kept_len, kept_chars, line_was_empty } => {
                let right = width + column.x + (if opens_paragraph { column.indent as int } else { 0 })
                    + column.safety;
                if !line_was_empty && right > column.max_x {
                    Some(
                        (
                            SinkModel {
                                line: self.line.take(kept_chars as int),
                                stage: SinkStage::Wrapped,
                                ..self
                            },
                            SinkAction::WrapLine,
                        ),
                    )
                } else {
                    Some(self.word_settled(line_was_empty).next_word())
                }
            },
            SinkStage::Remeasuring => Some(self.word_settled(true).next_word()),
            _ => None,
        }
    }

    /// What the end of a line's flush does.
    pub open spec fn line_flushed(self) -> Option<(SinkModel, SinkAction)> {
        match self.stage {
            SinkStage::RoleChanged => Some(self.words_started().next_word()),
            SinkStage::Overflowed | SinkStage::Wrapped => Some(
                (
                    SinkModel {
                        line: with_pieces(self.line, self.pieces(false), self.capacity),
                        stage: SinkStage::Remeasuring,
                        ..self
                    },
                    SinkAction::Measure { from: 0 },
                ),
            ),
            SinkStage::Ending => Some(
                (SinkModel { stage: SinkStage::Ready, ..self }, SinkAction::Done),
            ),
            _ => None,
        }
    }

    /// A block that is not set on lines: it may still end its paragraph.
    pub open spec fn passed_over(self, paragraph_end: bool) -> (SinkModel, SinkAction) {
        if paragraph_end {
            (
                SinkModel { stage: SinkStage::Ending, ..self },
                SinkAction::FlushLine { paragraph_end: true },
            )
        } else {
            (SinkModel { stage: SinkStage::Ready, ..self }, SinkAction::Done)
        }
    }

    /// A block of `len` bytes is at hand and none of it is consumed.
    pub open spec fn block_started(self, offset: u32, len: nat) -> SinkModel {
        SinkModel {
            state: LineState {
                block_offset: offset,
                block_len: len as u32,
                block_consumed: 0,
                ..self.state
            },
            ..self
        }
    }

    /// A block of `text` arrives, `normal` being its normalized form.
    pub open spec fn block_taken(
        self,
        text: Seq<char>,
        normal: Seq<char>,
        style: FontStyle,
        role: TextRole,
        align: TextAlign,
        paragraph_end: bool,
    ) -> (SinkModel, SinkAction) {
        if self.state.dropping_paragraph {
            (
                if paragraph_end {
                    SinkModel {
                        state: LineState {
                            dropping_paragraph: false,
                            pending_space: false,
                            ..self.state
                        },
                        ..self
                    }
                } else {
                    self
                },
                SinkAction::Done,
            )
        } else {
            self.normal_taken(
                normal,
                style,
                role,
                align,
                paragraph_end,
                text.len() > 0 && is_white_space(text[0]),
                text.len() > 0 && is_white_space(text.last()),
            )
        }
    }

    /// A normalized block is left out or set. `starts` and `ends` say whether
    /// the block had space there before it was normalized.
    pub open spec fn normal_taken(
        self,
        normal: Seq<char>,
        style: FontStyle,
        role: TextRole,
        align: TextAlign,
        paragraph_end: bool,
        starts: bool,
        ends: bool,
    ) -> (SinkModel, SinkAction) {
        let kept = if is_separator(trimmed_block(normal)) {
            separator_text(self.capacity)
        } else {
            trimmed_block(normal)
        };
        if !is_book_text(normal) {
            SinkModel {
                state: LineState {
                    dropping_paragraph: !paragraph_end,
                    pending_space: false,
                    ..self.state
                },
                ..self
            }.passed_over(paragraph_end)
        } else if kept.len() == 0 {
            SinkModel {
                state: LineState {
                    pending_space: self.state.pending_space || starts || ends,
                    ..self.state
                },
                ..self
            }.passed_over(paragraph_end)
        } else {
            self.text_taken(
                if is_separator(kept) { separator_text(self.capacity) } else { kept },
                style,
                role,
                align,
                paragraph_end,
                starts,
                ends,
            )
        }
    }

    /// A text of the book is set, its first word first.
    pub open spec fn text_taken(
        self,
        text: Seq<char>,
        style: FontStyle,
        role: TextRole,
        align: TextAlign,
        paragraph_end: bool,
        starts: bool,
        ends: bool,
    ) -> (SinkModel, SinkAction) {
        let run = RunStyle {
            style,
            role,
            align: block_align(align, text, role),
            paragraph_end,
            starts_with_space: starts,
            ends_with_space: ends,
        };
        let set = SinkModel { words: words(text), next: 0, run, ..self };
        if self.line.len() > 0 && (self.state.role != run.role || self.state.align != run.align) {
            (
                SinkModel { stage: SinkStage::RoleChanged, ..set },
                SinkAction::FlushLine { paragraph_end: false },
            )
        } else {
            set.words_started().next_word()
        }
    }

    /// The title a heading line gives a generated table of contents.
    pub open spec fn toc_title(self) -> Seq<char> {
        without_trailing_spaces(
            with_each(
                Seq::empty(),
                plain_text(self.line, self.marks.marker),
                TOC_TITLE_BYTES as int,
            ),
        )
    }

    pub open spec fn owes_toc(self) -> bool {
        self.state.generate_toc_from_headings && !self.state.generated_toc_for_spine && is_heading(
            self.state.role,
        ) && self.toc_title().len() > 0
    }

    pub open spec fn push_line(self, paragraph_end: bool) -> FlushAction {
        FlushAction::PushLine {
            role: self.state.role,
            align: self.state.align,
            paragraph_end,
            spine_index: self.state.spine_index,
        }
    }

    /// The flush of the line in progress begins.
    pub open spec fn flush_begun(self, paragraph_end: bool) -> (SinkModel, FlushAction) {
        if self.line.len() == 0 {
            (
                SinkModel { flush: FlushStage::Ready, ..self },
                if paragraph_end { FlushAction::MarkParagraphEnd } else { FlushAction::Nothing },
            )
        } else if self.owes_toc() {
            (
                SinkModel { flush: FlushStage::Toc { paragraph_end }, ..self },
                FlushAction::PushToc {
                    level: match self.state.role {
                        TextRole::Heading2 => 2,
                        TextRole::Heading3 => 3,
                        _ => 1,
                    },
                    spine_index: self.state.spine_index,
                },
            )
        } else {
            (
                SinkModel { flush: FlushStage::Line { paragraph_end }, ..self },
                self.push_line(paragraph_end),
            )
        }
    }

    /// What the table of contents' answer does.
    pub open spec fn toc_pushed(self, accepted: bool) -> Option<(SinkModel, FlushAction)> {
        match self.flush {
            FlushStage::Toc { paragraph_end } => Some(
                (
                    SinkModel {
                        state: LineState {
                            generated_toc_for_spine: self.state.generated_toc_for_spine || accepted,
                            ..self.state
                        },
                        flush: FlushStage::Line { paragraph_end },
                        ..self
                    },
                    self.push_line(paragraph_end),
                ),
            ),
            _ => None,
        }
    }

    /// What the arena's answer to the line does.
    pub open spec fn line_pushed(self, accepted: bool, appended: bool) -> Option<(SinkModel, FlushAction)> {
        match self.flush {
            FlushStage::Line { paragraph_end } => Some(
                if accepted {
                    self.line_done(appended)
                } else {
                    (
                        SinkModel { flush: FlushStage::Section { paragraph_end }, ..self },
                        FlushAction::FlushSection,
                    )
                },
            ),
            FlushStage::Retry { .. } => Some(self.line_done(appended)),
            _ => None,
        }
    }

    /// What the end of a section's flush does.
    pub open spec fn section_flushed(self) -> Option<(SinkModel, FlushAction)> {
        match self.flush {
            FlushStage::Section { paragraph_end } => Some(
                (
                    SinkModel { flush: FlushStage::Retry { paragraph_end }, ..self },
                    self.push_line(paragraph_end),
                ),
            ),
            _ => None,
        }
    }

    /// The line is out of the sink's hands.
    pub open spec fn line_done(self, appended: bool) -> (SinkModel, FlushAction) {
        (
            SinkModel {
                line: Seq::empty(),
                state: LineState {
                    style: FontStyle::Regular,
                    pending_space: false,
                    ..self.state
                },
                flush: FlushStage::Ready,
                ..self
            },
            FlushAction::Flushed { appended, line_offset: self.state.line_offset },
        )
    }
}

impl<const N: usize> BlockSink<N> {
    pub closed spec fn model(&self) -> SinkModel {
        SinkModel {
            capacity: N as int,
            line: self.line@,
            state: self.state,
            marks: self.marks,
            words: cut(self.text@, self.spans@),
            next: self.next as int,
            run: self.run,
            stage: self.stage,
            flush: self.flush,
        }
    }

    /// What holds between calls: the spans lie in the text, a word that is
    /// being set is one of them, and what was kept of a measured line is a
    /// part of it.
    pub closed spec fn wf(&self) -> bool {
        &&& N <= u32::MAX
        &&& spans_within(self.spans@, self.text@.len())
        &&& self.next <= self.spans@.len()
        &&& match self.stage {
            SinkStage::Overflowed | SinkStage::Wrapped | SinkStage::Remeasuring => self.next
                < self.spans@.len(),
            SinkStage::Measuring { kept_len, kept_chars, .. } => {
                &&& self.next < self.spans@.len()
                &&& kept_chars <= self.line@.len()
                &&& kept_len == utf8_len(self.line@.take(kept_chars as int))
            },
            _ => true,
        }
    }

    /// A fresh sink for one spine item. Every build starts its items here, so
    /// the same text is set the same way each time.
    pub fn begin_spine(spine_index: u16, generate_toc_from_headings: bool, marks: StyleMarks) -> (sink: Self)
        requires
            N <= u32::MAX,
        ensures
            sink.wf(),
            sink.model() == (SinkModel {
                capacity: N as int,
                line: Seq::empty(),
                state: LineState {
                    role: TextRole::Body,
                    align: TextAlign::Justify,
                    style: FontStyle::Regular,
                    pending_space: false,
                    dropping_paragraph: false,
                    block_offset: 0,
                    block_len: 0,
                    block_consumed: 0,
                    line_offset: 0,
                    generate_toc_from_headings,
                    generated_toc_for_spine: false,
                    spine_index,
                },
                marks,
                words: Seq::empty(),
                next: 0,
                run: RunStyle {
                    style: FontStyle::Regular,
                    role: TextRole::Body,
                    align: TextAlign::Justify,
                    paragraph_end: false,
                    starts_with_space: false,
                    ends_with_space: false,
                },
                stage: SinkStage::Ready,
                flush: FlushStage::Ready,
            }),
    {
        let sink = BlockSink {
            line: Text::new(),
            state: LineState {
                role: TextRole::Body,
                align: TextAlign::Justify,
                style: FontStyle::Regular,
                pending_space: false,
                dropping_paragraph: false,
                block_offset: 0,
                block_len: 0,
                block_consumed: 0,
                line_offset: 0,
                generate_toc_from_headings,
                generated_toc_for_spine: false,
                spine_index,
            },
            marks,
            text: Text::new(),
            spans: Vec::new(),
            next: 0,
            run: RunStyle {
                style: FontStyle::Regular,
                role: TextRole::Body,
                align: TextAlign::Justify,
                paragraph_end: false,
                starts_with_space: false,
                ends_with_space: false,
            },
            stage: SinkStage::Ready,
            flush: FlushStage::Ready,
        };
        assert(cut(sink.text@, sink.spans@) =~= Seq::empty());
        sink
    }

    /// The characters of the line in progress.
    pub fn line_chars(&self) -> (chars: Vec<char>)
        ensures
            chars@ == self.model().line,
    {
        self.line.chars()
    }

    /// How the words of the block are being set.
    pub fn run(&self) -> (run: RunStyle)
        ensures
            run == self.model().run,
    {
        self.run
    }

    pub fn state(&self) -> (state: LineState)
        ensures
            state == self.model().state,
    {
        self.state
    }

    fn next_word(&mut self) -> (action: SinkAction)
        requires
            old(self).wf(),
        ensures
            final(self).wf(),
            (final(self).model(), action) == old(self).model().next_word(),
    {
        if self.next >= self.spans.len() {
            self.state.pending_space = self.state.pending_space || self.run.ends_with_space;
            return if self.run.paragraph_end {
                self.stage = SinkStage::Ending;
                SinkAction::FlushLine { paragraph_end: true }
            } else {
                self.stage = SinkStage::Ready;
                SinkAction::Done
            };
        }
        let ghost before = self.model();
        let start: usize = self.spans[self.next].start;
        let end: usize = self.spans[self.next].end;
        let kept_len: usize = self.line.len();
        let kept_chars: usize = self.line.chars().len();
        let line_was_empty: bool = self.line.is_empty();
        let word: &str = self.text.as_str().substring_char(start, end);
        assert(word@ == before.word());
        let leading_space: bool = !line_was_empty && !is_leading_punctuation_word(word) && (
        self.state.pending_space || self.next > 0 || self.run.starts_with_space);
        let ghost kept = self.line@;
        let ghost pieces = before.pieces(leading_space);
        proof {
            lemma_pieces_extend(kept, pieces, N as int);
        }
        let outcome = append_styled_word(
            &mut self.line,
            word,
            self.run.style,
            self.state.style,
            leading_space,
            &self.marks,
        );
        if outcome.is_err() {
            take_back(&mut self.line, kept_len, Ghost(kept));
            self.stage = SinkStage::Overflowed;
            return SinkAction::FlushLine { paragraph_end: false };
        }
        self.stage = SinkStage::Measuring { kept_len, kept_chars, line_was_empty };
        SinkAction::Measure { from: kept_len }
    }

    fn start_words(&mut self) -> (action: SinkAction)
        requires
            old(self).wf(),
        ensures
            final(self).wf(),
            (final(self).model(), action) == old(self).model().words_started().next_word(),
    {
        if self.line.is_empty() {
            self.state.role = self.run.role;
            self.state.align = self.run.align;
            self.state.style = FontStyle::Regular;
        }
        assert(self.model() == old(self).model().words_started());
        self.next_word()
    }

    /// Takes one word into the line in progress: a line's first word says
    /// where the line began, and the block is never consumed past its end.
    fn note_word_placed(&mut self, word_len: usize, line_was_empty: bool)
        requires
            old(self).wf(),
            old(self).next < old(self).spans@.len(),
            word_len == utf8_len(old(self).model().word()),
            word_len <= N,
        ensures
            final(self).wf(),
            final(self).model() == (SinkModel {
                state: word_taken(
                    old(self).model().state,
                    old(self).model().word(),
                    line_was_empty,
                ),
                ..old(self).model()
            }),
    {
        if line_was_empty {
            self.state.line_offset = self.state.block_offset.saturating_add(
                self.state.block_consumed,
            );
        }
        let taken: u32 = (word_len as u32).saturating_add(1);
        let consumed: u32 = self.state.block_consumed.saturating_add(taken);
        self.state.block_consumed = if consumed < self.state.block_len {
            consumed
        } else {
            self.state.block_len
        };
    }

    /// The length of the word being set, in bytes.
    fn word_len(&self) -> (len: usize)
        requires
            self.wf(),
            self.next < self.spans@.len(),
        ensures
            len == utf8_len(self.model().word()),
            len <= N,
    {
        let start: usize = self.spans[self.next].start;
        let end: usize = self.spans[self.next].end;
        let total: usize = self.text.len();
        let word: &str = self.text.as_str().substring_char(start, end);
        let ghost text = self.text@;
        proof {
            assert(word@ == self.model().word());
            let head = text.take(end as int);
            crate::bounded::lemma_utf8_len_concat(text.take(start as int), word@);
            assert(text.take(start as int) + word@ =~= head);
            lemma_utf8_len_prefix(text, end as int);
        }
        let mut buffer: Text<N> = Text::new();
        proof {
            assert(utf8_len(Seq::<char>::empty()) == 0);
            assert(Seq::<char>::empty() + word@ =~= word@);
        }
        let _ = buffer.push_str(word);
        buffer.len()
    }

    fn settle_word(&mut self, line_was_empty: bool) -> (action: SinkAction)
        requires
            old(self).wf(),
            old(self).next < old(self).spans@.len(),
            old(self).stage is Measuring || old(self).stage is Remeasuring,
        ensures
            final(self).wf(),
            (final(self).model(), action) == old(self).model().word_settled(
                line_was_empty,
            ).next_word(),
    {
        let word_len: usize = self.word_len();
        self.note_word_placed(word_len, line_was_empty);
        self.state.role = self.run.role;
        self.state.align = self.run.align;
        self.state.style = self.run.style;
        self.state.pending_space = false;
        self.stage = SinkStage::Ready;
        let count: usize = self.spans.len();
        assert(self.next < count);
        self.next = self.next + 1;
        let ghost mid = self.model();
        proof {
            let settled = old(self).model().word_settled(line_was_empty);
            assert(mid == SinkModel { stage: SinkStage::Ready, ..settled });
            assert(mid.pieces(mid.spaced()) == settled.pieces(settled.spaced()));
            assert(mid.next_word() == settled.next_word());
        }
        self.next_word()
    }

    /// The line's width so far. A word that runs past the column's right edge
    /// is taken back and opens the next line, unless it is alone on its line.
    /// `None` when nothing was being measured.
    pub fn measured(&mut self, width: i16, column: &Column, opens_paragraph: bool) -> (action: Option<
        SinkAction,
    >)
        requires
            old(self).wf(),
        ensures
            final(self).wf(),
            match old(self).model().measured(width, *column, opens_paragraph) {
                Some(next) => (final(self).model(), action) == (next.0, Some(next.1)),
                None => action is None && final(self).model() == old(self).model(),
            },
    {
        match self.stage {
            SinkStage::Measuring { kept_len, kept_chars, line_was_empty } => {
                let indent: i32 = if opens_paragraph { column.indent as i32 } else { 0 };
                let right: i32 = width as i32 + column.x as i32 + indent + column.safety as i32;
                if !line_was_empty && right > column.max_x as i32 {
                    let ghost kept = self.line@.take(kept_chars as int);
                    take_back(&mut self.line, kept_len, Ghost(kept));
                    self.stage = SinkStage::Wrapped;
                    Some(SinkAction::WrapLine)
                } else {
                    Some(self.settle_word(line_was_empty))
                }
            },
            SinkStage::Remeasuring => Some(self.settle_word(true)),
            _ => None,
        }
    }

    /// The line was flushed. `None` when no flush was asked for.
    pub fn line_flushed(&mut self) -> (action: Option<SinkAction>)
        requires
            old(self).wf(),
        ensures
            final(self).wf(),
            match old(self).model().line_flushed() {
                Some(next) => (final(self).model(), action) == (next.0, Some(next.1)),
                None => action is None && final(self).model() == old(self).model(),
            },
    {
        match self.stage {
            SinkStage::RoleChanged => {
                Some(self.start_words())
            },
            SinkStage::Overflowed | SinkStage::Wrapped => {
                let start: usize = self.spans[self.next].start;
                let end: usize = self.spans[self.next].end;
                let word: &str = self.text.as_str().substring_char(start, end);
                assert(word@ == self.model().word());
                let _ = append_styled_word(
                    &mut self.line,
                    word,
                    self.run.style,
                    self.state.style,
                    false,
                    &self.marks,
                );
                self.stage = SinkStage::Remeasuring;
                Some(SinkAction::Measure { from: 0 })
            },
            SinkStage::Ending => {
                self.stage = SinkStage::Ready;
                Some(SinkAction::Done)
            },
            _ => None,
        }
    }

    fn pass_over(&mut self, paragraph_end: bool) -> (action: SinkAction)
        requires
            old(self).wf(),
        ensures
            final(self).wf(),
            (final(self).model(), action) == old(self).model().passed_over(paragraph_end),
    {
        if paragraph_end {
            self.stage = SinkStage::Ending;
            SinkAction::FlushLine { paragraph_end: true }
        } else {
            self.stage = SinkStage::Ready;
            SinkAction::Done
        }
    }

    /// Takes a block of text that starts at `logical_offset` of its source.
    ///
    /// The block is decoded and normalized; one that is not text of the book
    /// is left out, with the rest of its paragraph, but still ends the
    /// paragraph when it says so.
    pub fn begin_block(
        &mut self,
        text: &str,
        entities: &Vec<Option<char>>,
        style: FontStyle,
        role: TextRole,
        align: TextAlign,
        paragraph_end: bool,
        logical_offset: u32,
    ) -> (action: SinkAction)
        requires
            old(self).wf(),
            old(self).model().stage is Ready,
            utf8_len(text@) <= u32::MAX,
            entities_apply(text@, entities@),
        ensures
            final(self).wf(),
            (final(self).model(), action) == old(self).model().block_started(
                logical_offset,
                utf8_len(text@),
            ).block_taken(
                text@,
                normal_form(text@, entities@, old(self).model().capacity),
                style,
                role,
                align,
                paragraph_end,
            ),
    {
        proof {
            crate::bounded::lemma_encoded_len(text@);
        }
        self.state.block_offset = logical_offset;
        self.state.block_len = text.len() as u32;
        self.state.block_consumed = 0;
        let ghost taken = self.model();
        if self.state.dropping_paragraph {
            if paragraph_end {
                self.state.dropping_paragraph = false;
                self.state.pending_space = false;
            }
            return SinkAction::Done;
        }
        let chars = chars_of(text);
        let starts_with_space: bool = chars.len() > 0 && is_whitespace(chars[0]);
        let ends_with_space: bool = chars.len() > 0 && is_whitespace(chars[chars.len() - 1]);
        let mut normalized: Text<N> = Text::new();
        proof {
            assert(utf8_len(Seq::<char>::empty()) == 0);
            let added = fitting(collapsed(decoded(text@, entities@, 0), true), N as int);
            assert(Seq::<char>::empty() + added =~= added);
        }
        push_normalized_decoded(text, entities, &mut normalized);
        trim_trailing_space(&mut normalized);
        self.take_normalized(
            normalized,
            style,
            role,
            align,
            paragraph_end,
            starts_with_space,
            ends_with_space,
        )
    }

    fn take_normalized(
        &mut self,
        normalized: Text<N>,
        style: FontStyle,
        role: TextRole,
        align: TextAlign,
        paragraph_end: bool,
        starts_with_space: bool,
        ends_with_space: bool,
    ) -> (action: SinkAction)
        requires
            old(self).wf(),
            old(self).stage is Ready,
        ensures
            final(self).wf(),
            (final(self).model(), action) == old(self).model().normal_taken(
                normalized@,
                style,
                role,
                align,
                paragraph_end,
                starts_with_space,
                ends_with_space,
            ),
    {
        let mut block = normalized;
        if !sanitize_preview_block(&mut block) {
            self.state.dropping_paragraph = !paragraph_end;
            self.state.pending_space = false;
            return self.pass_over(paragraph_end);
        }
        if block.is_empty() {
            self.state.pending_space = self.state.pending_space || starts_with_space
                || ends_with_space;
            return self.pass_over(paragraph_end);
        }
        normalize_decorative_separator(&mut block);
        self.set_text(
            block,
            style,
            role,
            align,
            paragraph_end,
            starts_with_space,
            ends_with_space,
        )
    }

    fn set_text(
        &mut self,
        text: Text<N>,
        style: FontStyle,
        role: TextRole,
        align: TextAlign,
        paragraph_end: bool,
        starts_with_space: bool,
        ends_with_space: bool,
    ) -> (action: SinkAction)
        requires
            old(self).wf(),
            old(self).stage is Ready,
        ensures
            final(self).wf(),
            (final(self).model(), action) == old(self).model().text_taken(
                text@,
                style,
                role,
                align,
                paragraph_end,
                starts_with_space,
                ends_with_space,
            ),
    {
        let align = block_align_for(align, text.as_str(), role);
        self.spans = split_words(&text.chars());
        self.text = text;
        self.next = 0;
        self.run = RunStyle {
            style,
            role,
            align,
            paragraph_end,
            starts_with_space,
            ends_with_space,
        };
        if !self.line.is_empty() && (self.state.role != role || self.state.align != align) {
            self.stage = SinkStage::RoleChanged;
            return SinkAction::FlushLine { paragraph_end: false };
        }
        self.start_words()
    }

    /// The title a heading line would give a generated table of contents.
    fn title(&self) -> (title: Text<TOC_TITLE_BYTES>)
        ensures
            title@ == self.model().toc_title(),
    {
        let mut title: Text<TOC_TITLE_BYTES> = Text::new();
        push_plain_styled_text(self.line.as_str(), self.marks.marker, &mut title);
        trim_trailing_space(&mut title);
        title
    }

    /// The characters of that title.
    pub fn toc_title(&self) -> (title: Vec<char>)
        ensures
            title@ == self.model().toc_title(),
    {
        self.title().chars()
    }

    fn push_line(&self, paragraph_end: bool) -> (action: FlushAction)
        ensures
            action == self.model().push_line(paragraph_end),
    {
        FlushAction::PushLine {
            role: self.state.role,
            align: self.state.align,
            paragraph_end,
            spine_index: self.state.spine_index,
        }
    }

    /// Begins to flush the line in progress. The first heading of a spine
    /// item also becomes an entry of a table of contents that is being
    /// generated.
    pub fn begin_flush(&mut self, paragraph_end: bool) -> (action: FlushAction)
        requires
            old(self).wf(),
        ensures
            final(self).wf(),
            (final(self).model(), action) == old(self).model().flush_begun(paragraph_end),
    {
        if self.line.is_empty() {
            self.flush = FlushStage::Ready;
            return if paragraph_end {
                FlushAction::MarkParagraphEnd
            } else {
                FlushAction::Nothing
            };
        }
        if self.state.generate_toc_from_headings && !self.state.generated_toc_for_spine && heading(
            self.state.role,
        ) {
            if !self.title().is_empty() {
                self.flush = FlushStage::Toc { paragraph_end };
                return FlushAction::PushToc {
                    level: heading_toc_level(self.state.role),
                    spine_index: self.state.spine_index,
                };
            }
        }
        self.flush = FlushStage::Line { paragraph_end };
        self.push_line(paragraph_end)
    }

    /// Whether the table of contents took the title; one that did not may be
    /// tried again with the item's next heading. `None` when none was offered.
    pub fn toc_pushed(&mut self, accepted: bool) -> (action: Option<FlushAction>)
        requires
            old(self).wf(),
        ensures
            final(self).wf(),
            match old(self).model().toc_pushed(accepted) {
                Some(next) => (final(self).model(), action) == (next.0, Some(next.1)),
                None => action is None && final(self).model() == old(self).model(),
            },
    {
        match self.flush {
            FlushStage::Toc { paragraph_end } => {
                if accepted {
                    self.state.generated_toc_for_spine = true;
                }
                self.flush = FlushStage::Line { paragraph_end };
                Some(self.push_line(paragraph_end))
            },
            _ => None,
        }
    }

    fn finish_line(&mut self, appended: bool) -> (action: FlushAction)
        requires
            old(self).wf(),
            !(old(self).stage is Measuring),
        ensures
            final(self).wf(),
            (final(self).model(), action) == old(self).model().line_done(appended),
    {
        let line_offset: u32 = self.state.line_offset;
        self.line.clear();
        self.state.style = FontStyle::Regular;
        self.state.pending_space = false;
        self.flush = FlushStage::Ready;
        FlushAction::Flushed { appended, line_offset }
    }

    /// Whether the arena took the line, and whether that made a block. A full
    /// arena is flushed once and the line offered again; a line refused twice
    /// is let go. `None` when no line was offered.
    pub fn line_pushed(&mut self, accepted: bool, appended: bool) -> (action: Option<FlushAction>)
        requires
            old(self).wf(),
            !(old(self).model().stage is Measuring),
        ensures
            final(self).wf(),
            match old(self).model().line_pushed(accepted, appended) {
                Some(next) => (final(self).model(), action) == (next.0, Some(next.1)),
                None => action is None && final(self).model() == old(self).model(),
            },
    {
        match self.flush {
            FlushStage::Line { paragraph_end } => {
                if accepted {
                    Some(self.finish_line(appended))
                } else {
                    self.flush = FlushStage::Section { paragraph_end };
                    Some(FlushAction::FlushSection)
                }
            },
            FlushStage::Retry { .. } => Some(self.finish_line(appended)),
            _ => None,
        }
    }

    /// The section was flushed; the line is offered again. `None` when no
    /// section flush was asked for.
    pub fn section_flushed(&mut self) -> (action: Option<FlushAction>)
        requires
            old(self).wf(),
        ensures
            final(self).wf(),
            match old(self).model().section_flushed() {
                Some(next) => (final(self).model(), action) == (next.0, Some(next.1)),
                None => action is None && final(self).model() == old(self).model(),
            },
    {
        match self.flush {
            FlushStage::Section { paragraph_end } => {
                self.flush = FlushStage::Retry { paragraph_end };
                Some(self.push_line(paragraph_end))
            },
            _ => None,
        }
    }
}

/// Whether the line in progress opens a paragraph: nothing stands before it,
/// or what does has closed one.
pub open spec fn is_opening(block_count: usize, last_paragraph_end: Option<bool>) -> bool {
    block_count == 0 || last_paragraph_end != Some(false)
}

/// Whether the line in progress opens a paragraph.
pub fn opens_paragraph(block_count: usize, last_paragraph_end: Option<bool>) -> (opens: bool)
    ensures
        opens == is_opening(block_count, last_paragraph_end),
{
    block_count == 0 || match last_paragraph_end {
        Some(ended) => ended,
        None => true,
    }
}

} // verus!
