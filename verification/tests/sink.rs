use reader_fw::ink::{
    load_custom_font_manifest, measures_with_card_font, CustomFont, CustomLineInkCursor,
    GlyphMetric, FALLBACK_ADVANCE_FP,
};
use reader_fw::line::{FontStyle, StyleMarks, TextAlign, TextRole};
use reader_fw::messages::{SourceIdentity, TypeSettings};
use reader_fw::replay::{
    begin_group, continue_group, may_replay, BlockRead, GroupAction, GroupReply, GroupStage, ReplayFlow,
};
use reader_fw::resume::BookBuildResume;
use reader_fw::sections::{
    section_is_full, ArenaFacts, Growth, SectionAction, SectionEnd, SectionRecord, SectionTable,
};
use reader_fw::sink::{opens_paragraph, BlockSink, Column, FlushAction, SinkAction};
use reader_fw::spine::{Block, Measurement, SpineAction, SpineReply, SpineText};
use reader_fw::text::entities_match;

const MARKS: StyleMarks = StyleMarks {
    marker: '\u{1}',
    regular: 'r',
    bold: 'b',
    italic: 'i',
    bold_italic: 'x',
};

const COLUMN: Column = Column { x: 0, indent: 0, safety: 0, max_x: 10 };

/// What the arena was given: the line, whether it ends its paragraph, and
/// where it began.
struct Page {
    lines: Vec<(String, bool, u32)>,
    marked: usize,
}

fn flush<const N: usize>(sink: &mut BlockSink<N>, page: &mut Page, paragraph_end: bool) {
    let line: String = sink.line_chars().into_iter().collect();
    match sink.begin_flush(paragraph_end) {
        FlushAction::Nothing => {}
        FlushAction::MarkParagraphEnd => page.marked += 1,
        FlushAction::PushLine { paragraph_end, .. } => {
            match sink.line_pushed(true, true) {
                Some(FlushAction::Flushed { appended: true, line_offset }) => {
                    page.lines.push((line, paragraph_end, line_offset))
                }
                other => panic!("{:?}", other),
            }
        }
        other => panic!("{:?}", other),
    }
}

/// Sets a block in a font where every character is one unit wide.
fn set<const N: usize>(
    sink: &mut BlockSink<N>,
    page: &mut Page,
    text: &str,
    style: FontStyle,
    role: TextRole,
    align: TextAlign,
    end: bool,
    offset: u32,
) {
    let entities: Vec<Option<char>> = text.chars().map(|_| None).collect();
    let mut action = sink.begin_block(text, &entities, style, role, align, end, offset);
    loop {
        action = match action {
            SinkAction::Done => return,
            SinkAction::FlushLine { paragraph_end } => {
                flush(sink, page, paragraph_end);
                sink.line_flushed().unwrap()
            }
            SinkAction::WrapLine => {
                flush(sink, page, false);
                sink.line_flushed().unwrap()
            }
            SinkAction::Measure { .. } => {
                let mut width = 0i16;
                let mut skip = false;
                for c in sink.line_chars() {
                    if skip {
                        skip = false;
                    } else if c == MARKS.marker {
                        skip = true;
                    } else {
                        width += 1;
                    }
                }
                let opens = opens_paragraph(page.lines.len(), page.lines.last().map(|l| l.1));
                sink.measured(width, &COLUMN, opens).unwrap()
            }
        };
    }
}

fn page() -> Page {
    Page { lines: Vec::new(), marked: 0 }
}

fn texts(page: &Page) -> Vec<&str> {
    page.lines.iter().map(|line| line.0.as_str()).collect()
}

#[test]
fn words_wrap_at_the_column() {
    let mut sink = BlockSink::<64>::begin_spine(3, false, MARKS);
    let mut out = page();
    set(&mut sink, &mut out, "one two three four", FontStyle::Regular, TextRole::Body,
        TextAlign::Left, true, 100);
    assert_eq!(texts(&out), vec!["one two", "three four"]);
    assert_eq!(out.lines[0].1, false);
    assert_eq!(out.lines[1].1, true);
    assert_eq!(out.lines[0].2, 100);
}

#[test]
fn anchors_count_the_words_and_stay_in_the_block() {
    let mut sink = BlockSink::<64>::begin_spine(0, false, MARKS);
    let mut out = page();
    let text = "aaaa bbbb cccc dddd eeee";
    set(&mut sink, &mut out, text, FontStyle::Regular, TextRole::Body, TextAlign::Left, true, 1000);
    assert_eq!(texts(&out), vec!["aaaa bbbb", "cccc dddd", "eeee"]);
    // A wrapped word is counted once, on the line it went to.
    let offsets: Vec<u32> = out.lines.iter().map(|line| line.2).collect();
    assert_eq!(offsets, vec![1000, 1010, 1020]);
    assert_eq!(sink.state().block_consumed, text.len() as u32);
}

#[test]
fn no_letter_is_lost_whatever_the_widths() {
    let text = "It was the best of times , it was the worst of times";
    for max_x in [1i16, 4, 9, 100] {
        let mut sink = BlockSink::<128>::begin_spine(0, false, MARKS);
        let mut out = page();
        let column = Column { max_x, ..COLUMN };
        let entities: Vec<Option<char>> = text.chars().map(|_| None).collect();
        let mut action = sink.begin_block(text, &entities, FontStyle::Italic, TextRole::Body,
            TextAlign::Left, true, 0);
        while action != SinkAction::Done {
            action = match action {
                SinkAction::Measure { .. } => {
                    let width = sink.line_chars().len() as i16;
                    sink.measured(width, &column, false).unwrap()
                }
                SinkAction::FlushLine { paragraph_end } => {
                    flush(&mut sink, &mut out, paragraph_end);
                    sink.line_flushed().unwrap()
                }
                _ => {
                    flush(&mut sink, &mut out, false);
                    sink.line_flushed().unwrap()
                }
            };
        }
        let set: String = texts(&out).concat().replace("\u{1}i", "");
        assert_eq!(set.replace(' ', ""), text.replace(' ', ""));
    }
}

#[test]
fn punctuation_attaches_across_runs() {
    let mut sink = BlockSink::<64>::begin_spine(0, false, MARKS);
    let mut out = page();
    let mut push = |sink: &mut BlockSink<64>, text: &str, style, end| {
        set(sink, &mut out, text, style, TextRole::Body, TextAlign::Left, end, 0)
    };
    push(&mut sink, "he ", FontStyle::Regular, false);
    push(&mut sink, "ran", FontStyle::Italic, false);
    push(&mut sink, ", far", FontStyle::Regular, true);
    assert_eq!(texts(&out), vec!["he \u{1}iran\u{1}r,", "far"]);
}

#[test]
fn runs_join_without_a_space_unless_one_had_it() {
    let mut sink = BlockSink::<64>::begin_spine(0, false, MARKS);
    let mut out = page();
    set(&mut sink, &mut out, "un", FontStyle::Regular, TextRole::Body, TextAlign::Left, false, 0);
    set(&mut sink, &mut out, "der", FontStyle::Regular, TextRole::Body, TextAlign::Left, false, 0);
    set(&mut sink, &mut out, " way", FontStyle::Regular, TextRole::Body, TextAlign::Left, true, 0);
    assert_eq!(texts(&out), vec!["under way"]);
}

#[test]
fn a_change_of_role_starts_a_line() {
    let mut sink = BlockSink::<64>::begin_spine(0, false, MARKS);
    let mut out = page();
    set(&mut sink, &mut out, "Rain", FontStyle::Bold, TextRole::Heading1, TextAlign::Left, false, 0);
    set(&mut sink, &mut out, "text", FontStyle::Regular, TextRole::Body, TextAlign::Left, true, 0);
    assert_eq!(texts(&out), vec!["\u{1}bRain", "text"]);
}

#[test]
fn a_word_too_wide_alone_stays_on_its_line() {
    let mut sink = BlockSink::<64>::begin_spine(0, false, MARKS);
    let mut out = page();
    set(&mut sink, &mut out, "incomprehensible a", FontStyle::Regular, TextRole::Body,
        TextAlign::Left, true, 0);
    assert_eq!(texts(&out), vec!["incomprehensible", "a"]);
}

#[test]
fn a_full_buffer_starts_a_line() {
    let mut sink = BlockSink::<8>::begin_spine(0, false, MARKS);
    let mut out = page();
    set(&mut sink, &mut out, "abcd", FontStyle::Regular, TextRole::Body, TextAlign::Left, false, 0);
    set(&mut sink, &mut out, " efghi", FontStyle::Regular, TextRole::Body, TextAlign::Left, true, 0);
    assert_eq!(texts(&out), vec!["abcd", "efghi"]);
}

#[test]
fn a_left_out_block_takes_its_paragraph_and_still_ends_it() {
    let mut sink = BlockSink::<64>::begin_spine(0, false, MARKS);
    let mut out = page();
    let mut push = |sink: &mut BlockSink<64>, out: &mut Page, text: &str, end| {
        set(sink, out, text, FontStyle::Regular, TextRole::Body, TextAlign::Left, end, 0)
    };
    push(&mut sink, &mut out, "Produced by", false);
    push(&mut sink, &mut out, "someone kind", false);
    push(&mut sink, &mut out, "or other", true);
    assert!(out.lines.is_empty());
    push(&mut sink, &mut out, "text", false);
    push(&mut sink, &mut out, "", true);
    assert_eq!(texts(&out), vec!["text"]);
    assert!(out.lines[0].1);
    push(&mut sink, &mut out, "", true);
    assert_eq!(out.marked, 1);
}

#[test]
fn the_first_heading_becomes_a_contents_entry() {
    let mut sink = BlockSink::<64>::begin_spine(7, true, MARKS);
    let entities: Vec<Option<char>> = "Two".chars().map(|_| None).collect();
    let action = sink.begin_block("Two", &entities, FontStyle::Bold, TextRole::Heading2,
        TextAlign::Left, true, 0);
    assert_eq!(action, SinkAction::Measure { from: 0 });
    assert_eq!(sink.measured(3, &COLUMN, true), Some(SinkAction::FlushLine { paragraph_end: true }));
    assert_eq!(sink.toc_title().into_iter().collect::<String>(), "Two");
    assert_eq!(sink.begin_flush(true), FlushAction::PushToc { level: 2, spine_index: 7 });
    assert!(!sink.state().generated_toc_for_spine);
    assert!(matches!(sink.toc_pushed(true), Some(FlushAction::PushLine { .. })));
    assert!(sink.state().generated_toc_for_spine);
    // A full arena is flushed once and the line offered again.
    assert_eq!(sink.line_pushed(false, false), Some(FlushAction::FlushSection));
    assert!(matches!(sink.section_flushed(), Some(FlushAction::PushLine { .. })));
    assert_eq!(
        sink.line_pushed(false, false),
        Some(FlushAction::Flushed { appended: false, line_offset: 0 })
    );
    assert_eq!(sink.line_flushed(), Some(SinkAction::Done));
    assert!(sink.line_chars().is_empty());
}

#[test]
fn answers_nobody_asked_for_change_nothing() {
    let mut sink = BlockSink::<64>::begin_spine(0, false, MARKS);
    assert_eq!(sink.measured(1, &COLUMN, false), None);
    assert_eq!(sink.line_flushed(), None);
    assert_eq!(sink.toc_pushed(true), None);
    assert_eq!(sink.line_pushed(true, true), None);
    assert_eq!(sink.section_flushed(), None);
    assert_eq!(sink.begin_flush(false), FlushAction::Nothing);
}

#[test]
fn a_paragraph_opens_where_the_last_one_closed() {
    assert!(opens_paragraph(0, None));
    assert!(opens_paragraph(3, Some(true)));
    assert!(!opens_paragraph(3, Some(false)));
    assert!(opens_paragraph(3, None));
}

const ARENA: ArenaFacts = ArenaFacts {
    block_count: 30,
    block_capacity: 100,
    page_count: 4,
    target_pages: 8,
    last_page_block: 25,
    text_full: false,
    last_paragraph_end: Some(true),
};

#[test]
fn sections_follow_one_another() {
    let mut table = SectionTable::new(2);
    let arena = ARENA;
    let before = table.mark();
    assert_eq!(
        table.begin_section(&arena, 5, false, true),
        SectionAction::Write {
            section: 0,
            spine: 5,
            partial: false,
            end: SectionEnd::Carry { cut: 25, pages: 3 },
        }
    );
    table.section_written(5, false, true, 3, Some(77));
    assert_eq!(
        table.begin_section(&arena, 5, false, false),
        SectionAction::Write { section: 1, spine: 5, partial: false, end: SectionEnd::Whole }
    );
    table.section_written(5, false, true, 4, None);
    let records = vec![
        SectionRecord {
            section: 0, spine: 5, start_page: 0, page_count: 3, partial: false, logical_offset: 77,
        },
        SectionRecord {
            section: 1, spine: 5, start_page: 3, page_count: 4, partial: false, logical_offset: 0,
        },
    ];
    assert_eq!(table.records, records);
    assert_eq!(table.total_pages, 7);
    assert_eq!(table.grown_since(&before), Growth { sections: 2, pages: 7, partial: false });
    assert!(!table.book_partial);
    assert_eq!(table.begin_section(&arena, 6, false, false), SectionAction::Refuse);
    assert!(table.book_partial);
    // A suspended walk goes on with what it had built, and no more.
    let resume = BookBuildResume {
        index: 6,
        source: SourceIdentity { hash: 1, size: 2 },
        next_spine: 6,
        section_count: 1,
        total_pages: 3,
        book_partial: true,
        generate_toc_from_headings: false,
        content_ok: true,
        content_spine_count: 1,
        published_sections: 1,
        layout: 0,
    };
    let resumed = SectionTable::resumed(9, &records, &resume).unwrap();
    assert_eq!(resumed.records, records[..1].to_vec());
    assert_eq!((resumed.total_pages, resumed.book_partial, resumed.capacity), (3, true, 9));
    let longer = BookBuildResume { section_count: 3, ..resume };
    assert!(SectionTable::resumed(9, &records, &longer).is_none());
}

#[test]
fn an_empty_arena_is_only_cleared() {
    let mut table = SectionTable::new(0);
    let none = ArenaFacts { block_count: 0, page_count: 0, last_page_block: 0, ..ARENA };
    assert_eq!(table.begin_section(&none, 0, true, true), SectionAction::Clear);
    assert!(!table.book_partial);
}

#[test]
fn a_partial_or_unwritten_section_marks_the_book() {
    let arena = ArenaFacts { block_count: 1, page_count: 1, last_page_block: 0, ..ARENA };
    let mut table = SectionTable::new(9);
    assert!(matches!(
        table.begin_section(&arena, 0, true, true),
        SectionAction::Write { end: SectionEnd::Whole, partial: true, .. }
    ));
    assert!(table.book_partial);
    let mut table = SectionTable::new(9);
    table.section_written(0, false, false, 1, None);
    assert!(table.book_partial);
}

#[test]
fn an_arena_is_full_by_pages_blocks_or_text() {
    let full = |page_count, block_count, block_capacity, text_full| {
        section_is_full(&ArenaFacts { page_count, block_count, block_capacity, text_full, ..ARENA })
    };
    assert!(full(8, 0, 100, false));
    assert!(full(0, 96, 100, false));
    assert!(!full(7, 95, 100, false));
    assert!(full(0, 0, 100, true));
    assert!(full(0, 0, 3, false));
}

/// An arena of so many blocks, one page each two blocks, and what was written
/// from it.
struct Book {
    blocks: usize,
    sections: Vec<(bool, SectionEnd, usize)>,
    lines: Vec<String>,
}

impl Book {
    fn facts(&self) -> ArenaFacts {
        ArenaFacts {
            block_count: self.blocks,
            block_capacity: 100,
            page_count: (self.blocks + 1) / 2,
            target_pages: 2,
            last_page_block: if self.blocks == 0 { 0 } else { (self.blocks - 1) / 2 * 2 },
            text_full: false,
            last_paragraph_end: Some(false),
        }
    }

    /// Carries the item's actions out until the block or the item is over.
    fn run(&mut self, spine: &mut SpineText<64>, table: &mut SectionTable, first: SpineAction) -> SpineAction {
        let mut action = first;
        loop {
            let reply = match action {
                SpineAction::Done | SpineAction::Refused => return action,
                SpineAction::Pass
                | SpineAction::TakeBack
                | SpineAction::MarkParagraphEnd
                | SpineAction::LineDone { .. } => SpineReply::Done,
                SpineAction::Measure { .. } => SpineReply::Measured(Measurement {
                    width: spine.line_chars().len() as i16,
                    x: 0,
                    indent: 0,
                    safety: 0,
                    max_x: 5,
                }),
                SpineAction::PushToc { .. } => SpineReply::Accepted(true),
                SpineAction::PushLine { .. } => {
                    self.lines.push(spine.line_chars().into_iter().collect());
                    self.blocks += 1;
                    SpineReply::Pushed { accepted: true, appended: true }
                }
                SpineAction::ClearArena => {
                    self.blocks = 0;
                    SpineReply::Done
                }
                SpineAction::WriteSection { partial, end, .. } => {
                    let pages = match end {
                        SectionEnd::Whole => {
                            let pages = (self.blocks + 1) / 2;
                            self.blocks = 0;
                            pages
                        }
                        SectionEnd::Carry { cut, pages } => {
                            self.blocks -= cut;
                            pages
                        }
                    };
                    self.sections.push((partial, end, pages));
                    SpineReply::Written { wrote: true, page_count: pages, opens_at: Some(9) }
                }
            };
            action = spine.advance(table, reply, &self.facts()).unwrap();
        }
    }
}

fn block(text: &str, paragraph_end: bool) -> Block {
    Block {
        text: text.to_string(),
        entities: text.chars().map(|_| None).collect(),
        style: FontStyle::Regular,
        role: TextRole::Body,
        align: TextAlign::Left,
        paragraph_end,
        logical_offset: 0,
    }
}

#[test]
fn a_section_is_cut_at_a_page_and_the_last_one_is_whole() {
    let mut table = SectionTable::new(9);
    let mut book = Book { blocks: 0, sections: vec![], lines: vec![] };
    let mut spine = SpineText::<64>::begin_spine(3, false, MARKS);
    // Five lines: a page and a half more than a section is meant to have.
    let first = spine.push_block(&mut table, block("aaaa bbbb cccc dddd eeee", true), &book.facts());
    assert_eq!(book.run(&mut spine, &mut table, first), SpineAction::Done);
    assert_eq!(book.lines, vec!["aaaa", "bbbb", "cccc", "dddd", "eeee"]);
    // The last page, half finished, goes on in the next section.
    assert_eq!(book.sections, vec![(false, SectionEnd::Carry { cut: 4, pages: 2 }, 2)]);
    assert_eq!(book.blocks, 1);
    let last = spine.finish_spine(&mut table, false, &book.facts());
    assert_eq!(book.run(&mut spine, &mut table, last), SpineAction::Done);
    assert_eq!(book.sections[1], (false, SectionEnd::Whole, 1));
    assert_eq!(table.total_pages, 3);
    assert_eq!(spine.advance(&mut table, SpineReply::Done, &book.facts()), None);
}

#[test]
fn a_block_waits_until_a_full_arena_is_flushed() {
    let mut table = SectionTable::new(9);
    let mut book = Book { blocks: 4, sections: vec![], lines: vec![] };
    let mut spine = SpineText::<64>::begin_spine(3, false, MARKS);
    let first = spine.push_block(&mut table, block("aaaa", false), &book.facts());
    assert_eq!(first, SpineAction::Pass);
    let action = spine.advance(&mut table, SpineReply::Done, &book.facts()).unwrap();
    assert_eq!(
        action,
        SpineAction::WriteSection {
            section: 0, spine: 3, partial: false, end: SectionEnd::Carry { cut: 2, pages: 1 },
        }
    );
    assert_eq!(book.run(&mut spine, &mut table, action), SpineAction::Done);
    assert!(book.lines.is_empty());
    assert_eq!(spine.line_chars().into_iter().collect::<String>(), "aaaa");
}

#[test]
fn an_item_the_index_refused_is_partial_and_takes_no_more() {
    let mut table = SectionTable::new(1);
    let mut book = Book { blocks: 4, sections: vec![], lines: vec![] };
    let mut spine = SpineText::<64>::begin_spine(3, false, MARKS);
    let full = book.facts();
    table.section_written(2, false, true, 2, None);
    let first = spine.push_block(&mut table, block("aaaa", false), &full);
    assert_eq!(book.run(&mut spine, &mut table, first), SpineAction::Done);
    assert!(spine.stopped() && table.book_partial);
    assert_eq!(
        spine.push_block(&mut table, block("bbbb", false), &full),
        SpineAction::Refused
    );
    // With room again the item's last section is written as partial.
    table.capacity = 2;
    let last = spine.finish_spine(&mut table, false, &book.facts());
    assert_eq!(book.run(&mut spine, &mut table, last), SpineAction::Done);
    assert_eq!(book.sections.last().unwrap().0, true);
}

#[test]
fn a_heading_is_set_bold_and_is_not_indented() {
    let mut table = SectionTable::new(9);
    let mut book = Book { blocks: 0, sections: vec![], lines: vec![] };
    let mut spine = SpineText::<64>::begin_spine(3, true, MARKS);
    let heading = Block { role: TextRole::Heading1, ..block("Rain", true) };
    let first = spine.push_block(&mut table, heading, &book.facts());
    assert_eq!(first, SpineAction::Measure { from: 0, role: TextRole::Heading1 });
    assert_eq!(book.run(&mut spine, &mut table, first), SpineAction::Done);
    assert_eq!(book.lines, vec!["\u{1}bRain"]);
}

#[test]
fn entities_belong_to_their_text() {
    assert!(entities_match("a&x;", &vec![None, Some('b'), None, None]));
    assert!(!entities_match("a&x;", &vec![None]));
    assert!(entities_match("a&x", &vec![None, Some('b'), None]));
    // An entity that no `;` closes has to begin with one byte.
    assert!(!entities_match("a\u{e9}", &vec![None, Some('b')]));
    assert!(entities_match("a\u{e9};", &vec![None, Some('b'), None]));
}

#[test]
fn ink_is_the_furthest_of_pen_and_glyph() {
    let settings = TypeSettings { size: 1, spacing: 1, weight: 1, family: 9 };
    let mut cursor = CustomLineInkCursor::new(settings, FontStyle::Regular);
    cursor.reset_pair();
    cursor.push_metric(0, &GlyphMetric { x_offset: -1, width: 9, advance_fp: 112 });
    assert_eq!((cursor.advance_fp, cursor.right), (112, 8));
    cursor.push_metric(7, &GlyphMetric { x_offset: 0, width: 0, advance_fp: 16 });
    assert_eq!((cursor.advance_fp, cursor.right), (128, 8));
    assert_eq!(cursor.width(8), 8);
    assert_eq!(cursor.width(11), 11);
    cursor.push_fallback(16);
    assert_eq!((cursor.advance_fp, cursor.right), (128 + FALLBACK_ADVANCE_FP, 16));
    cursor.take_glyph(FontStyle::Bold, None, 0, 24);
    assert_eq!(cursor.style, FontStyle::Bold);
    assert_eq!(cursor.right, 24);
    assert!(measures_with_card_font(true, false));
    assert!(!measures_with_card_font(true, true));
    assert_eq!(load_custom_font_manifest(true, true), CustomFont::BuiltIn);
    assert_eq!(load_custom_font_manifest(false, true), CustomFont::OnCard);
    assert_eq!(load_custom_font_manifest(false, false), CustomFont::Absent);
}

#[test]
fn replay_stops_where_a_build_would() {
    let mut partial = false;
    assert_eq!(
        begin_group(7, 3, 4, &mut partial),
        (GroupAction::BeginSpine { spine: 7 }, GroupStage::Begun)
    );
    assert!(!partial);
    let group = |replies: &[GroupReply]| {
        let mut at = (GroupAction::BeginSpine { spine: 7 }, GroupStage::Begun);
        let mut actions = vec![];
        for reply in replies {
            at = continue_group(at.1, *reply).unwrap();
            actions.push(at.0);
        }
        actions
    };
    let block = GroupReply::Block(BlockRead::Block);
    let pushed = |accepted, stopped| GroupReply::Pushed { accepted, stopped };
    assert_eq!(
        group(&[GroupReply::Done, block, pushed(true, false), GroupReply::Block(BlockRead::End),
            GroupReply::Done]),
        vec![
            GroupAction::NextBlock,
            GroupAction::PushBlock,
            GroupAction::NextBlock,
            GroupAction::FinishSpine,
            GroupAction::Finish(ReplayFlow::Continue),
        ]
    );
    assert_eq!(
        group(&[GroupReply::Done, block, pushed(false, true), GroupReply::Done])[2..],
        [GroupAction::FinishSpine, GroupAction::Finish(ReplayFlow::Stop)]
    );
    assert_eq!(
        group(&[GroupReply::Done, block, pushed(false, false)])[2],
        GroupAction::Finish(ReplayFlow::Fail)
    );
    assert_eq!(
        group(&[GroupReply::Done, GroupReply::Block(BlockRead::Broken)])[1],
        GroupAction::Finish(ReplayFlow::Fail)
    );
    assert_eq!(
        begin_group(7, 4, 4, &mut partial),
        (GroupAction::Finish(ReplayFlow::Stop), GroupStage::Over)
    );
    assert!(partial);
    assert!(may_replay(10, 10, true));
    assert!(!may_replay(9, 10, true));
    assert!(!may_replay(10, 10, false));
}
