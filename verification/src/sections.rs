//! The sections of a book: which pages each holds, and how one is cut off
//! when the arena is full.
use vstd::prelude::*;
use crate::resume::BookBuildResume;

verus! {

/// One section of a book's index.
#[derive(Clone, Copy, PartialEq, Eq, Structural, Debug)]
pub struct SectionRecord {
    pub section: u16,
    pub spine: u16,
    pub start_page: u32,
    pub page_count: u16,
    pub partial: bool,
    /// Where the section opens in its source.
    pub logical_offset: u32,
}

/// The sections built so far. `capacity` is how many the index can name.
pub struct SectionTable {
    pub records: Vec<SectionRecord>,
    pub capacity: usize,
    pub total_pages: u32,
    pub book_partial: bool,
}

/// What a table held at some point.
#[derive(Clone, Copy, PartialEq, Eq, Structural, Debug)]
pub struct TableMark {
    pub sections: usize,
    pub pages: u32,
}

/// What was added to a table.
#[derive(Clone, Copy, PartialEq, Eq, Structural, Debug)]
pub struct Growth {
    pub sections: usize,
    pub pages: u32,
    /// Some section was cut short, left unwritten or refused.
    pub partial: bool,
}

/// What the arena holds and can hold.
#[derive(Clone, Copy, PartialEq, Eq, Structural, Debug)]
pub struct ArenaFacts {
    pub block_count: usize,
    pub block_capacity: usize,
    pub page_count: usize,
    /// How many pages a section is meant to have.
    pub target_pages: usize,
    /// The first block of the last page.
    pub last_page_block: usize,
    /// The text of the blocks takes all the room there is.
    pub text_full: bool,
    /// Whether the last block ends its paragraph, if there is one.
    pub last_paragraph_end: Option<bool>,
}

/// How the pages of a section end: cut before its unfinished last page, whose
/// blocks from `cut` on carry into the next section, or whole.
#[derive(Clone, Copy, PartialEq, Eq, Structural, Debug)]
pub enum SectionEnd {
    Whole,
    Carry { cut: usize, pages: usize },
}

#[derive(Clone, Copy, PartialEq, Eq, Structural, Debug)]
pub enum SectionAction {
    /// Nothing to write: clear the arena.
    Clear,
    /// The index is full: leave everything as it is.
    Refuse,
    /// Write the section, then report it.
    Write { section: u16, spine: u16, partial: bool, end: SectionEnd },
}

/// Where a section is cut. The half-finished last page of a section that is
/// not its chapter's last carries over whole, unless it is all there is.
pub open spec fn section_end(arena: ArenaFacts, carry_incomplete: bool) -> SectionEnd {
    if carry_incomplete && arena.page_count > 1 && 0 < arena.last_page_block < arena.block_count {
        SectionEnd::Carry { cut: arena.last_page_block, pages: (arena.page_count - 1) as usize }
    } else {
        SectionEnd::Whole
    }
}

pub open spec fn saturated_u16(value: int) -> u16 {
    if value <= u16::MAX { value as u16 } else { u16::MAX }
}

pub open spec fn saturated_u32(value: int) -> u32 {
    if value <= u32::MAX { value as u32 } else { u32::MAX }
}

/// Whether the arena counts as full: its pages, its blocks but for a reserve of
/// four, or its text.
pub open spec fn is_full(arena: ArenaFacts) -> bool {
    arena.page_count >= arena.target_pages || arena.block_count + 4 >= arena.block_capacity
        || arena.text_full
}

/// Whether the arena counts as full.
pub fn section_is_full(arena: &ArenaFacts) -> (full: bool)
    ensures
        full == is_full(*arena),
{
    arena.page_count >= arena.target_pages || arena.block_count
        >= arena.block_capacity.saturating_sub(4) || arena.text_full
}

/// A table as a mathematical value.
pub struct TableModel {
    pub records: Seq<SectionRecord>,
    pub capacity: usize,
    pub total_pages: u32,
    pub book_partial: bool,
}

impl View for SectionTable {
    type V = TableModel;

    open spec fn view(&self) -> TableModel {
        TableModel {
            records: self.records@,
            capacity: self.capacity,
            total_pages: self.total_pages,
            book_partial: self.book_partial,
        }
    }
}

impl TableModel {
    /// The arena is to be flushed as a section: an empty one is only cleared,
    /// and a full index takes no more, which leaves the book partial.
    pub open spec fn section_begun(self, arena: ArenaFacts, spine: u16, partial: bool, carry_incomplete: bool) -> (TableModel, SectionAction) {
        if arena.block_count == 0 || arena.page_count == 0 {
            (self, SectionAction::Clear)
        } else if self.records.len() >= self.capacity {
            (TableModel { book_partial: true, ..self }, SectionAction::Refuse)
        } else {
            (
                TableModel { book_partial: self.book_partial || partial, ..self },
                SectionAction::Write {
                    section: saturated_u16(self.records.len() as int),
                    spine,
                    partial,
                    end: section_end(arena, carry_incomplete),
                },
            )
        }
    }

    /// A section was written, or was not.
    pub open spec fn section_written(self, spine: u16, partial: bool, wrote: bool, page_count: usize, opens_at: Option<u32>) -> TableModel {
        TableModel {
            records: self.records.push(
                SectionRecord {
                    section: saturated_u16(self.records.len() as int),
                    spine,
                    start_page: self.total_pages,
                    page_count: saturated_u16(page_count as int),
                    partial,
                    logical_offset: match opens_at {
                        Some(offset) => offset,
                        None => 0,
                    },
                },
            ),
            total_pages: saturated_u32(self.total_pages + page_count),
            book_partial: self.book_partial || !wrote,
            ..self
        }
    }
}

impl SectionTable {
    /// A table for a book that is built from its start.
    pub fn new(capacity: usize) -> (table: SectionTable)
        ensures
            table.records@ == Seq::<SectionRecord>::empty(),
            table.capacity == capacity,
            table.total_pages == 0,
            !table.book_partial,
    {
        SectionTable {
            records: Vec::new(),
            capacity,
            total_pages: 0,
            book_partial: false,
        }
    }

    /// The table a suspended walk goes on with: the sections it had built, as
    /// the scratch still holds them, and its count of pages. `None` when the
    /// scratch holds fewer sections than the walk has built.
    pub fn resumed(capacity: usize, scratch: &Vec<SectionRecord>, resume: &BookBuildResume) -> (table: Option<SectionTable>)
        ensures
            table is Some <==> resume.section_count <= scratch@.len(),
            table matches Some(table) ==> {
                &&& table.records@ == scratch@.take(resume.section_count as int)
                &&& table.capacity == capacity
                &&& table.total_pages == resume.total_pages
                &&& table.book_partial == resume.book_partial
            },
    {
        let count: usize = resume.section_count as usize;
        if count > scratch.len() {
            return None;
        }
        let mut records: Vec<SectionRecord> = Vec::new();
        let mut i: usize = 0;
        while i < count
            invariant
                i <= count <= scratch.len(),
                records@ == scratch@.take(i as int),
            decreases count - i,
        {
            records.push(scratch[i]);
            i += 1;
            assert(records@ =~= scratch@.take(i as int));
        }
        Some(
            SectionTable {
                records,
                capacity,
                total_pages: resume.total_pages,
                book_partial: resume.book_partial,
            },
        )
    }

    pub fn mark(&self) -> (mark: TableMark)
        ensures
            mark.sections == self.records@.len(),
            mark.pages == self.total_pages,
    {
        TableMark { sections: self.records.len(), pages: self.total_pages }
    }

    /// What was added since `mark`, which the table has not fallen behind.
    pub fn grown_since(&self, mark: &TableMark) -> (growth: Growth)
        requires
            mark.sections <= self.records@.len(),
            mark.pages <= self.total_pages,
        ensures
            growth == growth_of(self.records@.len() as int, self.total_pages, self.book_partial, *mark),
            growth.sections == self.records@.len() - mark.sections,
            growth.pages == self.total_pages - mark.pages,
            growth.partial == self.book_partial,
    {
        Growth {
            sections: self.records.len() - mark.sections,
            pages: self.total_pages - mark.pages,
            partial: self.book_partial,
        }
    }

    /// Begins to flush the arena as a section of spine item `spine`.
    pub fn begin_section(&mut self, arena: &ArenaFacts, spine: u16, partial: bool, carry_incomplete: bool) -> (action: SectionAction)
        ensures
            (final(self)@, action) == old(self)@.section_begun(
                *arena,
                spine,
                partial,
                carry_incomplete,
            ),
    {
        if arena.block_count == 0 || arena.page_count == 0 {
            return SectionAction::Clear;
        }
        if self.records.len() >= self.capacity {
            self.book_partial = true;
            return SectionAction::Refuse;
        }
        if partial {
            self.book_partial = true;
        }
        let end = if carry_incomplete && arena.page_count > 1 && arena.last_page_block > 0
            && arena.last_page_block < arena.block_count {
            SectionEnd::Carry { cut: arena.last_page_block, pages: arena.page_count - 1 }
        } else {
            SectionEnd::Whole
        };
        let count: usize = self.records.len();
        let section: u16 = if count <= u16::MAX as usize { count as u16 } else { u16::MAX };
        SectionAction::Write { section, spine, partial, end }
    }

    /// Records a section once its file was written, or was not. `page_count`
    /// and `opens_at` are those of the section as it was cut.
    pub fn section_written(
        &mut self,
        spine: u16,
        partial: bool,
        wrote: bool,
        page_count: usize,
        opens_at: Option<u32>,
    )
        ensures
            final(self)@ == old(self)@.section_written(spine, partial, wrote, page_count, opens_at),
    {
        if !wrote {
            self.book_partial = true;
        }
        let count: usize = self.records.len();
        let pages: u32 = if page_count <= u32::MAX as usize { page_count as u32 } else { u32::MAX };
        self.records.push(
            SectionRecord {
                section: if count <= u16::MAX as usize { count as u16 } else { u16::MAX },
                spine,
                start_page: self.total_pages,
                page_count: if page_count <= u16::MAX as usize {
                    page_count as u16
                } else {
                    u16::MAX
                },
                partial,
                logical_offset: match opens_at {
                    Some(offset) => offset,
                    None => 0,
                },
            },
        );
        self.total_pages = self.total_pages.saturating_add(pages);
    }
}

/// Whether the sections follow one another without gap or overlap, from page
/// zero up to `total_pages`.
pub open spec fn contiguous(records: Seq<SectionRecord>, total_pages: int) -> bool
    decreases records.len(),
{
    if records.len() == 0 {
        total_pages == 0
    } else {
        let last = records.last();
        last.start_page + last.page_count == total_pages && contiguous(
            records.drop_last(),
            last.start_page as int,
        )
    }
}

/// A recorded section begins where the ones before it end, so the sections
/// always cover the book's pages exactly. The page count is one a record can
/// hold, and the book's pages one the index can.
pub proof fn law_sections_cover_the_pages(
    records: Seq<SectionRecord>,
    total_pages: u32,
    record: SectionRecord,
    page_count: int,
)
    requires
        contiguous(records, total_pages as int),
        record.start_page == total_pages,
        record.page_count == saturated_u16(page_count),
        0 <= page_count <= u16::MAX,
        total_pages + page_count <= u32::MAX,
    ensures
        contiguous(records.push(record), saturated_u32(total_pages + page_count) as int),
{
    assert(records.push(record).drop_last() =~= records);
}

/// In a book covered by its sections every page is in exactly one of them.
pub proof fn law_every_page_has_one_section(records: Seq<SectionRecord>, total_pages: int, page: int)
    requires
        contiguous(records, total_pages),
        0 <= page < total_pages,
    ensures
        exists|i: int|
            0 <= i < records.len() && (#[trigger] records[i]).start_page <= page
                < records[i].start_page + records[i].page_count,
        forall|i: int, j: int|
            0 <= i < j < records.len() ==> (#[trigger] records[i]).start_page
                + records[i].page_count <= (#[trigger] records[j]).start_page,
    decreases records.len(),
{
    lemma_section_bounds(records, total_pages);
    let last = records.last();
    if page >= last.start_page {
        let i = records.len() - 1;
        assert(records[i].start_page <= page < records[i].start_page + records[i].page_count);
    } else {
        let rest = records.drop_last();
        law_every_page_has_one_section(rest, last.start_page as int, page);
        let i = choose|i: int|
            0 <= i < rest.len() && (#[trigger] rest[i]).start_page <= page < rest[i].start_page
                + rest[i].page_count;
        assert(records[i] == rest[i]);
    }
}

proof fn lemma_section_bounds(records: Seq<SectionRecord>, total_pages: int)
    requires
        contiguous(records, total_pages),
    ensures
        forall|i: int|
            0 <= i < records.len() ==> (#[trigger] records[i]).start_page + records[i].page_count
                <= total_pages,
        forall|i: int, j: int|
            0 <= i < j < records.len() ==> (#[trigger] records[i]).start_page
                + records[i].page_count <= (#[trigger] records[j]).start_page,
    decreases records.len(),
{
    if records.len() > 0 {
        let rest = records.drop_last();
        lemma_section_bounds(rest, records.last().start_page as int);
        assert forall|i: int| 0 <= i < records.len() implies (#[trigger] records[i]).start_page
            + records[i].page_count <= total_pages by {
            if i < rest.len() {
                assert(rest[i] == records[i]);
            }
        }
        assert forall|i: int, j: int| 0 <= i < j < records.len() implies (
        #[trigger] records[i]).start_page + records[i].page_count <= (
        #[trigger] records[j]).start_page by {
            assert(rest[i] == records[i]);
            if j < rest.len() {
                assert(rest[j] == records[j]);
            }
        }
    }
}

/// What carries over and what is written make up the section: no page and no
/// block is lost at the cut, and neither part is empty.
pub proof fn law_cut_loses_nothing(arena: ArenaFacts, carry_incomplete: bool)
    requires
        arena.block_count > 0,
        arena.page_count > 0,
    ensures
        section_end(arena, carry_incomplete) matches SectionEnd::Carry { cut, pages } ==> {
            &&& pages + 1 == arena.page_count
            &&& pages > 0
            &&& 0 < cut < arena.block_count
        },
        !carry_incomplete ==> section_end(arena, carry_incomplete) == SectionEnd::Whole,
{
}

/// A flush writes a section exactly when there is something to write and the
/// index can name it: in the spine item it was asked for, under the next
/// number. Nothing that was recorded changes. The book becomes partial when a
/// section is cut short or refused, and at no other flush.
pub proof fn law_flush_writes_what_there_is(
    table: TableModel,
    arena: ArenaFacts,
    spine: u16,
    partial: bool,
    carry_incomplete: bool,
)
    ensures
        ({
            let (after, action) = table.section_begun(arena, spine, partial, carry_incomplete);
            let empty = arena.block_count == 0 || arena.page_count == 0;
            let full = table.records.len() >= table.capacity;
            &&& after.records == table.records && after.capacity == table.capacity
                && after.total_pages == table.total_pages
            &&& action is Clear <==> empty
            &&& action is Refuse <==> !empty && full
            &&& after.book_partial <==> table.book_partial || (!empty && (full || partial))
            &&& action matches SectionAction::Write { section, spine: of, partial: cut_short, .. } ==> {
                &&& of == spine
                &&& cut_short == partial
                &&& table.records.len() <= u16::MAX ==> section == table.records.len()
            }
        }),
{
}

/// A flush carries a page over exactly when the caller asks for it, some
/// other page is there to be written, and the last page has blocks of its
/// own behind those of the pages before it.
pub proof fn law_last_page_is_carried(arena: ArenaFacts, carry_incomplete: bool)
    ensures
        section_end(arena, carry_incomplete) is Carry <==> carry_incomplete && arena.page_count >= 2
            && arena.last_page_block >= 1 && arena.last_page_block + 1 <= arena.block_count,
        section_end(arena, carry_incomplete) matches SectionEnd::Carry { cut, pages } ==> cut
            == arena.last_page_block && pages == arena.page_count - 1,
{
}

/// A recorded section joins those before it, which stay as they are. It says
/// whose it is, where its pages begin and how many they are, whether it was
/// cut short and where it opens; and the book is partial if it did not reach
/// the card.
pub proof fn law_section_is_recorded(
    table: TableModel,
    spine: u16,
    partial: bool,
    wrote: bool,
    page_count: usize,
    opens_at: Option<u32>,
)
    requires
        table.records.len() <= u16::MAX,
        page_count <= u16::MAX,
        table.total_pages + page_count <= u32::MAX,
    ensures
        ({
            let after = table.section_written(spine, partial, wrote, page_count, opens_at);
            let last = after.records.last();
            &&& after.records.len() == table.records.len() + 1
            &&& forall|i: int|
                0 <= i < table.records.len() ==> #[trigger] after.records[i] == table.records[i]
            &&& last.section == table.records.len()
            &&& last.spine == spine
            &&& last.partial == partial
            &&& last.start_page == table.total_pages
            &&& last.page_count == page_count
            &&& last.start_page + last.page_count == after.total_pages
            &&& opens_at is Some ==> last.logical_offset == opens_at->0
            &&& opens_at is None ==> last.logical_offset == 0
            &&& after.capacity == table.capacity
            &&& after.book_partial <==> table.book_partial || !wrote
        }),
{
}

/// An arena takes more exactly while it is short of its pages, has text left,
/// and more than four blocks.
pub proof fn law_arena_takes_more_until_full(arena: ArenaFacts)
    ensures
        !is_full(arena) <==> arena.page_count < arena.target_pages && !arena.text_full
            && arena.block_capacity - arena.block_count > 4,
{
}

pub open spec fn growth_of(sections: int, total_pages: u32, book_partial: bool, mark: TableMark) -> Growth {
    Growth {
        sections: (sections - mark.sections) as usize,
        pages: (total_pages - mark.pages) as u32,
        partial: book_partial,
    }
}

/// What was held at a mark and what came since make up what is held.
pub proof fn law_growth_makes_up_the_table(sections: usize, total_pages: u32, book_partial: bool, mark: TableMark)
    requires
        mark.sections <= sections,
        mark.pages <= total_pages,
    ensures
        ({
            let growth = growth_of(sections as int, total_pages, book_partial, mark);
            &&& mark.sections + growth.sections == sections
            &&& mark.pages + growth.pages == total_pages
            &&& growth.partial == book_partial
        }),
{
}

} // verus!
