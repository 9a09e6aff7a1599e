//! A suspended book build and the steps that carry it on.
//!
//! A resume describes section records that live beside it, so it exists only
//! while those records stand: every route that rewrites them drops it first.
use vstd::prelude::*;
use crate::background::BackgroundStep;
use crate::cache_error::ReaderCacheError;
use crate::messages::SourceIdentity;

verus! {

/// Everything a suspended walk needs to go on, but for the section records.
#[derive(Clone, Copy, PartialEq, Eq, Structural, Debug)]
pub struct BookBuildResume {
    /// The catalog row the walk is building.
    pub index: u16,
    pub source: SourceIdentity,
    /// The first spine item the next step must build.
    pub next_spine: u16,
    pub section_count: u16,
    pub total_pages: u32,
    pub book_partial: bool,
    pub generate_toc_from_headings: bool,
    /// Whether the text is still being captured, and how many spine groups
    /// the capture holds.
    pub content_ok: bool,
    pub content_spine_count: u16,
    /// Sections already written into the index on the card.
    pub published_sections: u16,
    /// The layout the walk is paginating for.
    pub layout: u8,
}

impl BookBuildResume {
    pub open spec fn is_of(self, index: int, source: SourceIdentity, layout: u8) -> bool {
        self.index == index && self.source == source && self.layout == layout
    }

    /// Whether this walk is building the book that is now at row `index`, in
    /// this layout. The row alone is not the book: a rescan reorders rows.
    pub fn belongs_to(&self, index: usize, source: SourceIdentity, layout: u8) -> (belongs: bool)
        ensures
            belongs == self.is_of(index as int, source, layout),
    {
        self.index as usize == index && self.source == source && self.layout == layout
    }
}

/// Whether a resume is there and of this book.
pub open spec fn is_live(resume: Option<BookBuildResume>, index: int, source: SourceIdentity, layout: u8) -> bool {
    match resume {
        Some(state) => state.is_of(index, source, layout),
        None => false,
    }
}

/// Whether a resume is there and of this book.
pub fn walk_is_live(resume: &Option<BookBuildResume>, index: usize, source: SourceIdentity, layout: u8) -> (live: bool)
    ensures
        live == is_live(*resume, index as int, source, layout),
{
    match resume {
        Some(state) => state.belongs_to(index, source, layout),
        None => false,
    }
}

/// Drops a suspended walk, for a caller that takes its files away.
pub fn clear_build_resume(resume: &mut Option<BookBuildResume>)
    ensures
        *final(resume) is None,
{
    *resume = None;
}

/// What one attempt at a step did.
#[derive(Clone, Copy, PartialEq, Eq, Structural, Debug)]
pub enum StepAttempt {
    /// The session, the directory or the file would not open.
    NeverBegan,
    /// The walk ran: to a further resume, to the end of the book, or into an
    /// error.
    Suspended(BookBuildResume),
    Finished,
    Failed(ReaderCacheError),
}

/// Takes the suspended walk for one step. It is out of the slot until the
/// step ends, and out for good when its row no longer holds its book: the row
/// is gone, another book or layout is there, or its place is unknown.
pub fn begin_step(resume: &mut Option<BookBuildResume>, entry: Option<SourceIdentity>, layout: u8, located: bool) -> (taken: Option<
    BookBuildResume,
>)
    ensures
        *final(resume) is None,
        taken == walk_taken(*old(resume), entry, layout, located),
{
    let state = match *resume {
        Some(state) => state,
        None => return None,
    };
    *resume = None;
    let source = match entry {
        Some(source) => source,
        None => return None,
    };
    if !state.belongs_to(state.index as usize, source, layout) || !located {
        return None;
    }
    Some(state)
}

/// What a step leaves in the slot. One that took no walk leaves none.
pub open spec fn resume_after(taken: Option<BookBuildResume>, attempt: StepAttempt) -> Option<BookBuildResume> {
    match (taken, attempt) {
        (None, _) => None,
        (Some(taken), StepAttempt::NeverBegan) => Some(taken),
        (Some(_), StepAttempt::Suspended(next)) => Some(next),
        _ => None,
    }
}

/// How a step ended. One that took no walk has nothing to tell, whatever is
/// resident. One that broke is told apart by the store: whether the reader's
/// page is still resident.
pub open spec fn step_after(taken: Option<BookBuildResume>, attempt: StepAttempt, page_is_resident: bool) -> BackgroundStep {
    match (taken, attempt) {
        (None, _) => BackgroundStep::Abandoned,
        (Some(_), StepAttempt::NeverBegan) => BackgroundStep::Retry,
        (Some(_), StepAttempt::Suspended(_)) => BackgroundStep::Continued,
        (Some(_), StepAttempt::Finished) => BackgroundStep::Finished,
        (Some(_), StepAttempt::Failed(_)) => if page_is_resident {
            BackgroundStep::Stopped
        } else {
            BackgroundStep::Abandoned
        },
    }
}

/// Which of the two endings a broken step earned.
pub fn step_ending(page_is_resident: bool) -> (step: BackgroundStep)
    ensures
        step == walk_ended(page_is_resident),
        step == if page_is_resident { BackgroundStep::Stopped } else { BackgroundStep::Abandoned },
{
    if page_is_resident {
        BackgroundStep::Stopped
    } else {
        BackgroundStep::Abandoned
    }
}

/// Ends a step. One that took no walk is abandoned, and nothing was
/// attempted. A step that never began puts the walk back as it was; one that
/// ran leaves what the build itself set; one that failed leaves nothing.
pub fn end_step(resume: &mut Option<BookBuildResume>, taken: Option<BookBuildResume>, attempt: StepAttempt, page_is_resident: bool) -> (step: BackgroundStep)
    ensures
        *final(resume) == resume_after(taken, attempt),
        step == step_after(taken, attempt, page_is_resident),
{
    let taken = match taken {
        Some(taken) => taken,
        None => {
            *resume = None;
            return BackgroundStep::Abandoned;
        },
    };
    match attempt {
        StepAttempt::NeverBegan => {
            *resume = Some(taken);
            BackgroundStep::Retry
        },
        StepAttempt::Suspended(next) => {
            *resume = Some(next);
            BackgroundStep::Continued
        },
        StepAttempt::Finished => {
            *resume = None;
            BackgroundStep::Finished
        },
        StepAttempt::Failed(_) => {
            *resume = None;
            step_ending(page_is_resident)
        },
    }
}

/// What [`begin_step`] takes out of the slot.
pub open spec fn walk_taken(resume: Option<BookBuildResume>, entry: Option<SourceIdentity>, layout: u8, located: bool) -> Option<BookBuildResume> {
    match (resume, entry) {
        (Some(state), Some(source)) => if state.source == source && state.layout == layout && located {
            Some(state)
        } else {
            None
        },
        _ => None,
    }
}

/// The slot says what the caller was told: a walk is left exactly when there
/// is more to do, a step that never began leaves the very walk it took, a
/// step is announced as stopped only with the reader's page resident, and one
/// without a walk to take (none was suspended, or its row is gone, changed or
/// unlocated) is abandoned.
pub proof fn law_slot_agrees_with_the_step(
    resume: Option<BookBuildResume>,
    entry: Option<SourceIdentity>,
    layout: u8,
    located: bool,
    attempt: StepAttempt,
    page_is_resident: bool,
)
    ensures
        ({
            let taken = walk_taken(resume, entry, layout, located);
            let step = step_after(taken, attempt, page_is_resident);
            let left = resume_after(taken, attempt);
            &&& left is Some <==> step is Continued || step is Retry
            &&& step is Retry ==> left == resume
            &&& resume is None || entry is None || !located ==> step is Abandoned && left is None
            &&& step is Stopped ==> page_is_resident
        }),
{
}

/// A walk is taken up only for the very book and layout it was building, and
/// is told as what became of it: going on with what the build left, over when
/// the book is whole, stopped or abandoned when it broke, by whether the
/// reader's page is there.
pub proof fn law_walk_is_taken_up_for_its_book(
    resume: Option<BookBuildResume>,
    entry: Option<SourceIdentity>,
    layout: u8,
    located: bool,
    attempt: StepAttempt,
    page_is_resident: bool,
)
    ensures
        ({
            let taken = walk_taken(resume, entry, layout, located);
            let step = step_after(taken, attempt, page_is_resident);
            let left = resume_after(taken, attempt);
            &&& taken is Some <==> resume is Some && located && entry == Some(resume->0.source)
                && resume->0.layout == layout
            &&& taken is Some ==> taken == resume
            &&& taken is Some ==> {
                &&& attempt is NeverBegan <==> step is Retry
                &&& attempt is Suspended <==> step is Continued
                &&& attempt is Finished <==> step is Finished
                &&& attempt is Failed <==> step is Stopped || step is Abandoned
                &&& step is Abandoned ==> !page_is_resident
            }
            &&& taken is Some ==> (attempt matches StepAttempt::Suspended(next) ==> left == Some(next))
        }),
{
}

/// A walk is this book's exactly when its row, its bytes and its layout are.
pub proof fn law_live_walk_is_of_this_book(resume: Option<BookBuildResume>, index: int, source: SourceIdentity, layout: u8)
    ensures
        is_live(resume, index, source, layout) <==> resume is Some && resume->0.index == index
            && resume->0.source.hash == source.hash && resume->0.source.size == source.size
            && resume->0.layout == layout,
{
}

pub open spec fn walk_ended(page_is_resident: bool) -> BackgroundStep {
    if page_is_resident { BackgroundStep::Stopped } else { BackgroundStep::Abandoned }
}

/// A walk that ends early is told only over a page that is still there to be
/// read.
pub proof fn law_early_end_is_told_over_a_page(page_is_resident: bool)
    ensures
        walk_ended(page_is_resident) is Stopped <==> page_is_resident,
        walk_ended(page_is_resident) is Abandoned <==> !page_is_resident,
{
}

} // verus!
