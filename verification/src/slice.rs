//! A spare slice of the display task's time: a step of the book build that is
//! running behind the reader, or a piece of the open book's bytes.
use vstd::prelude::*;
use crate::background::{
    announcement, apply_background_step, handle_after_step, Announcement, BackgroundBuild,
    BackgroundStep,
};
use crate::display_loop::{reader_page, RenderRequest};
use crate::messages::{AppView, ChapterPages, LibraryEvent};

verus! {

#[derive(Clone, Copy, PartialEq, Eq, Debug)]
pub enum SliceAction {
    /// The slice is over.
    Finish,
    /// Read on in the open book's bytes. Answer: `Done`.
    ReadEvidence,
    /// Take one step of the build, leaving this page resident. Answer:
    /// `Stepped`.
    BuildStep { reader_page: u32 },
    /// Ask whether a walk that broke is worth a word. Answer: `Announce`.
    AskStopped { pages_before: u32, pages: u32, reader_page: u32 },
    /// Ask whether a walk that runs or finished is. Answer: `Announce`.
    AskRunning { finished: bool, reader_page: u32, pages_before: u32 },
    /// Tell the app. Answer: `Done`.
    Announce(LibraryEvent),
}

#[derive(Clone, Copy, PartialEq, Eq, Structural, Debug)]
pub enum SliceReply {
    Done,
    Stepped(BackgroundStep),
    Announce(bool),
}

#[derive(Clone, Copy, PartialEq, Eq, Structural, Debug)]
pub enum SliceStage {
    Over,
    Stepping { book_id: u32, reader_page: u32, pages_before: u32 },
    Asking { book_id: u32 },
    Ending,
}

/// What the store says of the resident book.
#[derive(Clone, Copy, PartialEq, Eq, Debug)]
pub struct BookFacts {
    pub pages: u32,
    pub chapters: u16,
    pub current_chapter: u16,
    pub chapter_pages: ChapterPages,
}

#[derive(Clone, Copy, PartialEq, Eq, Debug)]
pub struct SliceStep {
    pub action: SliceAction,
    pub stage: SliceStage,
}

pub open spec fn slice(action: SliceAction, stage: SliceStage) -> SliceStep {
    SliceStep { action, stage }
}

pub open spec fn page_of_reader(last: Option<RenderRequest>, book_id: u32) -> u32 {
    match last {
        Some(last) => if last.book_id == book_id && last.view == AppView::Reading {
            last.page
        } else {
            0
        },
        None => 0,
    }
}

/// The book grew and the reader did not move: the event carries no position.
pub open spec fn grown(book_id: u32, facts: BookFacts) -> LibraryEvent {
    LibraryEvent::Loaded {
        book_id,
        pages: facts.pages,
        chapters: facts.chapters,
        current_chapter: facts.current_chapter,
        chapter_pages: facts.chapter_pages,
        position: None,
        text_replaced: true,
    }
}

pub open spec fn slice_next(handle: Option<BackgroundBuild>, stage: SliceStage, reply: SliceReply, facts: BookFacts) -> Option<(Option<BackgroundBuild>, SliceStep)> {
    match (stage, reply) {
        (
            SliceStage::Stepping { book_id, reader_page, pages_before },
            SliceReply::Stepped(step),
        ) => Some(
            (
                match handle {
                    Some(pending) => handle_after_step(pending, step),
                    None => None,
                },
                match step {
                    BackgroundStep::Abandoned | BackgroundStep::Retry => slice(
                        SliceAction::Finish,
                        SliceStage::Over,
                    ),
                    BackgroundStep::Stopped => slice(
                        SliceAction::AskStopped { pages_before, pages: facts.pages, reader_page },
                        SliceStage::Asking { book_id },
                    ),
                    BackgroundStep::Continued => slice(
                        SliceAction::AskRunning { finished: false, reader_page, pages_before },
                        SliceStage::Asking { book_id },
                    ),
                    BackgroundStep::Finished => slice(
                        SliceAction::AskRunning { finished: true, reader_page, pages_before },
                        SliceStage::Asking { book_id },
                    ),
                },
            ),
        ),
        (SliceStage::Asking { book_id }, SliceReply::Announce(announce)) => Some(
            (
                handle,
                if announce {
                    slice(SliceAction::Announce(grown(book_id, facts)), SliceStage::Ending)
                } else {
                    slice(SliceAction::Finish, SliceStage::Over)
                },
            ),
        ),
        (SliceStage::Ending, SliceReply::Done) => Some(
            (handle, slice(SliceAction::Finish, SliceStage::Over)),
        ),
        _ => None,
    }
}

/// Begins a slice: a build that is pending comes first, and only without one
/// does the slice go to the open book's bytes.
pub fn begin_slice(handle: &Option<BackgroundBuild>, last_request: &Option<RenderRequest>, facts: &BookFacts) -> (begun: SliceStep)
    ensures
        begun == match *handle {
            Some(pending) => slice(
                SliceAction::BuildStep {
                    reader_page: page_of_reader(*last_request, pending.book_id),
                },
                SliceStage::Stepping {
                    book_id: pending.book_id,
                    reader_page: page_of_reader(*last_request, pending.book_id),
                    pages_before: facts.pages,
                },
            ),
            None => slice(SliceAction::ReadEvidence, SliceStage::Ending),
        },
{
    match handle {
        Some(pending) => {
            let page: u32 = reader_page(last_request, pending.book_id);
            SliceStep {
                action: SliceAction::BuildStep { reader_page: page },
                stage: SliceStage::Stepping {
                    book_id: pending.book_id,
                    reader_page: page,
                    pages_before: facts.pages,
                },
            }
        },
        None => SliceStep { action: SliceAction::ReadEvidence, stage: SliceStage::Ending },
    }
}

/// Carries a slice on after an answer, and the build's handle with it. `None`,
/// with nothing changed, when the stage is not waiting for that answer.
pub fn continue_slice(handle: &mut Option<BackgroundBuild>, stage: SliceStage, reply: SliceReply, facts: &BookFacts) -> (next: Option<SliceStep>)
    ensures
        match slice_next(*old(handle), stage, reply, *facts) {
            Some(then) => next == Some(then.1) && *final(handle) == then.0,
            None => next is None && *final(handle) == *old(handle),
        },
{
    match (stage, reply) {
        (
            SliceStage::Stepping { book_id, reader_page, pages_before },
            SliceReply::Stepped(step),
        ) => {
            if let Some(pending) = *handle {
                *handle = apply_background_step(pending, step);
            }
            match announcement(step) {
                Announcement::Silent => Some(
                    SliceStep { action: SliceAction::Finish, stage: SliceStage::Over },
                ),
                Announcement::AskStopped => Some(
                    SliceStep {
                        action: SliceAction::AskStopped {
                            pages_before,
                            pages: facts.pages,
                            reader_page,
                        },
                        stage: SliceStage::Asking { book_id },
                    },
                ),
                Announcement::AskRunning { finished } => Some(
                    SliceStep {
                        action: SliceAction::AskRunning { finished, reader_page, pages_before },
                        stage: SliceStage::Asking { book_id },
                    },
                ),
            }
        },
        (SliceStage::Asking { book_id }, SliceReply::Announce(announce)) => {
            if announce {
                Some(
                    SliceStep {
                        action: SliceAction::Announce(
                            LibraryEvent::Loaded {
                                book_id,
                                pages: facts.pages,
                                chapters: facts.chapters,
                                current_chapter: facts.current_chapter,
                                chapter_pages: facts.chapter_pages,
                                position: None,
                                text_replaced: true,
                            },
                        ),
                        stage: SliceStage::Ending,
                    },
                )
            } else {
                Some(SliceStep { action: SliceAction::Finish, stage: SliceStage::Over })
            }
        },
        (SliceStage::Ending, SliceReply::Done) => Some(
            SliceStep { action: SliceAction::Finish, stage: SliceStage::Over },
        ),
        _ => None,
    }
}

/// A slice never announces a store that may be mid-move or a step that never
/// began, and what it announces never moves the reader.
pub proof fn law_slice_never_moves_the_reader(handle: Option<BackgroundBuild>, stage: SliceStage, reply: SliceReply, facts: BookFacts)
    ensures
        slice_next(handle, stage, reply, facts) matches Some(next) ==> {
            &&& reply == SliceReply::Stepped(BackgroundStep::Abandoned) || reply
                == SliceReply::Stepped(BackgroundStep::Retry) ==> next.1.action is Finish
            &&& next.1.action matches SliceAction::Announce(event) ==> event == grown(
                stage->Asking_book_id,
                facts,
            )
        },
{
}

/// A slice asks about the walk it stepped, from the pages there were before
/// the step and the reader's own page, and asks only of one that ran. What it
/// tells the app is the resident book as it now is, under new text and
/// without a place to go to.
pub proof fn law_slice_tells_of_the_resident_book(handle: Option<BackgroundBuild>, stage: SliceStage, reply: SliceReply, facts: BookFacts)
    ensures
        slice_next(handle, stage, reply, facts) matches Some(next) ==> {
            &&& next.1.action matches SliceAction::Announce(event) ==> {
                &&& reply == SliceReply::Announce(true)
                &&& event matches LibraryEvent::Loaded {
                    book_id,
                    pages,
                    chapters,
                    current_chapter,
                    chapter_pages,
                    position,
                    text_replaced,
                } && book_id == stage->Asking_book_id && pages == facts.pages && chapters
                    == facts.chapters && current_chapter == facts.current_chapter && chapter_pages
                    == facts.chapter_pages && position is None && text_replaced
            }
            &&& stage matches SliceStage::Stepping { book_id, reader_page, pages_before } ==> {
                &&& reply == SliceReply::Stepped(BackgroundStep::Stopped) <==> next.1.action
                    == SliceAction::AskStopped { pages_before, pages: facts.pages, reader_page }
                &&& reply == SliceReply::Stepped(BackgroundStep::Continued) <==> next.1.action
                    == SliceAction::AskRunning { finished: false, reader_page, pages_before }
                &&& reply == SliceReply::Stepped(BackgroundStep::Finished) <==> next.1.action
                    == SliceAction::AskRunning { finished: true, reader_page, pages_before }
                &&& next.1.stage is Asking ==> next.1.stage == SliceStage::Asking { book_id }
            }
            &&& !(stage is Stepping) ==> next.0 == handle
            &&& next.1.action is Finish <==> next.1.stage is Over
        },
        stage is Asking ==> slice_next(handle, stage, SliceReply::Announce(true), facts) is Some,
{
}

/// The reader's page is the one last asked for, if that was a page of this
/// book, and otherwise the first.
pub proof fn law_reader_is_where_the_last_frame_was(last: Option<RenderRequest>, book_id: u32)
    ensures
        last is Some && last->0.book_id == book_id && last->0.view == AppView::Reading
            ==> page_of_reader(last, book_id) == last->0.page,
        last is None || last->0.book_id != book_id || last->0.view != AppView::Reading
            ==> page_of_reader(last, book_id) == 0,
{
}

} // verus!
