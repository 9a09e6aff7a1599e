//! The display loop's handle on a book build that is still running.
use vstd::prelude::*;

verus! {

/// What a build request did to the walk that may be running behind the reader.
#[derive(Clone, Copy, PartialEq, Eq, Structural, Debug)]
pub enum BookBuildOutcome {
    /// The book is whole, or could not be opened. No walk is left.
    Settled,
    /// The book was published early and a walk was started for its tail.
    Started,
    /// The request was answered from the cache and the walk stands untouched.
    Carried,
}

/// What one slice of a walk came to.
#[derive(Clone, Copy, PartialEq, Eq, Structural, Debug)]
pub enum BackgroundStep {
    /// The walk advanced and is not over.
    Continued,
    /// The book is complete.
    Finished,
    /// The walk broke after growing the book; the store is whole.
    Stopped,
    /// The walk broke and the store may be mid-move.
    Abandoned,
    /// The step never began; the walk is re-armed as it was.
    Retry,
}

/// A book whose spine walk is still running after a progressive open
/// published it early.
#[derive(Clone, Copy, PartialEq, Eq, Structural, Debug)]
pub struct BackgroundBuild {
    pub book_id: u32,
    pub started_ms: u64,
    /// Consecutive steps that never began.
    pub attempts: u8,
}

/// The handle after a build request for `book_id` came to `outcome`.
pub open spec fn handle_after_outcome(
    handle: Option<BackgroundBuild>,
    outcome: BookBuildOutcome,
    book_id: u32,
    now_ms: u64,
) -> Option<BackgroundBuild> {
    let fresh = BackgroundBuild { book_id, started_ms: now_ms, attempts: 0 };
    match outcome {
        BookBuildOutcome::Settled => None,
        BookBuildOutcome::Started => Some(fresh),
        BookBuildOutcome::Carried => match handle {
            Some(pending) if pending.book_id == book_id => Some(
                BackgroundBuild { attempts: 0, ..pending },
            ),
            _ => Some(fresh),
        },
    }
}

/// Carries the handle across one open or extend.
///
/// A carried walk keeps its start and gets its retry budget back: the open
/// just proved that the card answers. A missing handle, or one that names
/// another book, is replaced, because a carried walk belongs to this book.
pub fn apply_build_outcome(
    background_build: &mut Option<BackgroundBuild>,
    outcome: BookBuildOutcome,
    book_id: u32,
    now_ms: u64,
)
    ensures
        *final(background_build) == handle_after_outcome(*old(background_build), outcome, book_id, now_ms),
{
    let fresh = BackgroundBuild { book_id, started_ms: now_ms, attempts: 0 };
    *background_build = match outcome {
        BookBuildOutcome::Settled => None,
        BookBuildOutcome::Started => Some(fresh),
        BookBuildOutcome::Carried => match *background_build {
            Some(pending) => if pending.book_id == book_id {
                Some(BackgroundBuild { attempts: 0, ..pending })
            } else {
                Some(fresh)
            },
            None => Some(fresh),
        },
    };
}

/// The handle after one slice. A slice that ran clears the retry budget, one
/// that never began keeps the walk and counts, anything else ends it.
pub open spec fn handle_after_step(pending: BackgroundBuild, step: BackgroundStep) -> Option<
    BackgroundBuild,
> {
    match step {
        BackgroundStep::Continued => Some(BackgroundBuild { attempts: 0, ..pending }),
        BackgroundStep::Retry => Some(
            BackgroundBuild {
                attempts: if pending.attempts < u8::MAX {
                    (pending.attempts + 1) as u8
                } else {
                    u8::MAX
                },
                ..pending
            },
        ),
        _ => None,
    }
}

pub fn apply_background_step(pending: BackgroundBuild, step: BackgroundStep) -> (handle: Option<
    BackgroundBuild,
>)
    ensures
        handle == handle_after_step(pending, step),
{
    match step {
        BackgroundStep::Continued => Some(BackgroundBuild { attempts: 0, ..pending }),
        BackgroundStep::Retry => Some(
            BackgroundBuild { attempts: pending.attempts.saturating_add(1), ..pending },
        ),
        BackgroundStep::Finished | BackgroundStep::Stopped | BackgroundStep::Abandoned => None,
    }
}

/// What a slice tells the app, before the repaint rules have their say.
#[derive(Clone, Copy, PartialEq, Eq, Structural, Debug)]
pub enum Announcement {
    /// Nothing: the store may be mid-move, or not one page was built.
    Silent,
    /// The stopped-walk rule decides.
    AskStopped,
    /// The running-walk rule decides.
    AskRunning { finished: bool },
}

/// Which rule decides whether the app hears of a slice. An abandoned slice
/// and one that never began are never announced.
pub fn announcement(step: BackgroundStep) -> (announcement: Announcement)
    ensures
        announcement == announced(step),
        announcement == match step {
            BackgroundStep::Abandoned | BackgroundStep::Retry => Announcement::Silent,
            BackgroundStep::Stopped => Announcement::AskStopped,
            BackgroundStep::Continued => Announcement::AskRunning { finished: false },
            BackgroundStep::Finished => Announcement::AskRunning { finished: true },
        },
{
    match step {
        BackgroundStep::Abandoned | BackgroundStep::Retry => Announcement::Silent,
        BackgroundStep::Stopped => Announcement::AskStopped,
        BackgroundStep::Continued => Announcement::AskRunning { finished: false },
        BackgroundStep::Finished => Announcement::AskRunning { finished: true },
    }
}

/// After a carried open the handle names this book and owes no backoff,
/// whatever it was before.
pub proof fn law_carried_handle_is_this_book(
    handle: Option<BackgroundBuild>,
    book_id: u32,
    now_ms: u64,
)
    ensures
        ({
            let after = handle_after_outcome(handle, BookBuildOutcome::Carried, book_id, now_ms);
            after is Some && after->0.book_id == book_id && after->0.attempts == 0
        }),
{
}

/// A step changes neither the book a walk belongs to nor when it began, and
/// however many steps fail to begin, the walk is still there.
pub proof fn law_retries_keep_the_walk(pending: BackgroundBuild, step: BackgroundStep)
    ensures
        step is Retry ==> handle_after_step(pending, step) is Some,
        handle_after_step(pending, step) is Some ==> {
            let after = handle_after_step(pending, step)->0;
            after.book_id == pending.book_id && after.started_ms == pending.started_ms
        },
{
}

/// After a request the handle is there exactly while a walk is, names the
/// book that was asked for, and owes no backoff. A walk that was already
/// running for this book keeps its start; any other starts now.
pub proof fn law_handle_follows_the_request(
    handle: Option<BackgroundBuild>,
    outcome: BookBuildOutcome,
    book_id: u32,
    now_ms: u64,
)
    ensures
        ({
            let after = handle_after_outcome(handle, outcome, book_id, now_ms);
            let runs_on = outcome is Carried && handle is Some && handle->0.book_id == book_id;
            &&& after is None <==> outcome is Settled
            &&& after is Some ==> after->0.book_id == book_id && after->0.attempts == 0
            &&& after is Some && runs_on ==> after->0.started_ms == handle->0.started_ms
            &&& after is Some && !runs_on ==> after->0.started_ms == now_ms
        }),
{
}

/// A slice keeps the walk exactly while there is more of it to do. The retry
/// count tells the steps in a row that never began: one that ran ends the
/// row, one that never began makes it longer, up to the largest count.
pub proof fn law_retries_are_counted(pending: BackgroundBuild, step: BackgroundStep)
    ensures
        handle_after_step(pending, step) is Some <==> step is Continued || step is Retry,
        step is Continued ==> handle_after_step(pending, step)->0.attempts == 0,
        step is Retry ==> {
            let attempts = handle_after_step(pending, step)->0.attempts;
            attempts == pending.attempts + 1 || attempts == pending.attempts == u8::MAX
        },
{
}

/// What the app is told of a slice.
pub open spec fn announced(step: BackgroundStep) -> Announcement {
    match step {
        BackgroundStep::Abandoned | BackgroundStep::Retry => Announcement::Silent,
        BackgroundStep::Stopped => Announcement::AskStopped,
        BackgroundStep::Continued => Announcement::AskRunning { finished: false },
        BackgroundStep::Finished => Announcement::AskRunning { finished: true },
    }
}

/// A slice is kept quiet exactly if nothing was built or the store may be
/// mid-move. Of any other the rule of its kind decides: whether it finished is
/// told as it is, and a walk that runs on keeps its handle.
pub proof fn law_slice_is_announced_by_its_kind(pending: BackgroundBuild, step: BackgroundStep)
    ensures
        announced(step) is Silent <==> step is Retry || step is Abandoned,
        announced(step) is AskStopped <==> step is Stopped,
        announced(step) == (Announcement::AskRunning { finished: true }) <==> step is Finished,
        announced(step) == (Announcement::AskRunning { finished: false }) ==> handle_after_step(
            pending,
            step,
        ) is Some,
{
}

} // verus!
