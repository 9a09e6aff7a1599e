//! Reading progress on its way to the card.
//!
//! Page turns inside one book are coalesced into a single latest-value slot
//! and written at most once per interval. What may never happen is that one
//! book's unwritten position is dropped to make room for another's.
use vstd::prelude::*;
use crate::messages::AppStateRecord;

verus! {

/// Same-book page turns reach the card at most once per this many seconds.
pub const PROGRESS_WRITE_MIN_SECS: u64 = 15;

/// The position still owed to the card, and when one last landed there.
#[derive(Clone, Copy, PartialEq, Eq, Structural, Debug)]
pub struct Progress {
    pub pending: Option<AppStateRecord>,
    pub written_ms: Option<u64>,
}

/// Whether `pending` and `record` differ in more than the screen number.
pub open spec fn context_differs(pending: AppStateRecord, record: AppStateRecord) -> bool {
    (AppStateRecord { screen: record.screen, ..pending }) != record
}

/// Whether the interval since the last write is over. A clock that has not
/// passed the last write counts as no time at all.
pub open spec fn interval_over(written_ms: Option<u64>, now_ms: u64) -> bool {
    match written_ms {
        Some(written) => now_ms - written >= PROGRESS_WRITE_MIN_SECS * 1000,
        None => true,
    }
}

/// What a new progress record asks for next.
#[derive(Clone, Copy, PartialEq, Eq, Structural, Debug)]
pub struct ProgressPlan {
    /// Another book's position is owed and has to land first.
    pub flush_first: Option<AppStateRecord>,
    /// The record goes to the card now rather than into the slot.
    pub write: bool,
}

pub open spec fn progress_plan(progress: Progress, record: AppStateRecord, now_ms: u64) -> ProgressPlan {
    ProgressPlan {
        flush_first: match progress.pending {
            Some(pending) if pending.book_id != record.book_id => Some(pending),
            _ => None,
        },
        write: (match progress.pending {
            Some(pending) => context_differs(pending, record),
            None => false,
        }) || interval_over(progress.written_ms, now_ms),
    }
}

impl Progress {
    /// Nothing owed and nothing written yet.
    pub fn new() -> (progress: Progress)
        ensures
            progress == (Progress { pending: None, written_ms: None }),
    {
        Progress { pending: None, written_ms: None }
    }

    /// What `record`, arriving at `now_ms`, asks for: whether another book's
    /// position must be flushed before it, and whether it is itself due.
    pub fn plan(&self, record: &AppStateRecord, now_ms: u64) -> (plan: ProgressPlan)
        ensures
            plan == progress_plan(*self, *record, now_ms),
    {
        let mut flush_first: Option<AppStateRecord> = None;
        let mut context_changed: bool = false;
        if let Some(pending) = self.pending {
            let moved = AppStateRecord { screen: record.screen, ..pending };
            context_changed = moved != *record;
            if pending.book_id != record.book_id {
                flush_first = Some(pending);
            }
        }
        let due: bool = match self.written_ms {
            Some(written) => now_ms.saturating_sub(written) >= PROGRESS_WRITE_MIN_SECS * 1000,
            None => true,
        };
        ProgressPlan { flush_first, write: context_changed || due }
    }

    /// Keeps `record` in the slot for a later write.
    pub fn coalesce(&mut self, record: AppStateRecord)
        ensures
            *final(self) == held_back(*old(self), record),
            *final(self) == (Progress { pending: Some(record), ..*old(self) }),
    {
        self.pending = Some(record);
    }

    /// The card's answer to writing the record that was in the slot: only a
    /// write that landed empties it.
    pub fn flushed(&mut self, stored: bool, now_ms: u64)
        ensures
            *final(self) == after_flush(*old(self), stored, now_ms),
            *final(self) == if stored {
                Progress { pending: None, written_ms: Some(now_ms) }
            } else {
                *old(self)
            },
    {
        if stored {
            self.pending = None;
            self.written_ms = Some(now_ms);
        }
    }

    /// Ends a flush of the slot. `stored` is the card's answer to the record
    /// in it, and says nothing where there was none. Returns whether nothing
    /// is owed any more.
    pub fn end_flush(&mut self, stored: bool, now_ms: u64) -> (clear: bool)
        ensures
            (*final(self), clear) == flush_ended(*old(self), stored, now_ms),
    {
        if self.pending.is_none() {
            return true;
        }
        self.flushed(stored, now_ms);
        stored
    }

    /// The card's answer to writing `record`: it is owed if it did not land.
    pub fn written(&mut self, record: AppStateRecord, stored: bool, now_ms: u64)
        ensures
            *final(self) == after_write(*old(self), record, stored, now_ms),
            *final(self) == if stored {
                Progress { pending: None, written_ms: Some(now_ms) }
            } else {
                Progress { pending: Some(record), ..*old(self) }
            },
    {
        if stored {
            self.pending = None;
            self.written_ms = Some(now_ms);
        } else {
            self.pending = Some(record);
        }
    }

    /// The card's answer to writing the departing book's own position file.
    /// Either the slot is clear or it holds exactly that record. The write
    /// interval is not restarted: the global record has not been written.
    pub fn closed_out(&mut self, record: AppStateRecord, stored: bool)
        ensures
            *final(self) == after_closing(*old(self), record, stored),
            *final(self) == (Progress {
                pending: if stored { None } else { Some(record) },
                ..*old(self)
            }),
    {
        self.pending = if stored { None } else { Some(record) };
    }

    /// The record that has to land before `previous` is closed out: one owed
    /// for a different book.
    pub fn owed_to_another(&self, book_id: u32) -> (owed: Option<AppStateRecord>)
        ensures
            owed == other_books_record(self.pending, book_id),
    {
        match self.pending {
            Some(pending) => if pending.book_id != book_id { Some(pending) } else { None },
            None => None,
        }
    }
}

/// The slot after a flush, and whether it is clear: it is where nothing was
/// owed or the record landed.
pub open spec fn flush_ended(progress: Progress, stored: bool, now_ms: u64) -> (Progress, bool) {
    if progress.pending is None {
        (progress, true)
    } else if stored {
        (Progress { pending: None, written_ms: Some(now_ms) }, true)
    } else {
        (progress, false)
    }
}

pub open spec fn other_books_record(pending: Option<AppStateRecord>, book_id: u32) -> Option<AppStateRecord> {
    match pending {
        Some(pending) if pending.book_id != book_id => Some(pending),
        _ => None,
    }
}

/// A page turn inside one book, under unchanged settings and inside the write
/// interval, costs no write.
pub proof fn law_page_turns_coalesce(progress: Progress, record: AppStateRecord, screen: u32, now_ms: u64)
    requires
        progress.pending == Some(record),
        !interval_over(progress.written_ms, now_ms),
    ensures
        progress_plan(progress, AppStateRecord { screen, ..record }, now_ms) == (ProgressPlan {
            flush_first: None,
            write: false,
        }),
{
}

/// A record for one book never takes the slot of another book's owed record
/// without that record being put before it.
pub proof fn law_other_book_lands_first(progress: Progress, record: AppStateRecord, now_ms: u64)
    ensures
        progress.pending is Some && progress.pending->0.book_id != record.book_id
            <==> progress_plan(progress, record, now_ms).flush_first is Some,
        progress_plan(progress, record, now_ms).flush_first is Some ==> progress_plan(
            progress,
            record,
            now_ms,
        ) == (ProgressPlan { flush_first: progress.pending, write: true }),
{
}

/// A record that is not written at once differs from the one it replaces in
/// nothing but the screen, and the last write is less than the interval ago:
/// a change of book, chapter or any setting is never held back, nor is
/// anything held back for longer than that.
pub proof fn law_only_page_turns_wait(progress: Progress, record: AppStateRecord, now_ms: u64)
    ensures
        !progress_plan(progress, record, now_ms).write ==> {
            &&& progress.written_ms is Some
            &&& now_ms < progress.written_ms->0 + 15_000
            &&& progress.pending matches Some(pending) ==> {
                &&& pending.book_id == record.book_id
                &&& pending.chapter == record.chapter
                &&& pending.shell_orientation == record.shell_orientation
                &&& pending.reading_orientation == record.reading_orientation
                &&& pending.refresh_policy == record.refresh_policy
                &&& pending.font_size == record.font_size
                &&& pending.line_spacing == record.line_spacing
                &&& pending.font_weight == record.font_weight
                &&& pending.font_family == record.font_family
                &&& pending.front_buttons == record.front_buttons
                &&& pending.source_hash == record.source_hash
                &&& pending.source_size == record.source_size
                &&& pending.legacy_source_identity == record.legacy_source_identity
            }
        },
{
}

/// Inside the interval a first record and a page turn wait; once it is over,
/// or before anything was ever written, nothing waits.
pub proof fn law_interval_decides_a_page_turn(progress: Progress, record: AppStateRecord, screen: u32, now_ms: u64)
    requires
        progress.pending is None || progress.pending == Some(AppStateRecord { screen, ..record }),
    ensures
        progress_plan(progress, record, now_ms).write <==> progress.written_ms is None || now_ms
            >= progress.written_ms->0 + 15_000,
        progress_plan(progress, record, now_ms).flush_first is None,
{
}

/// A flush ends clear exactly when nothing is owed any more, and what did not
/// land is owed as it was. The interval restarts with a record that landed
/// and with nothing else.
pub proof fn law_flush_keeps_what_did_not_land(progress: Progress, stored: bool, now_ms: u64)
    ensures
        ({
            let (after, clear) = flush_ended(progress, stored, now_ms);
            &&& clear <==> after.pending is None
            &&& after.pending is Some ==> after.pending == progress.pending && !stored
            &&& after.pending is None ==> progress.pending is None || stored
            &&& progress.pending is Some && stored ==> after.written_ms == Some(now_ms)
            &&& !(progress.pending is Some && stored) ==> after.written_ms == progress.written_ms
        }),
{
}

/// What is owed to another book is the record in the slot, when that is of
/// another book.
pub proof fn law_owed_record_is_of_another_book(pending: Option<AppStateRecord>, book_id: u32)
    ensures
        ({
            let owed = other_books_record(pending, book_id);
            &&& owed is Some ==> owed == pending && owed->0.book_id != book_id
            &&& owed is None ==> pending is None || pending->0.book_id == book_id
        }),
{
}

pub open spec fn held_back(progress: Progress, record: AppStateRecord) -> Progress {
    Progress { pending: Some(record), ..progress }
}

pub open spec fn after_flush(progress: Progress, stored: bool, now_ms: u64) -> Progress {
    if stored { Progress { pending: None, written_ms: Some(now_ms) } } else { progress }
}

pub open spec fn after_write(progress: Progress, record: AppStateRecord, stored: bool, now_ms: u64) -> Progress {
    if stored {
        Progress { pending: None, written_ms: Some(now_ms) }
    } else {
        Progress { pending: Some(record), ..progress }
    }
}

pub open spec fn after_closing(progress: Progress, record: AppStateRecord, stored: bool) -> Progress {
    Progress { pending: if stored { None } else { Some(record) }, ..progress }
}

/// A record stays owed until it is on the card: held back or refused it is
/// the one pending, and stored it is pending no more. The interval counts
/// from writes that landed, and from nothing else.
pub proof fn law_record_is_owed_until_stored(progress: Progress, record: AppStateRecord, now_ms: u64)
    ensures
        held_back(progress, record).pending == Some(record),
        after_write(progress, record, false, now_ms).pending == Some(record),
        after_closing(progress, record, false).pending == Some(record),
        after_flush(progress, false, now_ms).pending == progress.pending,
        after_write(progress, record, true, now_ms).pending is None,
        after_closing(progress, record, true).pending is None,
        after_flush(progress, true, now_ms).pending is None,
        after_write(progress, record, true, now_ms).written_ms == Some(now_ms),
        after_flush(progress, true, now_ms).written_ms == Some(now_ms),
        held_back(progress, record).written_ms == progress.written_ms,
        after_write(progress, record, false, now_ms).written_ms == progress.written_ms,
        after_flush(progress, false, now_ms).written_ms == progress.written_ms,
        after_closing(progress, record, true).written_ms == progress.written_ms,
        after_closing(progress, record, false).written_ms == progress.written_ms,
{
}

} // verus!
