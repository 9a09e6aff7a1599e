//! The sleep screen of a boot that never showed a frame, drawn from what the
//! card remembers.
use vstd::prelude::*;
use crate::messages::{AppStateRecord, BookPosition};
use crate::storage::book_position;

verus! {

/// What the sleep screen shows of the saved book. The settings are the
/// record's own codes; one that names nothing stands for the default.
#[derive(Clone, Copy, PartialEq, Eq, Structural, Debug)]
pub struct SleepFrame {
    pub book_id: u32,
    pub chapter: u16,
    pub page: u32,
    pub page_count: u32,
    pub reading_orientation: u8,
    pub front_buttons: u8,
    pub refresh_policy: u8,
    pub font_size: u8,
    pub line_spacing: u8,
    pub font_weight: u8,
    pub font_family: u8,
    pub library_count: u16,
}

#[derive(Clone, Copy, PartialEq, Eq, Structural, Debug)]
pub enum SleepFrameAction {
    /// Nothing is known: draw the blank sleep screen.
    Blank,
    Draw(SleepFrame),
    /// Answer: `Record`.
    LoadAppState,
    /// Answer: `Row`.
    FindByIdentity { source_hash: u32, source_size: u32, legacy: bool },
    /// Answer: `Done`.
    LoadActiveEntry { index: u16 },
    /// Answer: `Place`.
    LoadPlace { index: u16 },
    /// Answer: `Done`.
    LoadChapterTitle { index: u16, chapter: u16 },
    /// Answer: `PageCount`.
    ReadPageCount { index: u16 },
}

#[derive(Clone, Copy, PartialEq, Eq, Structural, Debug)]
pub enum SleepFrameReply {
    Done,
    Record(Option<AppStateRecord>),
    Row(Option<u16>),
    Place(Option<BookPosition>),
    PageCount { page_count: u32, book_id: u32, library_count: u16 },
}

#[derive(Clone, Copy, PartialEq, Eq, Structural, Debug)]
pub enum SleepFrameStage {
    Over,
    Record,
    Row { record: AppStateRecord, unflushed: bool },
    Entry { record: AppStateRecord, unflushed: bool, index: u16 },
    Place { record: AppStateRecord, index: u16 },
    Title { record: AppStateRecord, index: u16, position: BookPosition },
    Count { record: AppStateRecord, position: BookPosition },
}

pub open spec fn find_book(record: AppStateRecord, unflushed: bool) -> (SleepFrameAction, SleepFrameStage) {
    (
        SleepFrameAction::FindByIdentity {
            source_hash: record.source_hash,
            source_size: record.source_size,
            legacy: record.legacy_source_identity,
        },
        SleepFrameStage::Row { record, unflushed },
    )
}

pub open spec fn name_chapter(record: AppStateRecord, index: u16, position: BookPosition) -> (SleepFrameAction, SleepFrameStage) {
    (
        SleepFrameAction::LoadChapterTitle { index, chapter: position.chapter },
        SleepFrameStage::Title { record, index, position },
    )
}

pub open spec fn frame_of(record: AppStateRecord, position: BookPosition, page_count: u32, book_id: u32, library_count: u16) -> SleepFrame {
    SleepFrame {
        book_id,
        chapter: position.chapter,
        page: position.page,
        page_count,
        reading_orientation: record.reading_orientation,
        front_buttons: record.front_buttons,
        refresh_policy: record.refresh_policy,
        font_size: record.font_size,
        line_spacing: record.line_spacing,
        font_weight: record.font_weight,
        font_family: record.font_family,
        library_count,
    }
}

/// What an answer does. A record the card has not seen yet outranks both
/// stored copies, so only one read back defers to the book's own place.
pub open spec fn sleep_frame_next(stage: SleepFrameStage, reply: SleepFrameReply) -> Option<(SleepFrameAction, SleepFrameStage)> {
    let blank = (SleepFrameAction::Blank, SleepFrameStage::Over);
    match (stage, reply) {
        (SleepFrameStage::Record, SleepFrameReply::Record(found)) => Some(
            match found {
                Some(record) => find_book(record, false),
                None => blank,
            },
        ),
        (SleepFrameStage::Row { record, unflushed }, SleepFrameReply::Row(found)) => Some(
            match found {
                Some(index) => (
                    SleepFrameAction::LoadActiveEntry { index },
                    SleepFrameStage::Entry { record, unflushed, index },
                ),
                None => blank,
            },
        ),
        (SleepFrameStage::Entry { record, unflushed, index }, SleepFrameReply::Done) => Some(
            if unflushed {
                name_chapter(
                    record,
                    index,
                    BookPosition { chapter: record.chapter, page: record.screen },
                )
            } else {
                (SleepFrameAction::LoadPlace { index }, SleepFrameStage::Place { record, index })
            },
        ),
        (SleepFrameStage::Place { record, index }, SleepFrameReply::Place(place)) => Some(
            name_chapter(
                record,
                index,
                match place {
                    Some(position) => position,
                    None => BookPosition { chapter: record.chapter, page: record.screen },
                },
            ),
        ),
        (SleepFrameStage::Title { record, index, position }, SleepFrameReply::Done) => Some(
            (SleepFrameAction::ReadPageCount { index }, SleepFrameStage::Count { record, position }),
        ),
        (
            SleepFrameStage::Count { record, position },
            SleepFrameReply::PageCount { page_count, book_id, library_count },
        ) => Some(
            (
                SleepFrameAction::Draw(
                    frame_of(record, position, page_count, book_id, library_count),
                ),
                SleepFrameStage::Over,
            ),
        ),
        _ => None,
    }
}

/// Starts the search for a frame: from the record still owed to the card, or
/// else from the one on it.
pub fn sleep_request_from_saved_state(pending_progress: Option<AppStateRecord>) -> (step: (
    SleepFrameAction,
    SleepFrameStage,
))
    ensures
        step == match pending_progress {
            Some(record) => find_book(record, true),
            None => (SleepFrameAction::LoadAppState, SleepFrameStage::Record),
        },
{
    match pending_progress {
        Some(record) => find(record, true),
        None => (SleepFrameAction::LoadAppState, SleepFrameStage::Record),
    }
}

fn find(record: AppStateRecord, unflushed: bool) -> (step: (SleepFrameAction, SleepFrameStage))
    ensures
        step == find_book(record, unflushed),
{
    (
        SleepFrameAction::FindByIdentity {
            source_hash: record.source_hash,
            source_size: record.source_size,
            legacy: record.legacy_source_identity,
        },
        SleepFrameStage::Row { record, unflushed },
    )
}

fn name(record: AppStateRecord, index: u16, position: BookPosition) -> (step: (
    SleepFrameAction,
    SleepFrameStage,
))
    ensures
        step == name_chapter(record, index, position),
{
    (
        SleepFrameAction::LoadChapterTitle { index, chapter: position.chapter },
        SleepFrameStage::Title { record, index, position },
    )
}

/// Carries the search on after an answer.
pub fn continue_sleep_frame(stage: SleepFrameStage, reply: SleepFrameReply) -> (step: Option<
    (SleepFrameAction, SleepFrameStage),
>)
    ensures
        step == sleep_frame_next(stage, reply),
{
    let blank = (SleepFrameAction::Blank, SleepFrameStage::Over);
    match (stage, reply) {
        (SleepFrameStage::Record, SleepFrameReply::Record(found)) => match found {
            Some(record) => Some(find(record, false)),
            None => Some(blank),
        },
        (SleepFrameStage::Row { record, unflushed }, SleepFrameReply::Row(found)) => match found {
            Some(index) => Some(
                (
                    SleepFrameAction::LoadActiveEntry { index },
                    SleepFrameStage::Entry { record, unflushed, index },
                ),
            ),
            None => Some(blank),
        },
        (SleepFrameStage::Entry { record, unflushed, index }, SleepFrameReply::Done) => {
            if unflushed {
                Some(name(record, index, book_position(None, &record)))
            } else {
                Some(
                    (SleepFrameAction::LoadPlace { index }, SleepFrameStage::Place { record, index }),
                )
            }
        },
        (SleepFrameStage::Place { record, index }, SleepFrameReply::Place(place)) => Some(
            name(record, index, book_position(place, &record)),
        ),
        (SleepFrameStage::Title { record, index, position }, SleepFrameReply::Done) => Some(
            (SleepFrameAction::ReadPageCount { index }, SleepFrameStage::Count { record, position }),
        ),
        (
            SleepFrameStage::Count { record, position },
            SleepFrameReply::PageCount { page_count, book_id, library_count },
        ) => Some(
            (
                SleepFrameAction::Draw(
                    SleepFrame {
                        book_id,
                        chapter: position.chapter,
                        page: position.page,
                        page_count,
                        reading_orientation: record.reading_orientation,
                        front_buttons: record.front_buttons,
                        refresh_policy: record.refresh_policy,
                        font_size: record.font_size,
                        line_spacing: record.line_spacing,
                        font_weight: record.font_weight,
                        font_family: record.font_family,
                        library_count,
                    },
                ),
                SleepFrameStage::Over,
            ),
        ),
        _ => None,
    }
}

/// A record still owed to the card is shown at its own place: the place
/// stored in the book's file is older and is never asked for.
pub proof fn law_unwritten_place_outranks_the_card(record: AppStateRecord, index: u16, reply: SleepFrameReply)
    ensures
        sleep_frame_next(SleepFrameStage::Entry { record, unflushed: true, index }, reply) matches Some(next)
            ==> next.0 == (SleepFrameAction::LoadChapterTitle { index, chapter: record.chapter })
            && next.1 == (SleepFrameStage::Title {
            record,
            index,
            position: BookPosition { chapter: record.chapter, page: record.screen },
        }),
{
}

/// What a search for the sleep screen's frame has been told.
pub struct FrameWatch {
    pub action: SleepFrameAction,
    pub stage: SleepFrameStage,
    /// The record the frame is of, once it is known.
    pub record: Option<AppStateRecord>,
    pub row: Option<u16>,
    /// The place the book's own file gave.
    pub place: Option<BookPosition>,
    pub counted: Option<(u32, u32, u16)>,
}

/// A search that begins with the record still owed to the card, or without
/// one, fed answers in order.
pub open spec fn frame_watched(pending: Option<AppStateRecord>, replies: Seq<SleepFrameReply>) -> FrameWatch
    decreases replies.len(),
{
    if replies.len() == 0 {
        let begun = match pending {
            Some(record) => find_book(record, true),
            None => (SleepFrameAction::LoadAppState, SleepFrameStage::Record),
        };
        FrameWatch {
            action: begun.0,
            stage: begun.1,
            record: pending,
            row: None,
            place: None,
            counted: None,
        }
    } else {
        let before = frame_watched(pending, replies.drop_last());
        match sleep_frame_next(before.stage, replies.last()) {
            Some(next) => FrameWatch {
                action: next.0,
                stage: next.1,
                record: match replies.last() {
                    SleepFrameReply::Record(found) => found,
                    _ => before.record,
                },
                row: match replies.last() {
                    SleepFrameReply::Row(found) => found,
                    _ => before.row,
                },
                place: match replies.last() {
                    SleepFrameReply::Place(place) => place,
                    _ => before.place,
                },
                counted: match replies.last() {
                    SleepFrameReply::PageCount { page_count, book_id, library_count } => Some(
                        (page_count, book_id, library_count),
                    ),
                    _ => before.counted,
                },
            },
            None => before,
        }
    }
}

/// Where the sleep screen shows the reader: where the record says if the card
/// has not seen it, and otherwise where the book's own file says, or the
/// record if that file is silent.
pub open spec fn shown_place(pending: Option<AppStateRecord>, watch: FrameWatch) -> BookPosition {
    let own = BookPosition { chapter: watch.record->0.chapter, page: watch.record->0.screen };
    if pending is None && watch.place is Some { watch.place->0 } else { own }
}

/// The frame a search ends with shows the settings of the record it started
/// from, the place that outranks the others, and the counts it was told. The
/// book is looked for by the record's own identity, and every question on the
/// way is about the row it was found at. Without a record or a row there is
/// nothing to show.
pub proof fn law_sleep_screen_shows_the_saved_book(pending: Option<AppStateRecord>, replies: Seq<SleepFrameReply>)
    ensures
        ({
            let watch = frame_watched(pending, replies);
            &&& pending is Some ==> watch.record == pending && watch.place is None
            &&& (watch.stage matches SleepFrameStage::Row { record, unflushed } ==> watch.record
                == Some(record) && unflushed == (pending is Some) && watch.place is None)
            &&& (watch.stage matches SleepFrameStage::Entry { record, unflushed, index } ==> watch.record
                == Some(record) && unflushed == (pending is Some) && watch.row == Some(index)
                && watch.place is None)
            &&& (watch.stage matches SleepFrameStage::Place { record, index } ==> watch.record == Some(
                record,
            ) && pending is None && watch.row == Some(index))
            &&& (watch.stage matches SleepFrameStage::Title { record, index, position } ==> watch.record
                == Some(record) && watch.row == Some(index) && position == shown_place(
                pending,
                watch,
            ))
            &&& (watch.stage matches SleepFrameStage::Count { record, position } ==> watch.record
                == Some(record) && position == shown_place(pending, watch))
            &&& (watch.stage is Record ==> pending is None && watch.place is None)
            &&& (watch.action matches SleepFrameAction::FindByIdentity {
                source_hash,
                source_size,
                legacy,
            } ==> watch.record is Some && source_hash == watch.record->0.source_hash && source_size
                == watch.record->0.source_size && legacy == watch.record->0.legacy_source_identity)
            &&& (watch.action matches SleepFrameAction::LoadActiveEntry { index } ==> watch.row
                == Some(index))
            &&& (watch.action matches SleepFrameAction::LoadPlace { index } ==> watch.row == Some(index)
                && pending is None)
            &&& (watch.action matches SleepFrameAction::LoadChapterTitle { index, chapter }
                ==> watch.row == Some(index) && chapter == shown_place(pending, watch).chapter)
            &&& (watch.action matches SleepFrameAction::ReadPageCount { index } ==> watch.row == Some(
                index,
            ))
            &&& (watch.action is Blank ==> watch.record is None || watch.row is None)
            &&& (watch.action matches SleepFrameAction::Draw(frame) ==> {
                let record = watch.record->0;
                &&& watch.record is Some && watch.counted is Some
                &&& frame.chapter == shown_place(pending, watch).chapter
                &&& frame.page == shown_place(pending, watch).page
                &&& watch.counted == Some((frame.page_count, frame.book_id, frame.library_count))
                &&& frame.reading_orientation == record.reading_orientation
                &&& frame.front_buttons == record.front_buttons
                &&& frame.refresh_policy == record.refresh_policy
                &&& frame.font_size == record.font_size
                &&& frame.line_spacing == record.line_spacing
                &&& frame.font_weight == record.font_weight
                &&& frame.font_family == record.font_family
            })
        }),
    decreases replies.len(),
{
    if replies.len() > 0 {
        law_sleep_screen_shows_the_saved_book(pending, replies.drop_last());
    }
}

} // verus!
