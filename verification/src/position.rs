//! Writing where the reader is: the record the device wakes up from, and for a
//! book on the card the book's own place and page.
use vstd::prelude::*;
use crate::messages::{AppStateRecord, SourceIdentity};
use crate::place::{place_owed, place_to_store, PlaceFacts, StoredPlace};

verus! {

/// A catalog row, with the identity it had when it was read.
#[derive(Clone, Copy, PartialEq, Eq, Structural, Debug)]
pub struct BookRow {
    pub index: u16,
    pub identity: SourceIdentity,
}

/// What became of the write of a place.
#[derive(Clone, Copy, PartialEq, Eq, Structural, Debug)]
pub enum PlaceWrite {
    Stored,
    /// Another copy holds the directory; no retry changes that.
    Taken,
    Fault,
}

/// What became of the write of a page.
#[derive(Clone, Copy, PartialEq, Eq, Structural, Debug)]
pub enum PositionWrite {
    Stored,
    /// A twin's claim holds the key; no retry changes that.
    Foreign,
    Fault,
}

#[derive(Clone, Copy, PartialEq, Eq, Structural, Debug)]
pub enum SaveAction {
    /// Whether everything that can be stored was.
    Finish(bool),
    /// Open a card session. Answer: `Went`.
    OpenSession,
    /// Write the record the device wakes up from. Answer: `Went`.
    WriteState(AppStateRecord),
    /// Ask whether the row still says where its book is. Answer: `Went`.
    Locate(BookRow),
    /// Gather what a place for this page is made of. Answer: `Facts`.
    ReadFacts { index: u16, page: u32 },
    /// Answer: `Place`.
    WritePlace(StoredPlace),
    /// Answer: `Position`.
    WritePosition { index: u16, chapter: u16, page: u32 },
}

#[derive(Clone, Copy, PartialEq, Eq, Structural, Debug)]
pub enum SaveReply {
    Went(bool),
    Facts(PlaceFacts),
    Place(PlaceWrite),
    Position(PositionWrite),
}

#[derive(Clone, Copy, PartialEq, Eq, Structural, Debug)]
pub enum SaveStage {
    Over,
    Session,
    State,
    Located(BookRow),
    Facts(BookRow),
    Place(BookRow),
    Position,
}

/// A save in progress.
#[derive(Clone, Copy, PartialEq, Eq, Structural, Debug)]
pub struct PositionSave {
    pub record: AppStateRecord,
    /// The record the device wakes up from is written too.
    pub with_state: bool,
    pub book: Option<BookRow>,
    /// A write so far has failed.
    pub failed: bool,
}

pub open spec fn save_over(ok: bool) -> (SaveAction, SaveStage) {
    (SaveAction::Finish(ok), SaveStage::Over)
}

/// The book's own writes, if it has any.
pub open spec fn save_book(save: PositionSave) -> (SaveAction, SaveStage) {
    match save.book {
        Some(row) => (SaveAction::Locate(row), SaveStage::Located(row)),
        None => save_over(!save.failed),
    }
}

pub open spec fn save_page(save: PositionSave, row: BookRow) -> (SaveAction, SaveStage) {
    (
        SaveAction::WritePosition {
            index: row.index,
            chapter: save.record.chapter,
            page: save.record.screen,
        },
        SaveStage::Position,
    )
}

/// What an answer does. `None` when the stage is not waiting for it.
pub open spec fn save_next(save: PositionSave, stage: SaveStage, reply: SaveReply) -> Option<(PositionSave, (SaveAction, SaveStage))> {
    match (stage, reply) {
        (SaveStage::Session, SaveReply::Went(opened)) => Some(
            (
                save,
                if !opened {
                    save_over(false)
                } else if save.with_state {
                    (SaveAction::WriteState(save.record), SaveStage::State)
                } else {
                    save_book(save)
                },
            ),
        ),
        (SaveStage::State, SaveReply::Went(written)) => {
            let save = PositionSave { failed: save.failed || !written, ..save };
            Some((save, save_book(save)))
        },
        (SaveStage::Located(row), SaveReply::Went(located)) => Some(
            (
                save,
                if located {
                    (
                        SaveAction::ReadFacts { index: row.index, page: save.record.screen },
                        SaveStage::Facts(row),
                    )
                } else {
                    save_over(false)
                },
            ),
        ),
        (SaveStage::Facts(row), SaveReply::Facts(facts)) => Some(
            (
                save,
                match place_owed(facts, save.record.screen) {
                    Some(place) => (SaveAction::WritePlace(place), SaveStage::Place(row)),
                    None => save_page(save, row),
                },
            ),
        ),
        (SaveStage::Place(row), SaveReply::Place(write)) => {
            let save = PositionSave { failed: save.failed || write is Fault, ..save };
            Some((save, save_page(save, row)))
        },
        (SaveStage::Position, SaveReply::Position(write)) => Some(
            (save, save_over(!save.failed && !(write is Fault))),
        ),
        _ => None,
    }
}

impl PositionSave {
    /// Begins to write the record and, for a book on the card, the book's own
    /// place beside its cache. `book` is `None` for a built-in book and for
    /// one without a catalog row.
    pub fn store_app_state(record: AppStateRecord, book: Option<BookRow>) -> (begun: (
        PositionSave,
        (SaveAction, SaveStage),
    ))
        ensures
            begun == app_state_save(record, book),
            begun.0 == (PositionSave { record, with_state: true, book, failed: false }),
            begun.1 == (SaveAction::OpenSession, SaveStage::Session),
    {
        (
            PositionSave { record, with_state: true, book, failed: false },
            (SaveAction::OpenSession, SaveStage::Session),
        )
    }

    /// Begins to write the record alone.
    pub fn store_global_state(record: AppStateRecord) -> (begun: (
        PositionSave,
        (SaveAction, SaveStage),
    ))
        ensures
            begun == app_state_save(record, None),
            begun.0 == (PositionSave { record, with_state: true, book: None, failed: false }),
            begun.1 == (SaveAction::OpenSession, SaveStage::Session),
    {
        (
            PositionSave { record, with_state: true, book: None, failed: false },
            (SaveAction::OpenSession, SaveStage::Session),
        )
    }

    /// Begins to write a departing book's own place. A built-in book owes
    /// none; a book on the card without a catalog row counts as lost rather
    /// than as nothing to do.
    pub fn store_book_position(record: AppStateRecord, on_card: bool, book: Option<BookRow>) -> (begun: (
        PositionSave,
        (SaveAction, SaveStage),
    ))
        ensures
            begun == book_position_save(record, on_card, book),
            begun.0 == (PositionSave { record, with_state: false, book, failed: false }),
            begun.1 == if !on_card {
                save_over(true)
            } else if book is None {
                save_over(false)
            } else {
                (SaveAction::OpenSession, SaveStage::Session)
            },
    {
        let save = PositionSave { record, with_state: false, book, failed: false };
        if !on_card {
            (save, (SaveAction::Finish(true), SaveStage::Over))
        } else if book.is_none() {
            (save, (SaveAction::Finish(false), SaveStage::Over))
        } else {
            (save, (SaveAction::OpenSession, SaveStage::Session))
        }
    }

    fn save_book(&self) -> (next: (SaveAction, SaveStage))
        ensures
            next == save_book(*self),
    {
        match self.book {
            Some(row) => (SaveAction::Locate(row), SaveStage::Located(row)),
            None => (SaveAction::Finish(!self.failed), SaveStage::Over),
        }
    }

    fn save_page(&self, row: BookRow) -> (next: (SaveAction, SaveStage))
        ensures
            next == save_page(*self, row),
    {
        (
            SaveAction::WritePosition {
                index: row.index,
                chapter: self.record.chapter,
                page: self.record.screen,
            },
            SaveStage::Position,
        )
    }

    /// What the answer to the last action does. `None`, with nothing changed,
    /// when the stage is not waiting for that kind of answer.
    pub fn advance(&mut self, stage: SaveStage, reply: SaveReply) -> (next: Option<
        (SaveAction, SaveStage),
    >)
        ensures
            match save_next(*old(self), stage, reply) {
                Some(then) => next == Some(then.1) && *final(self) == then.0,
                None => next is None && *final(self) == *old(self),
            },
    {
        match (stage, reply) {
            (SaveStage::Session, SaveReply::Went(opened)) => {
                if !opened {
                    Some((SaveAction::Finish(false), SaveStage::Over))
                } else if self.with_state {
                    Some((SaveAction::WriteState(self.record), SaveStage::State))
                } else {
                    Some(self.save_book())
                }
            },
            (SaveStage::State, SaveReply::Went(written)) => {
                self.failed = self.failed || !written;
                Some(self.save_book())
            },
            (SaveStage::Located(row), SaveReply::Went(located)) => {
                if located {
                    Some(
                        (
                            SaveAction::ReadFacts { index: row.index, page: self.record.screen },
                            SaveStage::Facts(row),
                        ),
                    )
                } else {
                    Some((SaveAction::Finish(false), SaveStage::Over))
                }
            },
            (SaveStage::Facts(row), SaveReply::Facts(facts)) => match place_to_store(
                &facts,
                self.record.screen,
            ) {
                Some(place) => Some((SaveAction::WritePlace(place), SaveStage::Place(row))),
                None => Some(self.save_page(row)),
            },
            (SaveStage::Place(row), SaveReply::Place(write)) => {
                let fault: bool = match write {
                    PlaceWrite::Stored | PlaceWrite::Taken => false,
                    PlaceWrite::Fault => true,
                };
                self.failed = self.failed || fault;
                Some(self.save_page(row))
            },
            (SaveStage::Position, SaveReply::Position(write)) => {
                let fault: bool = match write {
                    PositionWrite::Stored | PositionWrite::Foreign => false,
                    PositionWrite::Fault => true,
                };
                Some((SaveAction::Finish(!self.failed && !fault), SaveStage::Over))
            },
            _ => None,
        }
    }
}

/// Whether an answer is a fault of the card, which a later try may mend. A
/// place or a key that another book holds is none.
pub open spec fn is_fault(reply: SaveReply) -> bool {
    match reply {
        SaveReply::Went(ok) => !ok,
        SaveReply::Facts(_) => false,
        SaveReply::Place(write) => write is Fault,
        SaveReply::Position(write) => write is Fault,
    }
}

/// A save as it runs.
pub struct SaveRun {
    pub save: PositionSave,
    pub action: SaveAction,
    pub stage: SaveStage,
    /// Some answer so far was a fault.
    pub faulted: bool,
}

/// A save fed answers in order. One the stage is not waiting for changes
/// nothing.
pub open spec fn save_run(begun: (PositionSave, (SaveAction, SaveStage)), replies: Seq<SaveReply>) -> SaveRun
    decreases replies.len(),
{
    if replies.len() == 0 {
        SaveRun { save: begun.0, action: begun.1.0, stage: begun.1.1, faulted: false }
    } else {
        let before = save_run(begun, replies.drop_last());
        match save_next(before.save, before.stage, replies.last()) {
            Some(next) => SaveRun {
                save: next.0,
                action: next.1.0,
                stage: next.1.1,
                faulted: before.faulted || is_fault(replies.last()),
            },
            None => before,
        }
    }
}

/// A save that began with a session succeeds exactly when no answer was a
/// fault: a write that failed is owed again, and one that another book's
/// claim refused for good is not.
pub proof fn law_saved_unless_the_card_failed(begun: (PositionSave, (SaveAction, SaveStage)), replies: Seq<SaveReply>)
    requires
        !begun.0.failed,
        begun.1 == (SaveAction::OpenSession, SaveStage::Session),
    ensures
        ({
            let run = save_run(begun, replies);
            &&& run.stage is Over ==> run.action == SaveAction::Finish(!run.faulted)
            &&& !(run.stage is Over) ==> run.save.failed == run.faulted
            &&& run.save.record == begun.0.record
            &&& run.save.book == begun.0.book
        }),
    decreases replies.len(),
{
    if replies.len() > 0 {
        law_saved_unless_the_card_failed(begun, replies.drop_last());
    }
}

/// A failed write keeps none of the others from being tried: once the book is
/// located its page is written, whatever became of the record and the place.
pub proof fn law_every_write_is_tried(save: PositionSave, stage: SaveStage, reply: SaveReply)
    ensures
        save_next(save, stage, reply) matches Some(next) ==> {
            &&& stage is State && save.book is Some ==> next.1.0 == SaveAction::Locate(save.book->0)
            &&& stage is Facts ==> next.1.0 is WritePlace || next.1.0 is WritePosition
            &&& stage is Place ==> next.1.0 is WritePosition
        },
{
}

/// Whether an action writes or reads on behalf of this record and this row:
/// the record itself, and the page and chapter it names.
pub open spec fn acts_for(action: SaveAction, record: AppStateRecord, book: Option<BookRow>) -> bool {
    match action {
        SaveAction::WriteState(written) => written == record,
        SaveAction::Locate(row) => book == Some(row),
        SaveAction::ReadFacts { index, page } => book is Some && index == book->0.index && page
            == record.screen,
        SaveAction::WritePosition { index, chapter, page } => book is Some && index == book->0.index
            && chapter == record.chapter && page == record.screen,
        _ => true,
    }
}

/// The row a stage works on, if it does.
pub open spec fn row_in(stage: SaveStage) -> Option<BookRow> {
    match stage {
        SaveStage::Located(row) => Some(row),
        SaveStage::Facts(row) => Some(row),
        SaveStage::Place(row) => Some(row),
        _ => None,
    }
}

/// A save writes the reader's own record, chapter and page, and the book's
/// own row; the record the device wakes up from is written only where it was
/// asked for.
pub proof fn law_save_writes_where_the_reader_is(begun: (PositionSave, (SaveAction, SaveStage)), replies: Seq<SaveReply>)
    requires
        begun.1 == (SaveAction::OpenSession, SaveStage::Session),
    ensures
        ({
            let run = save_run(begun, replies);
            &&& acts_for(run.action, begun.0.record, begun.0.book)
            &&& run.action is WriteState ==> begun.0.with_state
            &&& row_in(run.stage) is Some ==> row_in(run.stage) == begun.0.book
            &&& run.save.record == begun.0.record
            &&& run.save.book == begun.0.book
            &&& run.save.with_state == begun.0.with_state
        }),
    decreases replies.len(),
{
    if replies.len() > 0 {
        law_save_writes_where_the_reader_is(begun, replies.drop_last());
    }
}

/// What a save got done.
pub struct SaveDone {
    pub run: SaveRun,
    pub opened: bool,
    pub wrote_state: bool,
    pub located: bool,
    pub wrote_page: bool,
}

/// A save fed answers in order, watched for the steps that went through.
pub open spec fn save_done(begun: (PositionSave, (SaveAction, SaveStage)), replies: Seq<SaveReply>) -> SaveDone
    decreases replies.len(),
{
    let run = save_run(begun, replies);
    if replies.len() == 0 {
        SaveDone { run, opened: false, wrote_state: false, located: false, wrote_page: false }
    } else {
        let before = save_done(begun, replies.drop_last());
        let reply = replies.last();
        SaveDone {
            run,
            opened: before.opened || (before.run.action is OpenSession && reply == SaveReply::Went(true)),
            wrote_state: before.wrote_state || (before.run.action is WriteState && reply
                == SaveReply::Went(true)),
            located: before.located || (before.run.action is Locate && reply == SaveReply::Went(true)),
            wrote_page: before.wrote_page || (before.run.action is WritePosition && (reply
                == SaveReply::Position(PositionWrite::Stored) || reply == SaveReply::Position(
                PositionWrite::Foreign,
            ))),
        }
    }
}

/// A save that succeeds did all that was asked of it: the session opened, the
/// record was written if it was wanted, and a book's row was found and its
/// page written unless another book holds the key.
pub proof fn law_saved_means_written(begun: (PositionSave, (SaveAction, SaveStage)), replies: Seq<SaveReply>)
    requires
        !begun.0.failed,
        begun.1 == (SaveAction::OpenSession, SaveStage::Session),
    ensures
        ({
            let done = save_done(begun, replies);
            let clean = !done.run.save.failed;
            &&& done.run == save_run(begun, replies)
            &&& done.run.stage is Session <==> done.run.action is OpenSession
            &&& done.run.stage is State <==> done.run.action is WriteState
            &&& done.run.stage is Located <==> done.run.action is Locate
            &&& done.run.stage is Facts <==> done.run.action is ReadFacts
            &&& done.run.stage is Place <==> done.run.action is WritePlace
            &&& done.run.stage is Position <==> done.run.action is WritePosition
            &&& !(done.run.stage is Session || done.run.stage is Over) ==> done.opened
            &&& row_in(done.run.stage) is Some || done.run.stage is Position ==> (clean
                && begun.0.with_state ==> done.wrote_state)
            &&& done.run.stage is Facts || done.run.stage is Place || done.run.stage is Position
                ==> done.located
            &&& done.run.action == SaveAction::Finish(true) ==> {
                &&& done.opened
                &&& begun.0.with_state ==> done.wrote_state
                &&& begun.0.book is Some ==> done.located && done.wrote_page
            }
        }),
    decreases replies.len(),
{
    if replies.len() > 0 {
        law_saved_means_written(begun, replies.drop_last());
        law_save_writes_where_the_reader_is(begun, replies.drop_last());
    }
}

pub open spec fn app_state_save(record: AppStateRecord, book: Option<BookRow>) -> (PositionSave, (SaveAction, SaveStage)) {
    (
        PositionSave { record, with_state: true, book, failed: false },
        (SaveAction::OpenSession, SaveStage::Session),
    )
}

pub open spec fn book_position_save(record: AppStateRecord, on_card: bool, book: Option<BookRow>) -> (PositionSave, (SaveAction, SaveStage)) {
    (
        PositionSave { record, with_state: false, book, failed: false },
        if !on_card {
            save_over(true)
        } else if book is None {
            save_over(false)
        } else {
            (SaveAction::OpenSession, SaveStage::Session)
        },
    )
}

/// The app's state is saved with the record it was given, and a book's
/// position alone touches no other state. A book that is not on the card has
/// no position to fail, and one on the card that has no row fails at once.
pub proof fn law_save_begins_with_its_record(record: AppStateRecord, on_card: bool, book: Option<BookRow>)
    ensures
        app_state_save(record, book).0.record == record,
        app_state_save(record, book).0.with_state,
        !app_state_save(record, book).0.failed,
        !book_position_save(record, on_card, book).0.failed,
        app_state_save(record, book).0.book == book,
        app_state_save(record, book).1.0 is OpenSession,
        book_position_save(record, on_card, book).0.record == record,
        !book_position_save(record, on_card, book).0.with_state,
        book_position_save(record, on_card, book).0.book == book,
        book_position_save(record, on_card, book).1.0 is OpenSession <==> on_card && book is Some,
        !on_card ==> book_position_save(record, on_card, book).1 == save_over(true),
        on_card && book is None ==> book_position_save(record, on_card, book).1 == save_over(false),
{
}

} // verus!
