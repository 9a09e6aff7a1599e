//! Writing the catalog without holding the library in memory.
//!
//! One walk counts the books; each later walk stages the next batch of
//! records, which is appended once the walk is over. The header stays a
//! placeholder until every record and every book's identity is on the card.
use vstd::prelude::*;

verus! {

#[derive(Clone, Copy, PartialEq, Eq, Structural, Debug)]
pub enum WriteAction {
    /// How many books were written, if the catalog was committed.
    Finish(Option<u16>),
    /// Open the file, empty. Answer: `Went`.
    OpenFile,
    /// Walk the card and count. Answer: `Walked`.
    CountBooks,
    /// Write a header that names no catalog. Answer: `Went`.
    WritePlaceholder,
    /// Walk the card and stage the records from `cursor` on. Answer:
    /// `Walked`.
    StageBatch { cursor: usize, capacity: usize },
    /// Fill in the titles of the staged records. Answer: `Went`.
    ResolveTitles { records: usize },
    /// Append the staged records. Answer: `Went`.
    AppendBatch { records: usize },
    /// Say which copy each row is, and commit the ledger. Answer: `Went`.
    AssignIds { count: u16 },
    /// Write the header that names the catalog. Answer: `Went`.
    CommitHeader { count: u16 },
}

#[derive(Clone, Copy, PartialEq, Eq, Structural, Debug)]
pub enum WriteReply {
    Went(bool),
    /// What a walk saw, if it came through.
    Walked(Option<WalkSummary>),
}

/// What one walk over the card saw.
#[derive(Clone, Copy, PartialEq, Eq, Structural, Debug)]
pub struct WalkSummary {
    pub seen: usize,
    pub batch_len: usize,
    pub fingerprint: u32,
}

#[derive(Clone, Copy, PartialEq, Eq, Structural, Debug)]
pub enum WriteStage {
    Over,
    File,
    Counted,
    Placeholder,
    Staged,
    Titled { records: usize },
    Appended { records: usize },
    Assigned,
    Committed,
}

/// A catalog being written.
#[derive(Clone, Copy, PartialEq, Eq, Structural, Debug)]
pub struct CatalogWriter {
    pub batch_capacity: usize,
    /// The most books a catalog can count.
    pub max_books: u16,
    /// The counting walk: every later walk must match it.
    pub counted: usize,
    pub counted_fingerprint: u32,
    pub count: u16,
    /// How many records are on the card.
    pub cursor: usize,
}

#[derive(Clone, Copy, PartialEq, Eq, Structural, Debug)]
pub struct WriteStep {
    pub action: WriteAction,
    pub stage: WriteStage,
}

pub open spec fn write(action: WriteAction, stage: WriteStage) -> WriteStep {
    WriteStep { action, stage }
}

pub open spec fn write_failed() -> WriteStep {
    write(WriteAction::Finish(None), WriteStage::Over)
}

/// How many records the next batch must hold.
pub open spec fn expected_batch(writer: CatalogWriter) -> int {
    let left = writer.count - writer.cursor;
    if writer.batch_capacity <= left { writer.batch_capacity as int } else { left }
}

/// The next batch, or the identities once every record is written.
pub open spec fn write_on(writer: CatalogWriter) -> WriteStep {
    if writer.cursor < writer.count {
        write(
            WriteAction::StageBatch { cursor: writer.cursor, capacity: writer.batch_capacity },
            WriteStage::Staged,
        )
    } else if writer.cursor == writer.count {
        write(WriteAction::AssignIds { count: writer.count }, WriteStage::Assigned)
    } else {
        write_failed()
    }
}

/// Whether a staging walk saw what the counting walk saw, and staged all it
/// should.
pub open spec fn walk_matches(writer: CatalogWriter, walk: WalkSummary) -> bool {
    walk.seen == writer.counted && walk.fingerprint == writer.counted_fingerprint
        && walk.batch_len == expected_batch(writer)
}

/// The count a catalog's header names. More books than it can count are a
/// failed scan, not a shortened one.
pub open spec fn counted_books(seen: usize, max_books: u16) -> Option<u16> {
    if seen <= max_books { Some(seen as u16) } else { None }
}

/// What an answer does. `None` when the stage is not waiting for it.
pub open spec fn write_next(writer: CatalogWriter, stage: WriteStage, reply: WriteReply) -> Option<(CatalogWriter, WriteStep)> {
    match (stage, reply) {
        (WriteStage::File, WriteReply::Went(opened)) => Some(
            (
                writer,
                if opened {
                    write(WriteAction::CountBooks, WriteStage::Counted)
                } else {
                    write_failed()
                },
            ),
        ),
        (WriteStage::Counted, WriteReply::Walked(walk)) => Some(
            match walk {
                Some(walk) => match counted_books(walk.seen, writer.max_books) {
                    Some(count) => (
                        CatalogWriter {
                            counted: walk.seen,
                            counted_fingerprint: walk.fingerprint,
                            count,
                            ..writer
                        },
                        write(WriteAction::WritePlaceholder, WriteStage::Placeholder),
                    ),
                    None => (writer, write_failed()),
                },
                None => (writer, write_failed()),
            },
        ),
        (WriteStage::Placeholder, WriteReply::Went(written)) => Some(
            (writer, if written { write_on(writer) } else { write_failed() }),
        ),
        (WriteStage::Staged, WriteReply::Walked(walk)) => Some(
            (
                writer,
                match walk {
                    Some(walk) => if walk_matches(writer, walk) {
                        write(
                            WriteAction::ResolveTitles { records: walk.batch_len },
                            WriteStage::Titled { records: walk.batch_len },
                        )
                    } else {
                        write_failed()
                    },
                    None => write_failed(),
                },
            ),
        ),
        (WriteStage::Titled { records }, WriteReply::Went(_)) => Some(
            (writer, write(WriteAction::AppendBatch { records }, WriteStage::Appended { records })),
        ),
        (WriteStage::Appended { records }, WriteReply::Went(written)) => Some(
            if written && writer.cursor + records <= usize::MAX {
                let writer = CatalogWriter { cursor: (writer.cursor + records) as usize, ..writer };
                (writer, write_on(writer))
            } else {
                (writer, write_failed())
            },
        ),
        (WriteStage::Assigned, WriteReply::Went(assigned)) => Some(
            (
                writer,
                if assigned {
                    write(
                        WriteAction::CommitHeader { count: writer.count },
                        WriteStage::Committed,
                    )
                } else {
                    write_failed()
                },
            ),
        ),
        (WriteStage::Committed, WriteReply::Went(written)) => Some(
            (
                writer,
                if written {
                    write(WriteAction::Finish(Some(writer.count)), WriteStage::Over)
                } else {
                    write_failed()
                },
            ),
        ),
        _ => None,
    }
}

fn step(action: WriteAction, stage: WriteStage) -> (step: WriteStep)
    ensures
        step == write(action, stage),
{
    WriteStep { action, stage }
}

fn fail() -> (step: WriteStep)
    ensures
        step == write_failed(),
{
    WriteStep { action: WriteAction::Finish(None), stage: WriteStage::Over }
}

impl CatalogWriter {
    /// Begins to write a catalog of at most `max_books` with a scratch of
    /// `scratch_len` bytes for records of `record_bytes`. A scratch that holds
    /// no record is refused.
    pub fn write_catalog_streaming(scratch_len: usize, record_bytes: usize, max_books: u16) -> (begun: (
        CatalogWriter,
        WriteStep,
    ))
        requires
            record_bytes > 0,
        ensures
            begun.0 == (CatalogWriter {
                batch_capacity: scratch_len / record_bytes,
                max_books,
                counted: 0,
                counted_fingerprint: 0,
                count: 0,
                cursor: 0,
            }),
            begun.1 == if scratch_len < record_bytes {
                write_failed()
            } else {
                write(WriteAction::OpenFile, WriteStage::File)
            },
    {
        let batch_capacity: usize = scratch_len / record_bytes;
        let writer = CatalogWriter {
            batch_capacity,
            max_books,
            counted: 0,
            counted_fingerprint: 0,
            count: 0,
            cursor: 0,
        };
        proof {
            vstd::arithmetic::div_mod::lemma_fundamental_div_mod(
                scratch_len as int,
                record_bytes as int,
            );
            vstd::arithmetic::div_mod::lemma_mod_bound(scratch_len as int, record_bytes as int);
            if scratch_len >= record_bytes {
                assert(batch_capacity > 0) by (nonlinear_arith)
                    requires
                        scratch_len == record_bytes * batch_capacity + scratch_len % record_bytes,
                        0 <= scratch_len % record_bytes < record_bytes,
                        scratch_len >= record_bytes,
                        batch_capacity >= 0,
                ;
            } else {
                vstd::arithmetic::div_mod::lemma_basic_div(
                    scratch_len as int,
                    record_bytes as int,
                );
            }
        }
        if batch_capacity == 0 {
            (writer, fail())
        } else {
            (writer, step(WriteAction::OpenFile, WriteStage::File))
        }
    }

    fn write_on(&self) -> (next: WriteStep)
        ensures
            next == write_on(*self),
    {
        let total: usize = self.count as usize;
        if self.cursor < total {
            step(
                WriteAction::StageBatch { cursor: self.cursor, capacity: self.batch_capacity },
                WriteStage::Staged,
            )
        } else if self.cursor == total {
            step(WriteAction::AssignIds { count: self.count }, WriteStage::Assigned)
        } else {
            fail()
        }
    }

    fn walk_matches(&self, walk: &WalkSummary) -> (matches: bool)
        ensures
            matches == walk_matches(*self, *walk),
    {
        if self.cursor > self.count as usize {
            return false;
        }
        let left: usize = self.count as usize - self.cursor;
        let expected: usize = if self.batch_capacity <= left { self.batch_capacity } else { left };
        walk.seen == self.counted && walk.fingerprint == self.counted_fingerprint && walk.batch_len
            == expected
    }

    /// What the answer to the last action does. `None`, with nothing changed,
    /// when the stage is not waiting for that kind of answer.
    pub fn advance(&mut self, stage: WriteStage, reply: WriteReply) -> (next: Option<WriteStep>)
        ensures
            match write_next(*old(self), stage, reply) {
                Some(then) => next == Some(then.1) && *final(self) == then.0,
                None => next is None && *final(self) == *old(self),
            },
    {
        match (stage, reply) {
            (WriteStage::File, WriteReply::Went(opened)) => {
                if opened {
                    Some(step(WriteAction::CountBooks, WriteStage::Counted))
                } else {
                    Some(fail())
                }
            },
            (WriteStage::Counted, WriteReply::Walked(walk)) => match walk {
                Some(walk) => {
                    if walk.seen > self.max_books as usize {
                        return Some(fail());
                    }
                    self.counted = walk.seen;
                    self.counted_fingerprint = walk.fingerprint;
                    self.count = walk.seen as u16;
                    Some(step(WriteAction::WritePlaceholder, WriteStage::Placeholder))
                },
                None => Some(fail()),
            },
            (WriteStage::Placeholder, WriteReply::Went(written)) => {
                if written {
                    Some(self.write_on())
                } else {
                    Some(fail())
                }
            },
            (WriteStage::Staged, WriteReply::Walked(walk)) => match walk {
                Some(walk) => {
                    if self.walk_matches(&walk) {
                        Some(
                            step(
                                WriteAction::ResolveTitles { records: walk.batch_len },
                                WriteStage::Titled { records: walk.batch_len },
                            ),
                        )
                    } else {
                        Some(fail())
                    }
                },
                None => Some(fail()),
            },
            (WriteStage::Titled { records }, WriteReply::Went(_)) => Some(
                step(WriteAction::AppendBatch { records }, WriteStage::Appended { records }),
            ),
            (WriteStage::Appended { records }, WriteReply::Went(written)) => {
                if !written || records > usize::MAX - self.cursor {
                    return Some(fail());
                }
                self.cursor = self.cursor + records;
                Some(self.write_on())
            },
            (WriteStage::Assigned, WriteReply::Went(assigned)) => {
                if assigned {
                    Some(
                        step(
                            WriteAction::CommitHeader { count: self.count },
                            WriteStage::Committed,
                        ),
                    )
                } else {
                    Some(fail())
                }
            },
            (WriteStage::Committed, WriteReply::Went(written)) => {
                if written {
                    Some(step(WriteAction::Finish(Some(self.count)), WriteStage::Over))
                } else {
                    Some(fail())
                }
            },
            _ => None,
        }
    }
}

/// Holds of every stage the writing reaches.
pub open spec fn writer_invariant(writer: CatalogWriter, stage: WriteStage) -> bool {
    &&& writer.batch_capacity > 0
    &&& match stage {
        WriteStage::File | WriteStage::Counted => writer.cursor == 0,
        WriteStage::Placeholder => writer.cursor == 0 && writer.count == writer.counted,
        WriteStage::Staged => writer.cursor < writer.count == writer.counted,
        WriteStage::Titled { records } => records == expected_batch(writer) && writer.cursor
            < writer.count == writer.counted,
        WriteStage::Appended { records } => records == expected_batch(writer) && writer.cursor
            < writer.count == writer.counted,
        WriteStage::Assigned | WriteStage::Committed => writer.cursor == writer.count
            == writer.counted,
        WriteStage::Over => true,
    }
}

/// The header is committed only after every record is on the card, each
/// batch from a walk that matched the counting one, and after the ledger; and
/// the count it names is the count that was written.
pub proof fn law_header_is_committed_last(writer: CatalogWriter, stage: WriteStage, reply: WriteReply)
    requires
        writer_invariant(writer, stage),
    ensures
        write_next(writer, stage, reply) matches Some(next) ==> {
            &&& writer_invariant(next.0, next.1.stage)
            &&& next.1.action matches WriteAction::CommitHeader { count } ==> stage is Assigned
                && reply == WriteReply::Went(true) && count == writer.cursor
            &&& next.1.action matches WriteAction::AppendBatch { records } ==> records
                == expected_batch(writer) && records > 0
            &&& next.1.action matches WriteAction::Finish(Some(count)) ==> stage is Committed && count
                == writer.cursor
        },
{
}

/// Each batch that is appended brings the writing nearer to its end.
pub proof fn law_batches_make_progress(writer: CatalogWriter, records: usize)
    requires
        writer_invariant(writer, WriteStage::Appended { records }),
    ensures
        write_next(writer, WriteStage::Appended { records }, WriteReply::Went(true)) matches Some(next)
            && writer.cursor < next.0.cursor <= writer.count,
{
}

/// A walk that saw another count, other books or another order ends the
/// writing with the placeholder still in place.
pub proof fn law_changed_card_is_never_committed(writer: CatalogWriter, walk: WalkSummary)
    requires
        walk.seen != writer.counted || walk.fingerprint != writer.counted_fingerprint,
    ensures
        write_next(writer, WriteStage::Staged, WriteReply::Walked(Some(walk))) matches Some(next)
            && next.1 == write_failed(),
{
}

/// A writing as it runs. The books are numbered in the order of the counting
/// walk, which every later walk matched.
pub struct WriteRun {
    pub writer: CatalogWriter,
    pub stage: WriteStage,
    pub action: WriteAction,
    /// The books whose records are on the card, in the order of the records.
    pub file: Seq<int>,
}

/// One more answer. One the stage is not waiting for changes nothing. A batch
/// holds the books from the cursor on, as [`crate::walk::WalkPass`] stages
/// them.
pub open spec fn write_extend(run: WriteRun, reply: WriteReply) -> WriteRun {
    match write_next(run.writer, run.stage, reply) {
        Some(next) => WriteRun {
            writer: next.0,
            stage: next.1.stage,
            action: next.1.action,
            file: if run.stage is Appended && reply == WriteReply::Went(true) {
                run.file + Seq::new(
                    run.stage->Appended_records as nat,
                    |i: int| run.writer.cursor + i,
                )
            } else {
                run.file
            },
        },
        None => run,
    }
}

/// A writing fed answers in order.
pub open spec fn write_run(batch_capacity: usize, max_books: u16, replies: Seq<WriteReply>) -> WriteRun
    decreases replies.len(),
{
    if replies.len() == 0 {
        WriteRun {
            writer: CatalogWriter {
                batch_capacity,
                max_books,
                counted: 0,
                counted_fingerprint: 0,
                count: 0,
                cursor: 0,
            },
            stage: WriteStage::File,
            action: WriteAction::OpenFile,
            file: Seq::empty(),
        }
    } else {
        write_extend(write_run(batch_capacity, max_books, replies.drop_last()), replies.last())
    }
}

/// The first `count` books, in order.
pub open spec fn books_up_to(count: int) -> Seq<int> {
    Seq::new(count as nat, |i: int| i)
}

proof fn lemma_write_run(batch_capacity: usize, max_books: u16, replies: Seq<WriteReply>)
    requires
        batch_capacity > 0,
    ensures
        ({
            let run = write_run(batch_capacity, max_books, replies);
            &&& writer_invariant(run.writer, run.stage)
            &&& run.writer.max_books == max_books
            &&& run.file == books_up_to(run.writer.cursor as int)
            &&& run.action is CommitHeader ==> run.stage is Committed && run.action->CommitHeader_count
                == run.writer.counted
            &&& run.action matches WriteAction::Finish(Some(count)) ==> count == run.writer.counted
                == run.writer.cursor
        }),
    decreases replies.len(),
{
    if replies.len() == 0 {
        assert(Seq::<int>::empty() =~= books_up_to(0));
    } else {
        let before = write_run(batch_capacity, max_books, replies.drop_last());
        let reply = replies.last();
        lemma_write_run(batch_capacity, max_books, replies.drop_last());
        law_header_is_committed_last(before.writer, before.stage, reply);
        if before.stage is Appended && reply == WriteReply::Went(true) {
            let records = before.stage->Appended_records as int;
            assert(before.file + Seq::new(records as nat, |i: int| before.writer.cursor + i)
                =~= books_up_to(before.writer.cursor + records));
        }
    }
}

/// A catalog that is committed lists every book of the card once, in the
/// order of the walk: when the header is written, and when the writing
/// succeeds, the records on the card are those of the books counted, and the
/// header names their number.
pub proof fn law_catalog_lists_every_book_once(batch_capacity: usize, max_books: u16, replies: Seq<WriteReply>)
    requires
        batch_capacity > 0,
    ensures
        ({
            let run = write_run(batch_capacity, max_books, replies);
            &&& run.action matches WriteAction::CommitHeader { count } ==> {
                &&& count == run.writer.counted
                &&& run.file == books_up_to(run.writer.counted as int)
            }
            &&& run.action matches WriteAction::Finish(Some(count)) ==> {
                &&& count == run.writer.counted
                &&& run.file == books_up_to(run.writer.counted as int)
            }
        }),
{
    lemma_write_run(batch_capacity, max_books, replies);
}

/// What writing a catalog has been told.
pub struct WriteWatch {
    pub run: WriteRun,
    /// The counting walk, if it came through.
    pub first: Option<WalkSummary>,
    /// The walk after it whose records are staged.
    pub latest: Option<WalkSummary>,
    /// How many records the appends that went through held.
    pub appended: nat,
    pub opened: bool,
    pub marked: bool,
    pub assigned: bool,
    pub committed: bool,
}

/// A writing fed answers in order, watched from outside.
pub open spec fn write_watched(batch_capacity: usize, max_books: u16, replies: Seq<WriteReply>) -> WriteWatch
    decreases replies.len(),
{
    let run = write_run(batch_capacity, max_books, replies);
    if replies.len() == 0 {
        WriteWatch {
            run,
            first: None,
            latest: None,
            appended: 0,
            opened: false,
            marked: false,
            assigned: false,
            committed: false,
        }
    } else {
        let before = write_watched(batch_capacity, max_books, replies.drop_last());
        let reply = replies.last();
        let went = reply == WriteReply::Went(true);
        WriteWatch {
            run,
            first: match (before.run.action, reply) {
                (WriteAction::CountBooks, WriteReply::Walked(walk)) => walk,
                _ => before.first,
            },
            latest: match (before.run.action, reply) {
                (WriteAction::StageBatch { .. }, WriteReply::Walked(walk)) => walk,
                _ => before.latest,
            },
            appended: before.appended + match before.run.action {
                WriteAction::AppendBatch { records } => if went { records as nat } else { 0 },
                _ => 0,
            },
            opened: before.opened || (before.run.action is OpenFile && went),
            marked: before.marked || (before.run.action is WritePlaceholder && went),
            assigned: before.assigned || (before.run.action is AssignIds && went),
            committed: before.committed || (before.run.action is CommitHeader && went),
        }
    }
}

/// Each stage waits for its own action.
pub open spec fn stage_fits(action: WriteAction, stage: WriteStage) -> bool {
    &&& stage is File <==> action is OpenFile
    &&& stage is Counted <==> action is CountBooks
    &&& stage is Placeholder <==> action is WritePlaceholder
    &&& stage is Staged <==> action is StageBatch
    &&& stage is Titled <==> action is ResolveTitles
    &&& stage is Appended <==> action is AppendBatch
    &&& stage is Assigned <==> action is AssignIds
    &&& stage is Committed <==> action is CommitHeader
    &&& stage is Over <==> action is Finish
}

/// A catalog comes to be only as its parts do: the file was opened, the books
/// were counted and are no more than it can count, the header was marked
/// first, every batch was taken from a walk that saw what the counting walk
/// saw, all of the books' records went in, their copies were assigned, and
/// only then was the header written. Writing succeeds exactly when that last
/// write does, and tells how many books were counted.
pub proof fn law_catalog_is_written_in_order(batch_capacity: usize, max_books: u16, replies: Seq<WriteReply>)
    requires
        batch_capacity > 0,
    ensures
        ({
            let watch = write_watched(batch_capacity, max_books, replies);
            let run = watch.run;
            let counting = run.stage is File || run.stage is Counted;
            &&& run == write_run(batch_capacity, max_books, replies)
            &&& stage_fits(run.action, run.stage)
            &&& run.writer.batch_capacity == batch_capacity && run.writer.max_books == max_books
            &&& counting ==> watch.appended == 0 && !watch.marked
            &&& run.stage is Placeholder ==> watch.appended == 0
            &&& !(run.stage is File || run.stage is Over) ==> watch.opened
            &&& !(counting || run.stage is Over) ==> {
                &&& watch.first is Some
                &&& watch.first->0.seen <= max_books
                &&& run.writer.counted == watch.first->0.seen
                &&& run.writer.count == watch.first->0.seen
                &&& run.writer.counted_fingerprint == watch.first->0.fingerprint
            }
            &&& !(counting || run.stage is Placeholder || run.stage is Over) ==> watch.marked
            &&& !(run.stage is Over) ==> run.writer.cursor == watch.appended && !watch.committed
            &&& run.stage is Titled || run.stage is Appended ==> {
                &&& watch.latest is Some
                &&& watch.latest->0.seen == watch.first->0.seen
                &&& watch.latest->0.fingerprint == watch.first->0.fingerprint
            }
            &&& (run.action matches WriteAction::StageBatch { cursor, capacity } ==> cursor
                == watch.appended && capacity == batch_capacity && cursor < watch.first->0.seen)
            &&& (run.stage matches WriteStage::Titled { records } ==> records
                == watch.latest->0.batch_len && run.action == WriteAction::ResolveTitles { records })
            &&& (run.stage matches WriteStage::Appended { records } ==> records
                == watch.latest->0.batch_len && run.action == WriteAction::AppendBatch { records })
            &&& (run.action matches WriteAction::AssignIds { count } ==> count == watch.first->0.seen
                && watch.appended == watch.first->0.seen)
            &&& run.stage is Committed ==> watch.assigned && watch.appended == watch.first->0.seen
            &&& (run.action matches WriteAction::CommitHeader { count } ==> count
                == watch.first->0.seen)
            &&& (run.action matches WriteAction::Finish(written) ==> {
                &&& written is Some <==> watch.committed
                &&& written is Some ==> watch.opened && watch.marked && watch.assigned && watch.first
                    is Some && written->0 == watch.first->0.seen && watch.appended
                    == watch.first->0.seen
            })
        }),
    decreases replies.len(),
{
    if replies.len() > 0 {
        law_catalog_is_written_in_order(batch_capacity, max_books, replies.drop_last());
        lemma_write_run(batch_capacity, max_books, replies.drop_last());
    }
}

/// Writing is given up only for a reason: the card refused, a walk did not
/// come through or saw something else, or there are more books than a
/// catalog can count.
pub proof fn law_writing_is_given_up_for_a_reason(writer: CatalogWriter, stage: WriteStage, reply: WriteReply)
    requires
        writer_invariant(writer, stage),
    ensures
        write_next(writer, stage, reply) matches Some(next) ==> (next.1.action == WriteAction::Finish(
            None,
        ) ==> {
            ||| reply == WriteReply::Went(false) && !(stage is Titled)
            ||| reply == WriteReply::Walked(None)
            ||| stage is Counted && reply->Walked_0->0.seen > writer.max_books
            ||| stage is Staged && (reply->Walked_0->0.seen != writer.counted
                || reply->Walked_0->0.fingerprint != writer.counted_fingerprint
                || reply->Walked_0->0.batch_len != if writer.count - writer.cursor
                < writer.batch_capacity {
                writer.count - writer.cursor
            } else {
                writer.batch_capacity as int
            })
        }),
{
}

} // verus!
