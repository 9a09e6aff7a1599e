//! Reading a book's bytes in the background, to record what they were.
//!
//! A reading follows the book that is open. It is recorded only when the
//! whole stream was read, and a copy that was read, or would not be, is left
//! alone until another was open.
use vstd::prelude::*;

verus! {

/// How much of a book one slice reads.
pub const EVIDENCE_SLICE_BYTES: u32 = 196_608;

/// How much of it is read at once.
pub const EVIDENCE_BUFFER_BYTES: u32 = 512;

/// Which copy a reading is about: the root it lies under, its path there and
/// its length, exactly.
pub struct EvidencePlace {
    pub root: u8,
    pub locator: Vec<u8>,
    pub len: u32,
}

/// A place as a mathematical value.
pub struct PlaceView {
    pub root: u8,
    pub locator: Seq<u8>,
    pub len: u32,
}

impl View for EvidencePlace {
    type V = PlaceView;

    open spec fn view(&self) -> PlaceView {
        PlaceView { root: self.root, locator: self.locator@, len: self.len }
    }
}

impl EvidencePlace {
    /// Whether two places are the same copy.
    pub fn same_as(&self, other: &EvidencePlace) -> (same: bool)
        ensures
            same == (self@ == other@),
    {
        if self.root != other.root || self.len != other.len || self.locator.len()
            != other.locator.len() {
            return false;
        }
        let mut i: usize = 0;
        while i < self.locator.len()
            invariant
                i <= self.locator@.len(),
                self.locator@.len() == other.locator@.len(),
                forall|j: int| 0 <= j < i ==> self.locator@[j] == other.locator@[j],
            decreases self.locator@.len() - i,
        {
            if self.locator[i] != other.locator[i] {
                return false;
            }
            i += 1;
        }
        assert(self.locator@ =~= other.locator@);
        true
    }

    fn copy(&self) -> (copy: EvidencePlace)
        ensures
            copy@ == self@,
    {
        let mut locator: Vec<u8> = Vec::new();
        let mut i: usize = 0;
        while i < self.locator.len()
            invariant
                i <= self.locator@.len(),
                locator@ == self.locator@.take(i as int),
            decreases self.locator@.len() - i,
        {
            locator.push(self.locator[i]);
            i += 1;
            assert(locator@ =~= self.locator@.take(i as int));
        }
        assert(locator@ =~= self.locator@);
        EvidencePlace { root: self.root, locator, len: self.len }
    }
}

/// The place of the open book, when the store knows it: its row, a length
/// that is not zero, and a path.
pub fn evidence_place(active: bool, len: Option<u32>, location: Option<(u8, Vec<u8>)>) -> (place: Option<
    EvidencePlace,
>)
    ensures
        place_of(place) == place_to_read(active, len, location),
        match place {
            Some(place) => active && len == Some(place.len) && place.len > 0 && location is Some
                && (location->0).0 == place.root && (location->0).1@ == place.locator@,
            None => !active || len is None || len == Some(0u32) || location is None,
        },
{
    if !active {
        return None;
    }
    match (len, location) {
        (Some(len), Some((root, locator))) => {
            if len == 0 {
                None
            } else {
                Some(EvidencePlace { root, locator, len })
            }
        },
        _ => None,
    }
}

/// A reading in progress: the copy, and how much of it was read.
pub struct SourceEvidenceJob {
    pub place: EvidencePlace,
    pub offset: u32,
}

/// What one slice did.
#[derive(Clone, Copy, PartialEq, Eq, Structural, Debug)]
pub enum EvidenceStep {
    Continued,
    Finished,
    Abandoned,
}

/// What the end of a slice asks for.
#[derive(Clone, Copy, PartialEq, Eq, Structural, Debug)]
pub enum SliceEnd {
    Continued,
    Abandoned,
    /// The stream was read whole: record what it held.
    Record,
}

pub open spec fn least_u32(a: int, b: int) -> int {
    if a <= b { a } else { b }
}

/// How much to read next in a slice that has taken `taken`: nothing once the
/// slice or the book is over.
pub open spec fn slice_want(len: u32, offset: u32, taken: u32) -> int {
    if taken < EVIDENCE_SLICE_BYTES && offset + taken < len {
        least_u32(len - offset - taken, EVIDENCE_BUFFER_BYTES as int)
    } else {
        0
    }
}

/// How a slice ends that took `taken`.
pub open spec fn slice_end(len: u32, offset: u32, taken: u32) -> SliceEnd {
    if offset + taken >= len {
        SliceEnd::Record
    } else if taken == 0 {
        SliceEnd::Abandoned
    } else {
        SliceEnd::Continued
    }
}

impl SourceEvidenceJob {
    /// What was read never passes the copy's length.
    pub open spec fn wf(&self) -> bool {
        self.offset <= self.place.len
    }

    /// How much to read next.
    fn next_read(&self, taken: u32) -> (want: u32)
        requires
            self.wf(),
            self.offset + taken <= self.place.len,
        ensures
            want == slice_want(self.place.len, self.offset, taken),
    {
        if taken < EVIDENCE_SLICE_BYTES && self.offset + taken < self.place.len {
            let left: u32 = self.place.len - self.offset - taken;
            if left < EVIDENCE_BUFFER_BYTES {
                left
            } else {
                EVIDENCE_BUFFER_BYTES
            }
        } else {
            0
        }
    }

    /// Ends a slice that took `taken`. Nothing is recorded from less than the
    /// whole stream, and a card that gives nothing more before the end is not
    /// asked again.
    fn end_slice(&mut self, taken: u32) -> (end: SliceEnd)
        requires
            old(self).wf(),
            old(self).offset + taken <= old(self).place.len,
        ensures
            final(self).wf(),
            final(self).place == old(self).place,
            final(self).offset == old(self).offset + taken,
            end == slice_end(old(self).place.len, old(self).offset, taken),
    {
        self.offset = self.offset + taken;
        if self.offset < self.place.len {
            if taken == 0 {
                SliceEnd::Abandoned
            } else {
                SliceEnd::Continued
            }
        } else {
            SliceEnd::Record
        }
    }
}

#[derive(Clone, Copy, PartialEq, Eq, Structural, Debug)]
pub enum ReadingAction {
    Finish(EvidenceStep),
    /// Open a card session. Answer: `Went`.
    OpenSession,
    /// Ask whether the copy's claim records its bytes already. Answer: `Went`.
    AskRecorded,
    /// Open the copy and go to where the reading stands. Answer: `Opened`.
    OpenCopy { offset: u32 },
    /// Read at most this much and take it into the digest. Answer: `Read`.
    Read { want: u32 },
    /// Record the digest. Answer: `Went`.
    Record,
}

#[derive(Clone, Copy, PartialEq, Eq, Structural, Debug)]
pub enum ReadingReply {
    Went(bool),
    /// The length of the file, or `None` when it would not open or seek.
    Opened(Option<u32>),
    /// How much was read, or `None` when the card refused.
    Read(Option<u32>),
}

#[derive(Clone, Copy, PartialEq, Eq, Structural, Debug)]
pub enum ReadingStage {
    Over,
    Session,
    Recorded,
    Opened,
    /// `taken` was read in this slice so far, and `want` is asked for.
    Reading { taken: u32, want: u32 },
    Recording,
}

#[derive(Clone, Copy, PartialEq, Eq, Structural, Debug)]
pub struct ReadingStep {
    pub action: ReadingAction,
    pub stage: ReadingStage,
}

pub open spec fn reading(action: ReadingAction, stage: ReadingStage) -> ReadingStep {
    ReadingStep { action, stage }
}

pub open spec fn reading_over(step: EvidenceStep) -> ReadingStep {
    reading(ReadingAction::Finish(step), ReadingStage::Over)
}

pub open spec fn opening(offset: u32) -> ReadingStep {
    reading(ReadingAction::OpenCopy { offset }, ReadingStage::Opened)
}

/// The next read of a slice, or its end. Gives the offset the reading then
/// stands at.
pub open spec fn read_on(len: u32, offset: u32, taken: u32, dried_up: bool) -> (u32, ReadingStep) {
    let want = slice_want(len, offset, taken);
    if want > 0 && !dried_up {
        (
            offset,
            reading(
                ReadingAction::Read { want: want as u32 },
                ReadingStage::Reading { taken, want: want as u32 },
            ),
        )
    } else {
        (
            (offset + taken) as u32,
            match slice_end(len, offset, taken) {
                SliceEnd::Record => reading(ReadingAction::Record, ReadingStage::Recording),
                SliceEnd::Abandoned => reading_over(EvidenceStep::Abandoned),
                SliceEnd::Continued => reading_over(EvidenceStep::Continued),
            },
        )
    }
}

/// What an answer does to a reading of `len` bytes that stands at `offset`.
/// `None` when the stage is not waiting for it.
pub open spec fn reading_next(len: u32, offset: u32, stage: ReadingStage, reply: ReadingReply) -> Option<(u32, ReadingStep)> {
    match (stage, reply) {
        (ReadingStage::Session, ReadingReply::Went(opened)) => Some(
            (
                offset,
                if !opened {
                    reading_over(EvidenceStep::Abandoned)
                } else if offset == 0 {
                    reading(ReadingAction::AskRecorded, ReadingStage::Recorded)
                } else {
                    opening(offset)
                },
            ),
        ),
        (ReadingStage::Recorded, ReadingReply::Went(recorded)) => Some(
            (
                offset,
                if recorded { reading_over(EvidenceStep::Finished) } else { opening(offset) },
            ),
        ),
        (ReadingStage::Opened, ReadingReply::Opened(found)) => Some(
            if found == Some(len) {
                read_on(len, offset, 0, false)
            } else {
                (offset, reading_over(EvidenceStep::Abandoned))
            },
        ),
        (ReadingStage::Reading { taken, want }, ReadingReply::Read(count)) => match count {
            None => Some((offset, reading_over(EvidenceStep::Abandoned))),
            Some(count) => if count <= want && offset + taken + count <= len {
                Some(read_on(len, offset, (taken + count) as u32, count == 0))
            } else {
                None
            },
        },
        (ReadingStage::Recording, ReadingReply::Went(recorded)) => Some(
            (
                offset,
                reading_over(
                    if recorded { EvidenceStep::Finished } else { EvidenceStep::Abandoned },
                ),
            ),
        ),
        _ => None,
    }
}

fn reading_step(action: ReadingAction, stage: ReadingStage) -> (step: ReadingStep)
    ensures
        step == reading(action, stage),
{
    ReadingStep { action, stage }
}

fn over(ended: EvidenceStep) -> (step: ReadingStep)
    ensures
        step == reading_over(ended),
{
    ReadingStep { action: ReadingAction::Finish(ended), stage: ReadingStage::Over }
}

impl SourceEvidenceJob {
    /// Begins a slice of the reading. A path that does not parse names no
    /// file.
    pub fn continue_source_evidence(&self, path_is_valid: bool) -> (step: ReadingStep)
        ensures
            step == if path_is_valid {
                reading(ReadingAction::OpenSession, ReadingStage::Session)
            } else {
                reading_over(EvidenceStep::Abandoned)
            },
    {
        if path_is_valid {
            reading_step(ReadingAction::OpenSession, ReadingStage::Session)
        } else {
            over(EvidenceStep::Abandoned)
        }
    }

    fn read_on(&mut self, taken: u32, dried_up: bool) -> (step: ReadingStep)
        requires
            old(self).wf(),
            old(self).offset + taken <= old(self).place.len,
        ensures
            final(self).wf(),
            final(self).place == old(self).place,
            (final(self).offset, step) == read_on(
                old(self).place.len,
                old(self).offset,
                taken,
                dried_up,
            ),
    {
        let want: u32 = self.next_read(taken);
        if want > 0 && !dried_up {
            return reading_step(
                ReadingAction::Read { want },
                ReadingStage::Reading { taken, want },
            );
        }
        match self.end_slice(taken) {
            SliceEnd::Record => reading_step(ReadingAction::Record, ReadingStage::Recording),
            SliceEnd::Abandoned => over(EvidenceStep::Abandoned),
            SliceEnd::Continued => over(EvidenceStep::Continued),
        }
    }

    /// What the answer to the last action does. `None`, with nothing changed,
    /// when the stage is not waiting for that kind of answer, or when it says
    /// that more was read than was asked for.
    pub fn advance(&mut self, stage: ReadingStage, reply: ReadingReply) -> (step: Option<
        ReadingStep,
    >)
        requires
            old(self).wf(),
        ensures
            final(self).wf(),
            final(self).place == old(self).place,
            match reading_next(old(self).place.len, old(self).offset, stage, reply) {
                Some(next) => step == Some(next.1) && final(self).offset == next.0,
                None => step is None && final(self).offset == old(self).offset,
            },
    {
        match (stage, reply) {
            (ReadingStage::Session, ReadingReply::Went(opened)) => {
                if !opened {
                    Some(over(EvidenceStep::Abandoned))
                } else if self.offset == 0 {
                    Some(reading_step(ReadingAction::AskRecorded, ReadingStage::Recorded))
                } else {
                    Some(
                        reading_step(
                            ReadingAction::OpenCopy { offset: self.offset },
                            ReadingStage::Opened,
                        ),
                    )
                }
            },
            (ReadingStage::Recorded, ReadingReply::Went(recorded)) => {
                if recorded {
                    Some(over(EvidenceStep::Finished))
                } else {
                    Some(
                        reading_step(
                            ReadingAction::OpenCopy { offset: self.offset },
                            ReadingStage::Opened,
                        ),
                    )
                }
            },
            (ReadingStage::Opened, ReadingReply::Opened(found)) => {
                let is_copy: bool = match found {
                    Some(file_len) => file_len == self.place.len,
                    None => false,
                };
                if is_copy {
                    Some(self.read_on(0, false))
                } else {
                    Some(over(EvidenceStep::Abandoned))
                }
            },
            (ReadingStage::Reading { taken, want }, ReadingReply::Read(count)) => match count {
                None => Some(over(EvidenceStep::Abandoned)),
                Some(count) => {
                    let left: u32 = self.place.len - self.offset;
                    if count <= want && taken <= left && count <= left - taken {
                        Some(self.read_on(taken + count, count == 0))
                    } else {
                        None
                    }
                },
            },
            (ReadingStage::Recording, ReadingReply::Went(recorded)) => {
                if recorded {
                    Some(over(EvidenceStep::Finished))
                } else {
                    Some(over(EvidenceStep::Abandoned))
                }
            },
            _ => None,
        }
    }
}

/// The readings of a session: the one in progress, and the copy that needs
/// none.
pub struct Evidence {
    pub pending: Option<SourceEvidenceJob>,
    pub settled: Option<EvidencePlace>,
}

pub open spec fn place_of(place: Option<EvidencePlace>) -> Option<PlaceView> {
    match place {
        Some(place) => Some(place@),
        None => None,
    }
}

pub open spec fn job_of(job: Option<SourceEvidenceJob>) -> Option<(PlaceView, u32)> {
    match job {
        Some(job) => Some((job.place@, job.offset)),
        None => None,
    }
}

/// The reading a slice goes to: the one in progress if it is of the open
/// book, else a fresh one unless the open book is settled.
pub open spec fn reading_for(pending: Option<(PlaceView, u32)>, settled: Option<PlaceView>, open: Option<PlaceView>) -> Option<(PlaceView, u32)> {
    match open {
        Some(place) => match pending {
            Some(job) if job.0 == place => Some(job),
            _ => if settled == Some(place) { None } else { Some((place, 0u32)) },
        },
        None => None,
    }
}

impl Evidence {
    pub fn new() -> (evidence: Evidence)
        ensures
            evidence.pending is None,
            evidence.settled is None,
    {
        Evidence { pending: None, settled: None }
    }

    pub open spec fn wf(&self) -> bool {
        self.pending matches Some(job) ==> job.wf()
    }

    /// Whether the open book still has to be read.
    pub fn unsettled(&self, open: &Option<EvidencePlace>) -> (unsettled: bool)
        ensures
            unsettled == needs_reading(place_of(self.settled), place_of(*open)),
            unsettled == (*open is Some && place_of(self.settled) != place_of(*open)),
    {
        match open {
            Some(place) => match &self.settled {
                Some(settled) => !settled.same_as(place),
                None => true,
            },
            None => false,
        }
    }

    /// Picks the reading a slice goes to. A reader who moved on takes the
    /// reading with them, half read.
    pub fn begin_turn(&mut self, open: &Option<EvidencePlace>)
        requires
            old(self).wf(),
        ensures
            final(self).wf(),
            final(self).settled == old(self).settled,
            job_of(final(self).pending) == reading_for(
                job_of(old(self).pending),
                place_of(old(self).settled),
                place_of(*open),
            ),
    {
        let keep: bool = match (&self.pending, open) {
            (Some(job), Some(place)) => job.place.same_as(place),
            _ => false,
        };
        if keep {
            return ;
        }
        self.pending = None;
        if self.unsettled(open) {
            if let Some(place) = open {
                self.pending = Some(SourceEvidenceJob { place: place.copy(), offset: 0 });
            }
        }
    }

    /// Ends a slice. A reading that is over settles its copy, read or not.
    pub fn end_turn(&mut self, step: EvidenceStep)
        requires
            old(self).wf(),
        ensures
            (job_of(final(self).pending), place_of(final(self).settled)) == turn_ended(
                job_of(old(self).pending),
                place_of(old(self).settled),
                step,
            ),
            final(self).wf(),
            match (step, old(self).pending) {
                (EvidenceStep::Continued, _) => *final(self) == *old(self),
                (_, Some(job)) => final(self).pending is None && place_of(final(self).settled)
                    == Some(job.place@),
                (_, None) => *final(self) == *old(self),
            },
    {
        match step {
            EvidenceStep::Continued => {},
            EvidenceStep::Finished | EvidenceStep::Abandoned => {
                if let Some(job) = &self.pending {
                    let place = job.place.copy();
                    self.settled = Some(place);
                    self.pending = None;
                }
            },
        }
    }
}

/// Where a slice stands within its copy: what was read before it and in it
/// does not pass the copy's end, and a digest is recorded only at the end.
pub open spec fn reading_invariant(len: u32, offset: u32, stage: ReadingStage) -> bool {
    &&& offset <= len
    &&& stage matches ReadingStage::Reading { taken, want } ==> offset + taken + want <= len && want
        > 0
    &&& stage is Recording ==> offset == len
}

/// A digest is recorded only of a stream that was read to its end, a slice
/// that goes on later has got further, and a read is never asked for past the
/// end of the copy.
pub proof fn law_only_whole_streams_are_recorded(len: u32, offset: u32, stage: ReadingStage, reply: ReadingReply)
    requires
        reading_invariant(len, offset, stage),
    ensures
        reading_next(len, offset, stage, reply) matches Some(next) ==> {
            &&& reading_invariant(len, next.0, next.1.stage)
            &&& next.1.action is Record ==> next.0 == len
            &&& next.1.action == ReadingAction::Finish(EvidenceStep::Continued) ==> offset < next.0
                < len
            &&& next.1.action == ReadingAction::Finish(EvidenceStep::Finished) ==> stage is Recorded
                || (stage is Recording && offset == len)
        },
{
}

/// A slice as it runs: where the reading stands, and the bytes its reads gave
/// the digest.
pub struct ReadingRun {
    pub offset: u32,
    pub stage: ReadingStage,
    pub action: ReadingAction,
    pub digested: int,
}

/// A slice fed answers in order. One the stage is not waiting for changes
/// nothing.
pub open spec fn reading_run(len: u32, offset: u32, replies: Seq<ReadingReply>) -> ReadingRun
    decreases replies.len(),
{
    if replies.len() == 0 {
        ReadingRun {
            offset,
            stage: ReadingStage::Session,
            action: ReadingAction::OpenSession,
            digested: 0,
        }
    } else {
        let before = reading_run(len, offset, replies.drop_last());
        match reading_next(len, before.offset, before.stage, replies.last()) {
            Some(next) => ReadingRun {
                offset: next.0,
                stage: next.1.stage,
                action: next.1.action,
                digested: before.digested + match replies.last() {
                    ReadingReply::Read(Some(count)) => count as int,
                    _ => 0,
                },
            },
            None => before,
        }
    }
}

/// The digest of a reading is over the bytes up to where it stands, and no
/// others: a slice that leaves the reading to go on, or is about to record
/// it, has moved it by exactly what its reads gave.
pub proof fn law_digest_covers_what_was_read(len: u32, offset: u32, replies: Seq<ReadingReply>)
    requires
        offset <= len,
    ensures
        ({
            let run = reading_run(len, offset, replies);
            &&& reading_invariant(len, run.offset, run.stage)
            &&& run.action is Record || run.action == ReadingAction::Finish(
                EvidenceStep::Continued,
            ) ==> run.offset == offset + run.digested
            &&& run.stage matches ReadingStage::Reading { taken, .. } ==> run.offset == offset
                && taken == run.digested
            &&& run.stage is Session || run.stage is Recorded || run.stage is Opened ==> run.offset
                == offset && run.digested == 0
        }),
    decreases replies.len(),
{
    if replies.len() > 0 {
        law_digest_covers_what_was_read(len, offset, replies.drop_last());
        let before = reading_run(len, offset, replies.drop_last());
        law_only_whole_streams_are_recorded(len, before.offset, before.stage, replies.last());
    }
}

/// A settled copy is not read again while it stays open, and any other copy
/// that is opened is.
pub proof fn law_settled_copy_is_left_alone(settled: Option<PlaceView>, open: PlaceView)
    ensures
        reading_for(None, settled, Some(open)) is None <==> settled == Some(open),
{
}

/// A slice goes on reading until it has read its share, the copy is over or
/// the card gives nothing more: 512 bytes at a time, and what is left where
/// that is less.
pub proof fn law_slice_reads_its_share(len: u32, offset: u32, taken: u32, dried_up: bool)
    requires
        offset + taken <= len,
    ensures
        ({
            let next = read_on(len, offset, taken, dried_up);
            let left = len - offset - taken;
            &&& next.1.action is Read <==> !dried_up && taken < 196_608 && left > 0
            &&& (next.1.action matches ReadingAction::Read { want } ==> {
                &&& want <= 512 && want <= left
                &&& want == 512 || want == left
                &&& next.0 == offset
                &&& next.1.stage == ReadingStage::Reading { taken, want }
            })
            &&& !(next.1.action is Read) ==> {
                &&& next.0 == offset + taken
                &&& next.1.action is Record <==> left == 0
                &&& next.1.action == ReadingAction::Finish(EvidenceStep::Abandoned) <==> left > 0
                    && taken == 0
                &&& next.1.action == ReadingAction::Finish(EvidenceStep::Continued) <==> left > 0
                    && taken > 0
            }
        }),
{
}

/// A copy is read only if it opens at its own length, and asked for its
/// record only before any of it was read. A reading is finished exactly when
/// its bytes are on record, and given up when the card refuses.
pub proof fn law_reading_is_of_its_copy(len: u32, offset: u32, stage: ReadingStage, reply: ReadingReply)
    requires
        reading_invariant(len, offset, stage),
    ensures
        reading_next(len, offset, stage, reply) matches Some(next) ==> {
            &&& next.1.action is AskRecorded <==> stage is Session && reply == ReadingReply::Went(true)
                && offset == 0
            &&& (next.1.action matches ReadingAction::OpenCopy { offset: from } ==> from == offset)
            &&& stage is Opened && reply != ReadingReply::Opened(Some(len)) ==> next.1.action
                == ReadingAction::Finish(EvidenceStep::Abandoned)
            &&& stage is Opened && reply == ReadingReply::Opened(Some(len)) && offset < len
                ==> next.1.action is Read
            &&& next.1.action == ReadingAction::Finish(EvidenceStep::Finished) <==> (stage is Recorded
                || stage is Recording) && reply == ReadingReply::Went(true)
            &&& reply == ReadingReply::Read(None) || (stage is Session && reply == ReadingReply::Went(
                false,
            )) || (stage is Recording && reply == ReadingReply::Went(false)) ==> next.1.action
                == ReadingAction::Finish(EvidenceStep::Abandoned)
        },
{
}

/// A slice goes to the open book and to no other: on where its reading
/// stands, or from its start unless it is settled.
pub proof fn law_reading_follows_the_open_book(pending: Option<(PlaceView, u32)>, settled: Option<PlaceView>, open: Option<PlaceView>)
    ensures
        ({
            let job = reading_for(pending, settled, open);
            let begun = pending is Some && open is Some && (pending->0).0 == open->0;
            &&& job is Some ==> open == Some((job->0).0)
            &&& begun ==> job == pending
            &&& job is Some && !begun ==> (job->0).1 == 0 && settled != open
            &&& open is Some && !begun && settled != open ==> job is Some
        }),
{
}

pub open spec fn needs_reading(settled: Option<PlaceView>, open: Option<PlaceView>) -> bool {
    open is Some && settled != open
}

pub open spec fn turn_ended(pending: Option<(PlaceView, u32)>, settled: Option<PlaceView>, step: EvidenceStep) -> (Option<(PlaceView, u32)>, Option<PlaceView>) {
    match (step, pending) {
        (EvidenceStep::Continued, _) => (pending, settled),
        (_, Some(job)) => (None, Some(job.0)),
        (_, None) => (None, settled),
    }
}

pub open spec fn place_to_read(active: bool, len: Option<u32>, location: Option<(u8, Vec<u8>)>) -> Option<PlaceView> {
    match (len, location) {
        (Some(len), Some(location)) => if active && len > 0 {
            Some(PlaceView { root: location.0, locator: location.1@, len })
        } else {
            None
        },
        _ => None,
    }
}

/// A copy whose reading ended is settled and not read again; one whose
/// reading goes on stays pending and unsettled; and no other copy is settled
/// by it.
pub proof fn law_ended_reading_settles_its_copy(job: (PlaceView, u32), settled: Option<PlaceView>, other: PlaceView, step: EvidenceStep)
    ensures
        !(step is Continued) ==> {
            let (pending, now) = turn_ended(Some(job), settled, step);
            &&& pending is None
            &&& !needs_reading(now, Some(job.0))
            &&& other != job.0 ==> needs_reading(now, Some(other))
        },
        turn_ended(Some(job), settled, EvidenceStep::Continued) == (Some(job), settled),
        turn_ended(None, settled, step) == (None::<(PlaceView, u32)>, settled),
        !needs_reading(settled, None),
{
}

/// A copy is read where the open book lies and for as long as it is; a book
/// that is not open, is empty or cannot be found has nothing to read.
pub proof fn law_only_a_found_book_is_read(active: bool, len: Option<u32>, location: Option<(u8, Vec<u8>)>)
    ensures
        place_to_read(active, len, location) is Some <==> active && len is Some && len->0 > 0
            && location is Some,
        place_to_read(active, len, location) matches Some(place) ==> Some(place.len) == len
            && place.root == (location->0).0 && place.locator == (location->0).1@,
{
}

/// A read that brought bytes is followed by the next as long as the slice has
/// its share to read and the copy has more; one that brought none ends the
/// slice. Bytes are counted as they come.
pub proof fn law_dry_read_ends_the_slice(len: u32, offset: u32, taken: u32, want: u32, count: u32)
    requires
        count <= want,
        offset + taken + count <= len,
    ensures
        ({
            let next = reading_next(
                len,
                offset,
                ReadingStage::Reading { taken, want },
                ReadingReply::Read(Some(count)),
            );
            &&& next is Some
            &&& count == 0 ==> !((next->0).1.action is Read)
            &&& count > 0 && taken + count < 196_608 && offset + taken + count < len ==> (
            (next->0).1.stage matches ReadingStage::Reading { taken: now, .. } && now == taken
                + count)
            &&& offset + taken + count == len ==> (next->0).1.action is Record
        }),
{
}

} // verus!
