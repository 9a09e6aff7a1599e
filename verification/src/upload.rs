//! The upload session: books come in from a browser until Sleep or the
//! wireless screen ends it.
//!
//! Nothing on the shelf changes while a snapshot of the old one might be
//! believed, or while an earlier transaction is unsettled. Every request is
//! answered, and nothing is acknowledged over an open volume.
use vstd::prelude::*;
use crate::recovery::{IntentRead, ReplaceRecovery, Shelf};

verus! {

/// What ended the session.
#[derive(Clone, Copy, PartialEq, Eq, Structural, Debug)]
pub enum UploadSessionExit {
    /// Carries the generation of the sleep that interrupted it.
    Sleep { generation: u32 },
    Wireless,
}

/// A request from the browser.
#[derive(Clone, Copy, PartialEq, Eq, Structural, Debug)]
pub struct UploadRequest {
    pub delete: bool,
    /// The book lies on the shelf, not at the card's root.
    pub in_books: bool,
}

/// What woke the session.
#[derive(Clone, Copy, PartialEq, Eq, Structural, Debug)]
pub enum SessionInput {
    Request(UploadRequest),
    Stop,
    Sleep { generation: u32 },
    /// A frame of a view this session never shows.
    Render,
}

/// What came while a book's bytes were awaited.
#[derive(Clone, Copy, PartialEq, Eq, Structural, Debug)]
pub enum ChunkInput {
    Chunk { has_bytes: bool, last: bool, abort: bool },
    Stop,
    Sleep { generation: u32 },
    Render,
}

#[derive(Clone, Copy, PartialEq, Eq, Structural, Debug)]
pub enum UploadAction {
    /// Close what is open, then hand over. The volume is open if it says so.
    Finish { exit: UploadSessionExit, volume_open: bool },
    /// Initialise the card. Answer: `Went`.
    ProbeCard,
    /// Answer: `Went`.
    OpenVolume,
    /// Answer: `Went`.
    OpenRoot,
    /// Delete the catalog snapshot. Answer: `Went`.
    ClearSnapshot,
    /// Open the shelf without making it. Answer: `Shelf`.
    OpenShelf,
    /// Replay a reclaim. Answer: `Went`.
    RecoverReclaim,
    /// Make the shelf and open it. Answer: `Went`.
    MakeShelf,
    /// Finish interrupted installs. Answer: `Went`.
    RecoverInstalls,
    /// Settle a replacement. Answer: `Replaced`.
    RecoverReplace,
    /// Read the install journal. Answer: `Intent`.
    ReadIntent,
    /// Wait for a request or the end. Answer: `Input`.
    WaitInput,
    /// Delete the named book. Answer: `Went`.
    Delete { in_books: bool },
    /// Delete what was kept beside it. Answer: `Went`.
    DeleteSidecars,
    /// Begin to stage a book. Answer: `Went`.
    Stage,
    /// Wait for bytes or the end. Answer: `Chunk`.
    WaitChunk,
    /// Write the chunk's bytes. Answer: `Went`.
    WriteChunk,
    /// Give the chunk's buffer back. Answer: `Went`.
    Recycle,
    /// Give the staged book up. Answer: `Went`.
    Abandon,
    /// Install the staged book. Answer: `Went`.
    Install,
    /// Record what its bytes are. Answer: `Went`.
    RecordIdentity,
    /// Answer the request. Answer: `Went`.
    SendResult(bool),
}

#[derive(Clone, Copy, PartialEq, Eq, Structural, Debug)]
pub enum UploadReply {
    Went(bool),
    Shelf(Shelf),
    Replaced(ReplaceRecovery),
    Intent(IntentRead),
    Input(SessionInput),
    Chunk(ChunkInput),
}

#[derive(Clone, Copy, PartialEq, Eq, Structural, Debug)]
pub enum UploadStage {
    Over,
    Card,
    Volume,
    Root,
    Snapshot,
    Shelf,
    Reclaim { exists: bool },
    ShelfMade,
    ServeReclaim,
    ServeInstalls,
    ServeReplace,
    Waiting,
    GateReclaim(UploadRequest),
    GateIntent { request: UploadRequest, retried: bool },
    GateInstalls(UploadRequest),
    GateReplace(UploadRequest),
    Deleting { in_books: bool },
    Sidecars,
    Staging,
    Chunking { failed: bool },
    Writing { last: bool },
    Recycling { failed: bool, last: bool, aborted: bool },
    Abandoned { exit: Option<UploadSessionExit> },
    Installing,
    Recorded,
    /// A book's bytes are taken without a file to write them to.
    Draining,
    DrainRecycled { done: bool },
    Answered,
}

/// What holds of the session as a whole.
#[derive(Clone, Copy, PartialEq, Eq, Structural, Debug)]
pub struct UploadSession {
    pub volume_open: bool,
    /// The shelf is set up; without it every request is refused.
    pub serving: bool,
    /// The old catalog snapshot is proven gone.
    pub snapshot_cleared: bool,
}

#[derive(Clone, Copy, PartialEq, Eq, Structural, Debug)]
pub struct UploadStep {
    pub action: UploadAction,
    pub stage: UploadStage,
}

pub open spec fn up(action: UploadAction, stage: UploadStage) -> UploadStep {
    UploadStep { action, stage }
}

pub open spec fn waiting() -> UploadStep {
    up(UploadAction::WaitInput, UploadStage::Waiting)
}

pub open spec fn answering(ok: bool) -> UploadStep {
    up(UploadAction::SendResult(ok), UploadStage::Answered)
}

pub open spec fn draining() -> UploadStep {
    up(UploadAction::WaitChunk, UploadStage::Draining)
}

pub open spec fn ending(session: UploadSession, exit: UploadSessionExit) -> UploadStep {
    up(
        UploadAction::Finish { exit, volume_open: session.volume_open },
        UploadStage::Over,
    )
}

/// The shelf is ready. Earlier transactions are finished first, unless an old
/// snapshot still stands.
pub open spec fn serving(session: UploadSession) -> (UploadSession, UploadStep) {
    (
        UploadSession { serving: true, ..session },
        if session.snapshot_cleared {
            up(UploadAction::RecoverReclaim, UploadStage::ServeReclaim)
        } else {
            waiting()
        },
    )
}

/// The stages of setting a session up.
pub open spec fn setup_next(session: UploadSession, stage: UploadStage, reply: UploadReply) -> Option<(UploadSession, UploadStep)> {
    match (stage, reply) {
        (UploadStage::Card, UploadReply::Went(ok)) => Some(
            (
                session,
                if ok { up(UploadAction::OpenVolume, UploadStage::Volume) } else { waiting() },
            ),
        ),
        (UploadStage::Volume, UploadReply::Went(ok)) => Some(
            if ok {
                (
                    UploadSession { volume_open: true, ..session },
                    up(UploadAction::OpenRoot, UploadStage::Root),
                )
            } else {
                (session, waiting())
            },
        ),
        (UploadStage::Root, UploadReply::Went(ok)) => Some(
            (
                session,
                if ok { up(UploadAction::ClearSnapshot, UploadStage::Snapshot) } else { waiting() },
            ),
        ),
        (UploadStage::Snapshot, UploadReply::Went(cleared)) => Some(
            (
                UploadSession { snapshot_cleared: cleared, ..session },
                up(UploadAction::OpenShelf, UploadStage::Shelf),
            ),
        ),
        (UploadStage::Shelf, UploadReply::Shelf(shelf)) => Some(
            (
                session,
                match shelf {
                    Shelf::Unreadable => waiting(),
                    Shelf::Found => up(
                        UploadAction::RecoverReclaim,
                        UploadStage::Reclaim { exists: true },
                    ),
                    Shelf::Absent => up(
                        UploadAction::RecoverReclaim,
                        UploadStage::Reclaim { exists: false },
                    ),
                },
            ),
        ),
        (UploadStage::Reclaim { exists }, UploadReply::Went(ok)) => Some(
            if !ok {
                (session, waiting())
            } else if exists {
                serving(session)
            } else {
                (session, up(UploadAction::MakeShelf, UploadStage::ShelfMade))
            },
        ),
        (UploadStage::ShelfMade, UploadReply::Went(ok)) => Some(
            if ok { serving(session) } else { (session, waiting()) },
        ),
        (UploadStage::ServeReclaim, UploadReply::Went(ok)) => Some(
            (
                session,
                if ok {
                    up(UploadAction::RecoverInstalls, UploadStage::ServeInstalls)
                } else {
                    waiting()
                },
            ),
        ),
        (UploadStage::ServeInstalls, UploadReply::Went(complete)) => Some(
            (
                session,
                if complete {
                    up(UploadAction::RecoverReplace, UploadStage::ServeReplace)
                } else {
                    waiting()
                },
            ),
        ),
        (UploadStage::ServeReplace, UploadReply::Replaced(_)) => Some((session, waiting())),
        _ => None,
    }
}

/// A request that may run.
pub open spec fn running(request: UploadRequest) -> UploadStep {
    if request.delete {
        up(
            UploadAction::Delete { in_books: request.in_books },
            UploadStage::Deleting { in_books: request.in_books },
        )
    } else {
        up(UploadAction::Stage, UploadStage::Staging)
    }
}

/// The stages of a request, from its arrival to where it may run.
pub open spec fn gate_next(session: UploadSession, stage: UploadStage, reply: UploadReply) -> Option<UploadStep> {
    match (stage, reply) {
        (UploadStage::Waiting, UploadReply::Input(input)) => Some(
            match input {
                SessionInput::Request(request) => if !session.serving {
                    draining()
                } else if !session.snapshot_cleared {
                    answering(false)
                } else {
                    up(UploadAction::RecoverReclaim, UploadStage::GateReclaim(request))
                },
                SessionInput::Stop => ending(session, UploadSessionExit::Wireless),
                SessionInput::Sleep { generation } => ending(
                    session,
                    UploadSessionExit::Sleep { generation },
                ),
                SessionInput::Render => waiting(),
            },
        ),
        (UploadStage::GateReclaim(request), UploadReply::Went(ok)) => Some(
            if ok {
                up(
                    UploadAction::ReadIntent,
                    UploadStage::GateIntent { request, retried: false },
                )
            } else {
                answering(false)
            },
        ),
        (UploadStage::GateIntent { request, retried }, UploadReply::Intent(intent)) => Some(
            if intent is Absent || intent is Truncated {
                up(UploadAction::RecoverReplace, UploadStage::GateReplace(request))
            } else if retried {
                answering(false)
            } else {
                up(UploadAction::RecoverInstalls, UploadStage::GateInstalls(request))
            },
        ),
        (UploadStage::GateInstalls(request), UploadReply::Went(_)) => Some(
            up(UploadAction::ReadIntent, UploadStage::GateIntent { request, retried: true }),
        ),
        (UploadStage::GateReplace(request), UploadReply::Replaced(replaced)) => Some(
            if replaced is Nothing || replaced is Settled {
                running(request)
            } else {
                answering(false)
            },
        ),
        (UploadStage::Answered, UploadReply::Went(_)) => Some(waiting()),
        _ => None,
    }
}

/// The stages of a request that runs.
pub open spec fn work_next(session: UploadSession, stage: UploadStage, reply: UploadReply) -> Option<UploadStep> {
    match (stage, reply) {
        (UploadStage::Deleting { in_books }, UploadReply::Went(removed)) => Some(
            if removed && in_books {
                up(UploadAction::DeleteSidecars, UploadStage::Sidecars)
            } else {
                answering(removed)
            },
        ),
        (UploadStage::Sidecars, UploadReply::Went(_)) => Some(answering(true)),
        (UploadStage::Staging, UploadReply::Went(ok)) => Some(
            if ok {
                up(UploadAction::WaitChunk, UploadStage::Chunking { failed: false })
            } else {
                draining()
            },
        ),
        (UploadStage::Chunking { failed }, UploadReply::Chunk(input)) => Some(
            match input {
                ChunkInput::Chunk { has_bytes, last, abort } => if !failed && !abort && has_bytes {
                    up(UploadAction::WriteChunk, UploadStage::Writing { last })
                } else {
                    up(
                        UploadAction::Recycle,
                        UploadStage::Recycling { failed, last, aborted: abort },
                    )
                },
                ChunkInput::Stop => up(
                    UploadAction::Abandon,
                    UploadStage::Abandoned { exit: Some(UploadSessionExit::Wireless) },
                ),
                ChunkInput::Sleep { generation } => up(
                    UploadAction::Abandon,
                    UploadStage::Abandoned { exit: Some(UploadSessionExit::Sleep { generation }) },
                ),
                ChunkInput::Render => up(UploadAction::WaitChunk, UploadStage::Chunking { failed }),
            },
        ),
        (UploadStage::Writing { last }, UploadReply::Went(written)) => Some(
            up(
                UploadAction::Recycle,
                UploadStage::Recycling { failed: !written, last, aborted: false },
            ),
        ),
        (UploadStage::Recycling { failed, last, aborted }, UploadReply::Went(_)) => Some(
            if !last && !aborted {
                up(UploadAction::WaitChunk, UploadStage::Chunking { failed })
            } else if failed || aborted {
                up(UploadAction::Abandon, UploadStage::Abandoned { exit: None })
            } else {
                up(UploadAction::Install, UploadStage::Installing)
            },
        ),
        (UploadStage::Abandoned { exit }, UploadReply::Went(_)) => Some(
            match exit {
                Some(exit) => ending(session, exit),
                None => answering(false),
            },
        ),
        (UploadStage::Installing, UploadReply::Went(landed)) => Some(
            if landed {
                up(UploadAction::RecordIdentity, UploadStage::Recorded)
            } else {
                answering(false)
            },
        ),
        (UploadStage::Recorded, UploadReply::Went(_)) => Some(answering(true)),
        (UploadStage::Draining, UploadReply::Chunk(input)) => Some(
            match input {
                ChunkInput::Chunk { last, abort, .. } => up(
                    UploadAction::Recycle,
                    UploadStage::DrainRecycled { done: last || abort },
                ),
                ChunkInput::Stop => ending(session, UploadSessionExit::Wireless),
                ChunkInput::Sleep { generation } => ending(
                    session,
                    UploadSessionExit::Sleep { generation },
                ),
                ChunkInput::Render => draining(),
            },
        ),
        (UploadStage::DrainRecycled { done }, UploadReply::Went(_)) => Some(
            if done { answering(false) } else { draining() },
        ),
        _ => None,
    }
}

/// The machine.
pub open spec fn upload_next(session: UploadSession, stage: UploadStage, reply: UploadReply) -> Option<(UploadSession, UploadStep)> {
    if setup_next(session, stage, reply) is Some {
        setup_next(session, stage, reply)
    } else {
        match gate_next(session, stage, reply) {
            Some(step) => Some((session, step)),
            None => match work_next(session, stage, reply) {
                Some(step) => Some((session, step)),
                None => None,
            },
        }
    }
}

fn step(action: UploadAction, stage: UploadStage) -> (step: UploadStep)
    ensures
        step == up(action, stage),
{
    UploadStep { action, stage }
}

fn wait() -> (step: UploadStep)
    ensures
        step == waiting(),
{
    UploadStep { action: UploadAction::WaitInput, stage: UploadStage::Waiting }
}

fn answer(ok: bool) -> (step: UploadStep)
    ensures
        step == answering(ok),
{
    UploadStep { action: UploadAction::SendResult(ok), stage: UploadStage::Answered }
}

fn drain_until_end() -> (step: UploadStep)
    ensures
        step == draining(),
{
    UploadStep { action: UploadAction::WaitChunk, stage: UploadStage::Draining }
}

/// A journal with nothing left to replay. A card that will not answer is not
/// one of those.
pub fn journal_is_clear(intent: IntentRead) -> (clear: bool)
    ensures
        clear == nothing_to_replay(intent),
        clear == (intent is Absent || intent is Truncated),
{
    match intent {
        IntentRead::Absent | IntentRead::Truncated => true,
        IntentRead::Valid | IntentRead::Unrecognized | IntentRead::Fault => false,
    }
}

impl UploadSession {
    /// Begins a session.
    pub fn upload_session() -> (begun: (UploadSession, UploadStep))
        ensures
            begun.0 == (UploadSession {
                volume_open: false,
                serving: false,
                snapshot_cleared: false,
            }),
            begun.1 == up(UploadAction::ProbeCard, UploadStage::Card),
    {
        (
            UploadSession { volume_open: false, serving: false, snapshot_cleared: false },
            step(UploadAction::ProbeCard, UploadStage::Card),
        )
    }

    fn end(&self, exit: UploadSessionExit) -> (step: UploadStep)
        ensures
            step == ending(*self, exit),
    {
        UploadStep {
            action: UploadAction::Finish { exit, volume_open: self.volume_open },
            stage: UploadStage::Over,
        }
    }

    fn serve(&mut self) -> (next: UploadStep)
        ensures
            (*final(self), next) == serving(*old(self)),
    {
        self.serving = true;
        if self.snapshot_cleared {
            step(UploadAction::RecoverReclaim, UploadStage::ServeReclaim)
        } else {
            wait()
        }
    }

    fn advance_setup(&mut self, stage: UploadStage, reply: UploadReply) -> (next: Option<UploadStep>)
        ensures
            match setup_next(*old(self), stage, reply) {
                Some(then) => next == Some(then.1) && *final(self) == then.0,
                None => next is None && *final(self) == *old(self),
            },
    {
        match (stage, reply) {
            (UploadStage::Card, UploadReply::Went(ok)) => Some(
                if ok {
                    step(UploadAction::OpenVolume, UploadStage::Volume)
                } else {
                    wait()
                },
            ),
            (UploadStage::Volume, UploadReply::Went(ok)) => {
                if ok {
                    self.volume_open = true;
                    Some(step(UploadAction::OpenRoot, UploadStage::Root))
                } else {
                    Some(wait())
                }
            },
            (UploadStage::Root, UploadReply::Went(ok)) => Some(
                if ok {
                    step(UploadAction::ClearSnapshot, UploadStage::Snapshot)
                } else {
                    wait()
                },
            ),
            (UploadStage::Snapshot, UploadReply::Went(cleared)) => {
                self.snapshot_cleared = cleared;
                Some(step(UploadAction::OpenShelf, UploadStage::Shelf))
            },
            (UploadStage::Shelf, UploadReply::Shelf(shelf)) => Some(
                match shelf {
                    Shelf::Unreadable => wait(),
                    Shelf::Found => step(
                        UploadAction::RecoverReclaim,
                        UploadStage::Reclaim { exists: true },
                    ),
                    Shelf::Absent => step(
                        UploadAction::RecoverReclaim,
                        UploadStage::Reclaim { exists: false },
                    ),
                },
            ),
            (UploadStage::Reclaim { exists }, UploadReply::Went(ok)) => {
                if !ok {
                    Some(wait())
                } else if exists {
                    Some(self.serve())
                } else {
                    Some(step(UploadAction::MakeShelf, UploadStage::ShelfMade))
                }
            },
            (UploadStage::ShelfMade, UploadReply::Went(ok)) => {
                if ok {
                    Some(self.serve())
                } else {
                    Some(wait())
                }
            },
            (UploadStage::ServeReclaim, UploadReply::Went(ok)) => Some(
                if ok {
                    step(UploadAction::RecoverInstalls, UploadStage::ServeInstalls)
                } else {
                    wait()
                },
            ),
            (UploadStage::ServeInstalls, UploadReply::Went(complete)) => Some(
                if complete {
                    step(UploadAction::RecoverReplace, UploadStage::ServeReplace)
                } else {
                    wait()
                },
            ),
            (UploadStage::ServeReplace, UploadReply::Replaced(_)) => Some(wait()),
            _ => None,
        }
    }

    fn advance_gate(&self, stage: UploadStage, reply: UploadReply) -> (next: Option<UploadStep>)
        ensures
            next == gate_next(*self, stage, reply),
    {
        match (stage, reply) {
            (UploadStage::Waiting, UploadReply::Input(input)) => match input {
                SessionInput::Request(request) => {
                    if !self.serving {
                        Some(drain_until_end())
                    } else if !self.snapshot_cleared {
                        Some(answer(false))
                    } else {
                        Some(step(UploadAction::RecoverReclaim, UploadStage::GateReclaim(request)))
                    }
                },
                SessionInput::Stop => Some(self.end(UploadSessionExit::Wireless)),
                SessionInput::Sleep { generation } => Some(
                    self.end(UploadSessionExit::Sleep { generation }),
                ),
                SessionInput::Render => Some(wait()),
            },
            (UploadStage::GateReclaim(request), UploadReply::Went(ok)) => Some(
                if ok {
                    step(
                        UploadAction::ReadIntent,
                        UploadStage::GateIntent { request, retried: false },
                    )
                } else {
                    answer(false)
                },
            ),
            (UploadStage::GateIntent { request, retried }, UploadReply::Intent(intent)) => {
                if journal_is_clear(intent) {
                    Some(step(UploadAction::RecoverReplace, UploadStage::GateReplace(request)))
                } else if retried {
                    Some(answer(false))
                } else {
                    Some(step(UploadAction::RecoverInstalls, UploadStage::GateInstalls(request)))
                }
            },
            (UploadStage::GateInstalls(request), UploadReply::Went(_)) => Some(
                step(UploadAction::ReadIntent, UploadStage::GateIntent { request, retried: true }),
            ),
            (UploadStage::GateReplace(request), UploadReply::Replaced(replaced)) => match replaced {
                ReplaceRecovery::Nothing | ReplaceRecovery::Settled => {
                    if request.delete {
                        Some(
                            step(
                                UploadAction::Delete { in_books: request.in_books },
                                UploadStage::Deleting { in_books: request.in_books },
                            ),
                        )
                    } else {
                        Some(step(UploadAction::Stage, UploadStage::Staging))
                    }
                },
                ReplaceRecovery::Refused | ReplaceRecovery::Fault => Some(answer(false)),
            },
            (UploadStage::Answered, UploadReply::Went(_)) => Some(wait()),
            _ => None,
        }
    }

    fn advance_work(&self, stage: UploadStage, reply: UploadReply) -> (next: Option<UploadStep>)
        ensures
            next == work_next(*self, stage, reply),
    {
        match (stage, reply) {
            (UploadStage::Deleting { in_books }, UploadReply::Went(removed)) => Some(
                if removed && in_books {
                    step(UploadAction::DeleteSidecars, UploadStage::Sidecars)
                } else {
                    answer(removed)
                },
            ),
            (UploadStage::Sidecars, UploadReply::Went(_))
            | (UploadStage::Recorded, UploadReply::Went(_)) => Some(answer(true)),
            (UploadStage::Staging, UploadReply::Went(ok)) => Some(
                if ok {
                    step(UploadAction::WaitChunk, UploadStage::Chunking { failed: false })
                } else {
                    drain_until_end()
                },
            ),
            (UploadStage::Chunking { failed }, UploadReply::Chunk(input)) => match input {
                ChunkInput::Chunk { has_bytes, last, abort } => {
                    if !failed && !abort && has_bytes {
                        Some(step(UploadAction::WriteChunk, UploadStage::Writing { last }))
                    } else {
                        Some(
                            step(
                                UploadAction::Recycle,
                                UploadStage::Recycling { failed, last, aborted: abort },
                            ),
                        )
                    }
                },
                ChunkInput::Stop => Some(
                    step(
                        UploadAction::Abandon,
                        UploadStage::Abandoned { exit: Some(UploadSessionExit::Wireless) },
                    ),
                ),
                ChunkInput::Sleep { generation } => Some(
                    step(
                        UploadAction::Abandon,
                        UploadStage::Abandoned {
                            exit: Some(UploadSessionExit::Sleep { generation }),
                        },
                    ),
                ),
                ChunkInput::Render => Some(
                    step(UploadAction::WaitChunk, UploadStage::Chunking { failed }),
                ),
            },
            (UploadStage::Writing { last }, UploadReply::Went(written)) => Some(
                step(
                    UploadAction::Recycle,
                    UploadStage::Recycling { failed: !written, last, aborted: false },
                ),
            ),
            (UploadStage::Recycling { failed, last, aborted }, UploadReply::Went(_)) => {
                if !last && !aborted {
                    Some(step(UploadAction::WaitChunk, UploadStage::Chunking { failed }))
                } else if failed || aborted {
                    Some(step(UploadAction::Abandon, UploadStage::Abandoned { exit: None }))
                } else {
                    Some(step(UploadAction::Install, UploadStage::Installing))
                }
            },
            (UploadStage::Abandoned { exit }, UploadReply::Went(_)) => match exit {
                Some(exit) => Some(self.end(exit)),
                None => Some(answer(false)),
            },
            (UploadStage::Installing, UploadReply::Went(landed)) => Some(
                if landed {
                    step(UploadAction::RecordIdentity, UploadStage::Recorded)
                } else {
                    answer(false)
                },
            ),
            (UploadStage::Draining, UploadReply::Chunk(input)) => match input {
                ChunkInput::Chunk { last, abort, .. } => Some(
                    step(
                        UploadAction::Recycle,
                        UploadStage::DrainRecycled { done: last || abort },
                    ),
                ),
                ChunkInput::Stop => Some(self.end(UploadSessionExit::Wireless)),
                ChunkInput::Sleep { generation } => Some(
                    self.end(UploadSessionExit::Sleep { generation }),
                ),
                ChunkInput::Render => Some(drain_until_end()),
            },
            (UploadStage::DrainRecycled { done }, UploadReply::Went(_)) => Some(
                if done {
                    answer(false)
                } else {
                    drain_until_end()
                },
            ),
            _ => None,
        }
    }

    /// What the answer to the last action does. `None`, with nothing changed,
    /// when the stage is not waiting for that kind of answer.
    pub fn advance(&mut self, stage: UploadStage, reply: UploadReply) -> (next: Option<UploadStep>)
        ensures
            match upload_next(*old(self), stage, reply) {
                Some(then) => next == Some(then.1) && *final(self) == then.0,
                None => next is None && *final(self) == *old(self),
            },
    {
        if let Some(next) = self.advance_setup(stage, reply) {
            return Some(next);
        }
        if let Some(next) = self.advance_gate(stage, reply) {
            return Some(next);
        }
        self.advance_work(stage, reply)
    }
}

/// How a finished session hands over.
#[derive(Clone, Copy, PartialEq, Eq, Structural, Debug)]
pub struct Handover {
    /// Tell a server that may be stranded in a request.
    pub interrupt: bool,
    /// Acknowledge a stop.
    pub stopped: bool,
    /// Queue the sleep again, under its own generation.
    pub sleep: Option<u32>,
}

/// How a finished session hands over. A stop that raced a sleep is answered
/// too: nobody else would.
pub fn finish_upload_session(exit: UploadSessionExit, stop_pending: bool) -> (handover: Handover)
    ensures
        handover == handover_of(exit, stop_pending),
        handover == match exit {
            UploadSessionExit::Sleep { generation } => Handover {
                interrupt: true,
                stopped: stop_pending,
                sleep: Some(generation),
            },
            UploadSessionExit::Wireless => Handover { interrupt: false, stopped: true, sleep: None },
        },
{
    match exit {
        UploadSessionExit::Sleep { generation } => Handover {
            interrupt: true,
            stopped: stop_pending,
            sleep: Some(generation),
        },
        UploadSessionExit::Wireless => Handover { interrupt: false, stopped: true, sleep: None },
    }
}

/// Whether an action changes the shelf.
pub open spec fn changes_the_shelf(action: UploadAction) -> bool {
    action is Delete || action is DeleteSidecars || action is Stage || action is WriteChunk || action
        is Install || action is RecordIdentity || action is RecoverInstalls
}

/// The stages that lie past the guard, or are on the way through it.
pub open spec fn past_the_snapshot(stage: UploadStage) -> bool {
    stage is GateReclaim || stage is GateIntent || stage is GateInstalls || stage is GateReplace
        || stage is Deleting || stage is Sidecars || stage is Staging || stage is Chunking || stage
        is Writing || stage is Recycling || stage is Abandoned || stage is Installing || stage
        is Recorded || stage is ServeReclaim || stage is ServeInstalls || stage is ServeReplace
}

/// Holds of every stage a session reaches.
pub open spec fn upload_invariant(session: UploadSession, stage: UploadStage) -> bool {
    &&& past_the_snapshot(stage) ==> session.snapshot_cleared && session.serving
    &&& session.serving ==> session.volume_open
    &&& stage is Root || stage is Snapshot || stage is Shelf || stage is Reclaim || stage
        is ShelfMade ==> session.volume_open
}

/// Nothing on the shelf changes while an old snapshot of it might be
/// believed: the catalog is proven gone before the first change.
pub proof fn law_shelf_changes_only_without_a_snapshot(session: UploadSession, stage: UploadStage, reply: UploadReply)
    requires
        upload_invariant(session, stage),
    ensures
        upload_next(session, stage, reply) matches Some(next) ==> {
            &&& upload_invariant(next.0, next.1.stage)
            &&& changes_the_shelf(next.1.action) ==> next.0.snapshot_cleared && next.0.serving
        },
{
}

/// A request runs only after the reclaim journal settled, the install journal
/// was clear and no replacement stood.
pub proof fn law_request_waits_for_recovery(session: UploadSession, stage: UploadStage, reply: UploadReply)
    ensures
        upload_next(session, stage, reply) matches Some(next) ==> {
            &&& next.1.action is Delete || next.1.action is Stage ==> stage is GateReplace && (reply
                == UploadReply::Replaced(ReplaceRecovery::Nothing) || reply
                == UploadReply::Replaced(ReplaceRecovery::Settled))
            &&& next.1.stage is GateReplace ==> stage is GateIntent && (reply
                == UploadReply::Intent(IntentRead::Absent) || reply == UploadReply::Intent(
                IntentRead::Truncated,
            ))
            &&& next.1.stage matches UploadStage::GateIntent { retried, .. } ==> (if retried {
                stage is GateInstalls
            } else {
                stage is GateReclaim && reply == UploadReply::Went(true)
            })
        },
{
}

/// Whether a request is being worked on and is owed an answer.
pub open spec fn owes_answer(stage: UploadStage) -> bool {
    stage is GateReclaim || stage is GateIntent || stage is GateInstalls || stage is GateReplace
        || stage is Deleting || stage is Sidecars || stage is Staging || stage is Chunking || stage
        is Writing || stage is Recycling || stage is Abandoned || stage is Installing || stage
        is Recorded || stage is Draining || stage is DrainRecycled
}

/// Every request is answered, and once: a request at work stays at work until
/// its answer goes out or the session ends, and no answer goes out for
/// nothing.
pub proof fn law_requests_are_answered(session: UploadSession, stage: UploadStage, reply: UploadReply)
    ensures
        upload_next(session, stage, reply) matches Some(next) ==> {
            &&& owes_answer(stage) ==> owes_answer(next.1.stage) || next.1.action is SendResult
                || next.1.action is Finish
            &&& next.1.action is SendResult ==> (owes_answer(stage) || (stage is Waiting && reply
                is Input && reply->Input_0 is Request)) && !owes_answer(next.1.stage)
            &&& !owes_answer(stage) && owes_answer(next.1.stage) ==> stage is Waiting && reply
                is Input && reply->Input_0 is Request
            &&& stage is Waiting && reply is Input && reply->Input_0 is Request ==> owes_answer(
                next.1.stage,
            ) || next.1.action is SendResult
        },
{
}

/// A book is installed only when every chunk was written, none was an abort
/// and the last one came; anything else is given up, also when the session
/// ends in the middle.
pub proof fn law_only_whole_books_are_installed(session: UploadSession, stage: UploadStage, reply: UploadReply)
    ensures
        upload_next(session, stage, reply) matches Some(next) ==> {
            &&& next.1.action is Install ==> stage == (UploadStage::Recycling {
                failed: false,
                last: true,
                aborted: false,
            })
            &&& stage is Chunking && next.1.action is Finish ==> false
            &&& next.1.action is Finish && stage is Abandoned ==> stage->Abandoned_exit is Some
        },
{
}

/// A chunk that failed to be written taints the rest of its book.
pub proof fn law_failed_chunk_is_remembered(session: UploadSession, stage: UploadStage, reply: UploadReply)
    requires
        stage is Chunking,
        stage->Chunking_failed,
    ensures
        upload_next(session, stage, reply) matches Some(next) ==> {
            ||| next.1.stage matches UploadStage::Chunking { failed } && failed
            ||| next.1.stage matches UploadStage::Recycling { failed, .. } && failed
            ||| next.1.stage is Abandoned
        },
{
}

/// A session as it runs: where it stands, and what it has done.
pub struct UploadRun {
    pub session: UploadSession,
    pub stage: UploadStage,
    pub actions: Seq<UploadAction>,
    /// How many requests it took in.
    pub requests: nat,
}

/// One more answer. One the stage is not waiting for changes nothing.
pub open spec fn upload_extend(run: UploadRun, reply: UploadReply) -> UploadRun {
    match upload_next(run.session, run.stage, reply) {
        Some(next) => UploadRun {
            session: next.0,
            stage: next.1.stage,
            actions: run.actions.push(next.1.action),
            requests: run.requests + if run.stage is Waiting && reply is Input && reply->Input_0
                is Request {
                1nat
            } else {
                0
            },
        },
        None => run,
    }
}

/// A session fed the answers in order.
pub open spec fn upload_run(replies: Seq<UploadReply>) -> UploadRun
    decreases replies.len(),
{
    if replies.len() == 0 {
        UploadRun {
            session: UploadSession {
                volume_open: false,
                serving: false,
                snapshot_cleared: false,
            },
            stage: UploadStage::Card,
            actions: seq![UploadAction::ProbeCard],
            requests: 0,
        }
    } else {
        upload_extend(upload_run(replies.drop_last()), replies.last())
    }
}

pub open spec fn results_in(actions: Seq<UploadAction>) -> nat
    decreases actions.len(),
{
    if actions.len() == 0 {
        0
    } else {
        results_in(actions.drop_last()) + if actions.last() is SendResult { 1nat } else { 0 }
    }
}

proof fn lemma_upload_run(replies: Seq<UploadReply>)
    ensures
        ({
            let run = upload_run(replies);
            &&& upload_invariant(run.session, run.stage)
            &&& !(run.stage is Over) ==> results_in(run.actions) + (if owes_answer(run.stage) {
                1nat
            } else {
                0
            }) == run.requests
            &&& results_in(run.actions) <= run.requests
        }),
    decreases replies.len(),
{
    if replies.len() == 0 {
        let first = UploadAction::ProbeCard;
        assert(seq![first].drop_last() =~= Seq::<UploadAction>::empty());
        assert(results_in(Seq::<UploadAction>::empty()) == 0);
    } else {
        let before = upload_run(replies.drop_last());
        let reply = replies.last();
        lemma_upload_run(replies.drop_last());
        law_shelf_changes_only_without_a_snapshot(before.session, before.stage, reply);
        law_requests_are_answered(before.session, before.stage, reply);
        if let Some(next) = upload_next(before.session, before.stage, reply) {
            assert(before.actions.push(next.1.action).drop_last() =~= before.actions);
            assert(next.1.action is Finish <==> next.1.stage is Over) by {
                lemma_finish_is_over(before.session, before.stage, reply);
            }
        }
    }
}

proof fn lemma_finish_is_over(session: UploadSession, stage: UploadStage, reply: UploadReply)
    ensures
        upload_next(session, stage, reply) matches Some(next) ==> (next.1.action is Finish
            <==> next.1.stage is Over),
        stage is Over ==> upload_next(session, stage, reply) is None,
{
}

/// Over a whole session every request is answered once: whenever it waits for
/// the next one, as many answers went out as requests came in.
pub proof fn law_session_answers_each_request_once(replies: Seq<UploadReply>)
    ensures
        ({
            let run = upload_run(replies);
            &&& results_in(run.actions) <= run.requests
            &&& run.stage is Waiting || run.stage is Answered ==> results_in(run.actions)
                == run.requests
        }),
{
    lemma_upload_run(replies);
}

/// Over a whole session nothing on the shelf is touched before the catalog
/// snapshot is proven gone.
pub proof fn law_session_keeps_the_shelf_until_the_snapshot_is_gone(replies: Seq<UploadReply>, reply: UploadReply)
    ensures
        ({
            let run = upload_run(replies);
            upload_next(run.session, run.stage, reply) matches Some(next) ==> (changes_the_shelf(
                next.1.action,
            ) ==> next.0.snapshot_cleared)
        }),
{
    lemma_upload_run(replies);
    let run = upload_run(replies);
    law_shelf_changes_only_without_a_snapshot(run.session, run.stage, reply);
}

pub open spec fn nothing_to_replay(intent: IntentRead) -> bool {
    intent is Absent || intent is Truncated
}

pub open spec fn handover_of(exit: UploadSessionExit, stop_pending: bool) -> Handover {
    match exit {
        UploadSessionExit::Sleep { generation } => Handover {
            interrupt: true,
            stopped: stop_pending,
            sleep: Some(generation),
        },
        UploadSessionExit::Wireless => Handover { interrupt: false, stopped: true, sleep: None },
    }
}

/// A journal is clear only if there is nothing in it that may be replayed: one
/// that stands, that this build cannot read or that the card will not show is
/// none.
pub proof fn law_unread_journal_is_not_clear(intent: IntentRead)
    ensures
        nothing_to_replay(intent) <==> !(intent is Valid || intent is Unrecognized || intent is Fault),
{
}

/// A sleep that ended a session is queued again under its own generation, and
/// the server is told that its request will not be answered. A stop is
/// acknowledged whenever one was asked for, whatever ended the session.
pub proof fn law_session_hands_over_what_ended_it(exit: UploadSessionExit, stop_pending: bool)
    ensures
        ({
            let handover = handover_of(exit, stop_pending);
            &&& exit matches UploadSessionExit::Sleep { generation } ==> handover.sleep == Some(
                generation,
            ) && handover.interrupt
            &&& exit is Wireless ==> handover.sleep is None && !handover.interrupt
            &&& handover.stopped <==> stop_pending || exit is Wireless
        }),
{
}

} // verus!
