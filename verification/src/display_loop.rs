//! The display task's loop, as a machine: what a render, a sleep request, a
//! storage command and a spare slice of time each come to.
//!
//! The panel, the refresh planner and the card stay outside. What is decided
//! here is the order of things: what is made resident before a frame is
//! drawn, when the panel is initialised, what a failed flush costs, and that
//! nothing owed to the card or the app is left behind by a sleep.
use vstd::prelude::*;
use crate::delivery::ChapterCursor;
use crate::messages::{AppView, StorageCommand, TypeSettings};

verus! {

/// What the loop reads or rewrites of a render request.
#[derive(Clone, Copy, PartialEq, Eq, Structural, Debug)]
pub struct RenderRequest {
    pub view: AppView,
    pub book_id: u32,
    pub page: u32,
    pub selection: u16,
    pub portrait: bool,
    pub type_settings: TypeSettings,
}

/// What the planner, the store and the session say at one step.
#[derive(Clone, Copy, PartialEq, Eq, Structural, Debug)]
pub struct DisplayFacts {
    pub session_active: bool,
    pub screen_on: bool,
    pub last_request: Option<RenderRequest>,
    /// The request's book is on the card.
    pub is_sd: bool,
    /// The catalog index of the request's book.
    pub book_index: Option<u16>,
    pub text_holds_toc: bool,
    /// The request asks for the custom font.
    pub custom_family: bool,
    /// The custom font is built in.
    pub builtin_custom: bool,
    /// The custom font is on the card.
    pub card_font: bool,
}

/// What the store holds of the book a command names.
#[derive(Clone, Copy, PartialEq, Eq, Structural, Debug)]
pub struct ResidentPage {
    pub on_card: bool,
    /// The layout the store is in.
    pub type_settings: TypeSettings,
    pub portrait: bool,
    /// The loaded section covers the command's page.
    pub covers: bool,
}

/// Why a sleep was refused.
#[derive(Clone, Copy, PartialEq, Eq, Structural, Debug)]
pub enum SleepRefusal {
    UploadQueued,
    UploadLost,
    ProgressUnwritten,
}

/// What the sleep sequence asks for next.
#[derive(Clone, Copy, PartialEq, Eq, Structural, Debug)]
pub enum SleepAction {
    TakeQueued,
    FlushProgress,
    Refuse(SleepRefusal),
    Proceed,
}

/// What the sleep sequence makes of a command it drained.
#[derive(Clone, Copy, PartialEq, Eq, Structural, Debug)]
pub enum Drained {
    Apply,
    RequeueAndRefuse,
}

/// Which way a storage command goes.
#[derive(Clone, Copy, PartialEq, Eq, Structural, Debug)]
pub enum LoopArm {
    UploadSession,
    RefusedUpload,
    Apply,
}

#[derive(Clone, Copy, PartialEq, Eq, Structural, Debug)]
pub enum DisplayAction {
    /// The turn is over.
    Wait,
    /// Slide the Library page over the selection. Answer: `Done`.
    EnsureFolderPage { selection: u16, portrait: bool },
    /// Read the book's catalog row. Answer: `Done`.
    LoadActiveEntry { index: u16 },
    /// Slide the chapter window over the selection. Answer: `Done`.
    EnsureTocWindow { index: u16, selection: u16, portrait: bool },
    /// Draw the frame with the font on the card. Answer: `Went`.
    PaintCustom(RenderRequest),
    /// Draw the frame. Answer: `Done`.
    Paint(RenderRequest),
    /// Bring the panel up. Answer: `Went`.
    InitPanel,
    /// Send the frame to the panel, in the mode the planner has for it.
    /// Answer: `Went`.
    Flush { request: RenderRequest, prestaged: bool },
    /// Tell the planner of the frame and keep it. Answer: `Done`.
    RecordRender(RenderRequest),
    /// Tell the planner that the panel is unknown. Answer: `Done`.
    RecordFailure,
    /// Find the true chapter of the page. Answer: `Chapter`.
    TrackChapter { page: u32 },
    /// Acknowledge the render. Answer: `Done`.
    Acknowledge { settled: bool, cursor: Option<ChapterCursor> },
    /// Wait out the panel and stage the frame as the previous one. Answer:
    /// `Went`.
    Prestage,
    /// Begin a new sleep sequence for a storage queue that holds this many
    /// commands. Answer: `Done`.
    BeginSequence { queue_capacity: usize },
    /// Ask whether a held event lets the drain go on. Answer: `Went`.
    AskMayProceed,
    /// Ask the sleep sequence for its next step. Answer: `Sleep`.
    NextSleep,
    /// Take a queued storage command. Answer: `Taken`.
    TakeQueued,
    /// Tell the sequence that the queue is empty. Answer: `Done`.
    ReportEmpty,
    /// Ask what becomes of a drained command. Answer: `Drained`.
    AskDrained(StorageCommand),
    /// Run a storage command. Answer: `Done`.
    Apply(StorageCommand),
    /// Tell the sequence that the drained command was run. Answer: `Done`.
    ReportApplied,
    /// Put a drained command back. Answer: `Went`.
    Requeue(StorageCommand),
    /// Tell the sequence whether the queue took the command back. Answer:
    /// `Done`.
    ReportRequeued { kept: bool },
    /// Write the owed progress. Answer: `Went`, with whether nothing is owed
    /// any more.
    FlushProgress,
    /// Tell the sequence what became of the progress. Answer: `Done`.
    ReportFlushed { stored: bool },
    /// Refuse the sleep to both waiting tasks. Answer: `Done`.
    RefuseSleep { generation: u32, refusal: Option<SleepRefusal> },
    /// Draw the sleep screen: of the frame last shown, or, if there is none, of
    /// the saved state. Answer: `Done`.
    PaintSleep { shown: Option<RenderRequest> },
    /// Send the sleep screen with the full waveform. Answer: `Went`.
    FlushSleep { prestaged: bool },
    /// Power the panel down. Answer: `Went`.
    SleepPanel,
    /// Tell the planner the panel sleeps, and record whether it holds the
    /// sleep screen. Answer: `Done`.
    RecordSleep { frame_settled: bool },
    /// Acknowledge the sleep and hold still. Answer: `Done`.
    ParkAsleep { generation: u32 },
    /// Record that the panel holds no sleep screen, forget the panel and
    /// report the failure. Answer: `Done`.
    FailSleep { generation: u32 },
    /// Serve uploads until the session ends. Answer: `Done`.
    ServeUploads,
    /// Ask whether the command begins an open transaction, under this request
    /// id and catalog epoch, that will stage a book and not refuse it. Answer:
    /// `Went`.
    AskWillStage { command: StorageCommand, latest_request_id: u32, catalog_epoch: u32 },
    /// Ask what is resident of the command's book. Answer: `Resident`.
    AskResident(StorageCommand),
    /// Draw the loading plate. Answer: `Done`.
    PaintPlate(RenderRequest),
    /// Send the plate to the panel, in the mode the planner has for it.
    /// Answer: `Went`.
    FlushPlate { request: RenderRequest, prestaged: bool },
}

#[derive(Clone, Copy, PartialEq, Eq, Structural, Debug)]
pub enum DisplayReply {
    Done,
    Went(bool),
    Resident(ResidentPage),
    Chapter(Option<u16>),
    Sleep(SleepAction),
    Taken(Option<StorageCommand>),
    Drained(Drained),
}

#[derive(Clone, Copy, PartialEq, Eq, Structural, Debug)]
pub enum DisplayStage {
    Idle,
    Ending,
    FolderReady(RenderRequest),
    EntryReady(RenderRequest, u16),
    TocReady(RenderRequest),
    CustomPainted(RenderRequest),
    Painted(RenderRequest),
    PanelUp(RenderRequest),
    Flushed(RenderRequest),
    Recorded(RenderRequest),
    ChapterFound(RenderRequest),
    Acknowledged,
    Prestaged,
    FailureRecorded,
    SequenceBegun { generation: u32 },
    MayDrain { generation: u32 },
    Draining { generation: u32 },
    Taking { generation: u32 },
    Judging { generation: u32, command: StorageCommand },
    Applied { generation: u32 },
    AppliedReported { generation: u32 },
    Requeued { generation: u32 },
    ProgressFlushed { generation: u32 },
    FlushReported { generation: u32, stored: bool },
    /// The sequence was told; its next step is due.
    Reported { generation: u32 },
    /// The drain is over; a held event still has a say.
    MaySleep { generation: u32 },
    SleepPainted { generation: u32 },
    SleepFlushed { generation: u32 },
    PanelSlept { generation: u32, frame_settled: bool },
    SleepRecorded { generation: u32 },
    WillStage(StorageCommand),
    Resident(StorageCommand),
    PlatePainted(StorageCommand, RenderRequest),
    PlateFlushed(StorageCommand, RenderRequest),
    PlateRecorded(StorageCommand),
}

#[derive(Clone, Copy, PartialEq, Eq, Structural, Debug)]
pub struct DisplayStep {
    pub action: DisplayAction,
    pub stage: DisplayStage,
}

/// What the loop keeps of the panel: whether its previous-frame plane is
/// known to hold the frame on screen.
#[derive(Clone, Copy, PartialEq, Eq, Structural, Debug)]
pub struct DisplayLoop {
    pub prev_prestaged: bool,
}

pub open spec fn go(action: DisplayAction, stage: DisplayStage) -> DisplayStep {
    DisplayStep { action, stage }
}

pub open spec fn idle() -> DisplayStep {
    go(DisplayAction::Wait, DisplayStage::Idle)
}

/// Whether a request shows another view or book than the frame before it.
pub open spec fn context_changed(last: Option<RenderRequest>, request: RenderRequest) -> bool {
    match last {
        Some(last) => last.view != request.view || last.book_id != request.book_id,
        None => true,
    }
}

/// Whether a page is drawn with the font on the card.
pub open spec fn draws_card_font(request: RenderRequest, facts: DisplayFacts) -> bool {
    request.view == AppView::Reading && facts.is_sd && facts.custom_family && !facts.builtin_custom
        && facts.card_font
}

pub open spec fn paint(request: RenderRequest, facts: DisplayFacts) -> DisplayStep {
    if draws_card_font(request, facts) {
        go(DisplayAction::PaintCustom(request), DisplayStage::CustomPainted(request))
    } else {
        go(DisplayAction::Paint(request), DisplayStage::Painted(request))
    }
}

pub open spec fn toc_or_paint(request: RenderRequest, index: u16, facts: DisplayFacts) -> DisplayStep {
    if request.view == AppView::Chapters && facts.text_holds_toc {
        go(
            DisplayAction::EnsureTocWindow {
                index,
                selection: request.selection,
                portrait: request.portrait,
            },
            DisplayStage::TocReady(request),
        )
    } else {
        paint(request, facts)
    }
}

/// What a render needs resident before it can be drawn. Nothing is read while
/// a sync session owns the card.
pub open spec fn prepare(request: RenderRequest, facts: DisplayFacts) -> DisplayStep {
    if facts.session_active {
        paint(request, facts)
    } else if request.view == AppView::Library {
        go(
            DisplayAction::EnsureFolderPage {
                selection: request.selection,
                portrait: request.portrait,
            },
            DisplayStage::FolderReady(request),
        )
    } else if !facts.is_sd {
        paint(request, facts)
    } else {
        match facts.book_index {
            Some(index) => if context_changed(facts.last_request, request) {
                go(DisplayAction::LoadActiveEntry { index }, DisplayStage::EntryReady(request, index))
            } else {
                toc_or_paint(request, index, facts)
            },
            None => paint(request, facts),
        }
    }
}

/// The panel is brought up for the first frame after boot or sleep.
pub open spec fn painted(display: DisplayLoop, request: RenderRequest, facts: DisplayFacts) -> DisplayStep {
    if !facts.screen_on && facts.last_request is None {
        go(DisplayAction::InitPanel, DisplayStage::PanelUp(request))
    } else {
        go(
            DisplayAction::Flush { request, prestaged: display.prev_prestaged },
            DisplayStage::Flushed(request),
        )
    }
}

pub open spec fn refuse_sleep(generation: u32, refusal: Option<SleepRefusal>) -> DisplayStep {
    go(DisplayAction::RefuseSleep { generation, refusal }, DisplayStage::Ending)
}

pub open spec fn acknowledge(settled: bool, cursor: Option<ChapterCursor>, stage: DisplayStage) -> DisplayStep {
    go(DisplayAction::Acknowledge { settled, cursor }, stage)
}

/// The stages of a render.
pub open spec fn render_next(display: DisplayLoop, stage: DisplayStage, reply: DisplayReply, facts: DisplayFacts) -> Option<(DisplayLoop, DisplayStep)> {
    let unstaged = DisplayLoop { prev_prestaged: false };
    match (stage, reply) {
        (DisplayStage::FolderReady(request), DisplayReply::Done) => Some((display, paint(request, facts))),
        (DisplayStage::EntryReady(request, index), DisplayReply::Done) => Some(
            (display, toc_or_paint(request, index, facts)),
        ),
        (DisplayStage::TocReady(request), DisplayReply::Done) => Some((display, paint(request, facts))),
        (DisplayStage::CustomPainted(request), DisplayReply::Went(drawn)) => Some(
            (
                display,
                if drawn {
                    painted(display, request, facts)
                } else {
                    go(DisplayAction::Paint(request), DisplayStage::Painted(request))
                },
            ),
        ),
        (DisplayStage::Painted(request), DisplayReply::Done) => Some(
            (display, painted(display, request, facts)),
        ),
        (DisplayStage::PanelUp(request), DisplayReply::Went(up)) => Some(
            (
                unstaged,
                if up {
                    go(
                        DisplayAction::Flush { request, prestaged: false },
                        DisplayStage::Flushed(request),
                    )
                } else {
                    acknowledge(false, None, DisplayStage::Ending)
                },
            ),
        ),
        (DisplayStage::Flushed(request), DisplayReply::Went(flushed)) => Some(
            if flushed {
                (display, go(DisplayAction::RecordRender(request), DisplayStage::Recorded(request)))
            } else {
                (unstaged, go(DisplayAction::RecordFailure, DisplayStage::FailureRecorded))
            },
        ),
        (DisplayStage::FailureRecorded, DisplayReply::Done) => Some(
            (display, acknowledge(false, None, DisplayStage::Ending)),
        ),
        (DisplayStage::Recorded(request), DisplayReply::Done) => Some(
            (
                display,
                if request.view == AppView::Reading {
                    go(
                        DisplayAction::TrackChapter { page: request.page },
                        DisplayStage::ChapterFound(request),
                    )
                } else {
                    acknowledge(true, None, DisplayStage::Acknowledged)
                },
            ),
        ),
        (DisplayStage::ChapterFound(request), DisplayReply::Chapter(chapter)) => Some(
            (
                display,
                acknowledge(
                    true,
                    match chapter {
                        Some(current_chapter) => Some(
                            ChapterCursor {
                                book_id: request.book_id,
                                page: request.page,
                                current_chapter,
                            },
                        ),
                        None => None,
                    },
                    DisplayStage::Acknowledged,
                ),
            ),
        ),
        (DisplayStage::Acknowledged, DisplayReply::Done) => Some(
            (display, go(DisplayAction::Prestage, DisplayStage::Prestaged)),
        ),
        (DisplayStage::Prestaged, DisplayReply::Went(staged)) => Some(
            (DisplayLoop { prev_prestaged: staged }, idle()),
        ),
        (DisplayStage::Ending, DisplayReply::Done) => Some((display, idle())),
        _ => None,
    }
}

/// The stages of a sleep.
pub open spec fn sleep_next(display: DisplayLoop, stage: DisplayStage, reply: DisplayReply, facts: DisplayFacts) -> Option<(DisplayLoop, DisplayStep)> {
    match (stage, reply) {
        (DisplayStage::SequenceBegun { generation }, DisplayReply::Done) => Some(
            (display, go(DisplayAction::AskMayProceed, DisplayStage::MayDrain { generation })),
        ),
        (DisplayStage::MayDrain { generation }, DisplayReply::Went(may)) => Some(
            (
                display,
                if may {
                    go(DisplayAction::NextSleep, DisplayStage::Draining { generation })
                } else {
                    refuse_sleep(generation, None)
                },
            ),
        ),
        (DisplayStage::Draining { generation }, DisplayReply::Sleep(next)) => Some(
            (
                display,
                match next {
                    SleepAction::TakeQueued => go(
                        DisplayAction::TakeQueued,
                        DisplayStage::Taking { generation },
                    ),
                    SleepAction::FlushProgress => go(
                        DisplayAction::FlushProgress,
                        DisplayStage::ProgressFlushed { generation },
                    ),
                    SleepAction::Refuse(refusal) => refuse_sleep(generation, Some(refusal)),
                    SleepAction::Proceed => go(
                        DisplayAction::AskMayProceed,
                        DisplayStage::MaySleep { generation },
                    ),
                },
            ),
        ),
        (DisplayStage::Taking { generation }, DisplayReply::Taken(command)) => Some(
            (
                display,
                match command {
                    Some(command) => go(
                        DisplayAction::AskDrained(command),
                        DisplayStage::Judging { generation, command },
                    ),
                    None => go(DisplayAction::ReportEmpty, DisplayStage::Reported { generation }),
                },
            ),
        ),
        (DisplayStage::Judging { generation, command }, DisplayReply::Drained(verdict)) => Some(
            (
                display,
                match verdict {
                    Drained::Apply => go(
                        DisplayAction::Apply(command),
                        DisplayStage::Applied { generation },
                    ),
                    Drained::RequeueAndRefuse => go(
                        DisplayAction::Requeue(command),
                        DisplayStage::Requeued { generation },
                    ),
                },
            ),
        ),
        (DisplayStage::Applied { generation }, DisplayReply::Done) => Some(
            (
                display,
                go(DisplayAction::ReportApplied, DisplayStage::AppliedReported { generation }),
            ),
        ),
        (DisplayStage::AppliedReported { generation }, DisplayReply::Done) => Some(
            (display, go(DisplayAction::AskMayProceed, DisplayStage::MayDrain { generation })),
        ),
        (DisplayStage::Requeued { generation }, DisplayReply::Went(kept)) => Some(
            (
                display,
                go(DisplayAction::ReportRequeued { kept }, DisplayStage::Reported { generation }),
            ),
        ),
        (DisplayStage::ProgressFlushed { generation }, DisplayReply::Went(stored)) => Some(
            (
                display,
                go(
                    DisplayAction::ReportFlushed { stored },
                    DisplayStage::FlushReported { generation, stored },
                ),
            ),
        ),
        (DisplayStage::FlushReported { generation, .. }, DisplayReply::Done) => Some(
            (display, go(DisplayAction::NextSleep, DisplayStage::Draining { generation })),
        ),
        (DisplayStage::Reported { generation }, DisplayReply::Done) => Some(
            (display, go(DisplayAction::NextSleep, DisplayStage::Draining { generation })),
        ),
        (DisplayStage::MaySleep { generation }, DisplayReply::Went(may)) => Some(
            (
                display,
                if may {
                    go(
                        DisplayAction::PaintSleep { shown: facts.last_request },
                        DisplayStage::SleepPainted { generation },
                    )
                } else {
                    refuse_sleep(generation, None)
                },
            ),
        ),
        (DisplayStage::SleepPainted { generation }, DisplayReply::Done) => Some(
            (
                display,
                go(
                    DisplayAction::FlushSleep { prestaged: display.prev_prestaged },
                    DisplayStage::SleepFlushed { generation },
                ),
            ),
        ),
        (DisplayStage::SleepFlushed { generation }, DisplayReply::Went(frame_settled)) => Some(
            (
                DisplayLoop { prev_prestaged: false },
                go(DisplayAction::SleepPanel, DisplayStage::PanelSlept { generation, frame_settled }),
            ),
        ),
        (DisplayStage::PanelSlept { generation, frame_settled }, DisplayReply::Went(slept)) => Some(
            (
                display,
                if slept {
                    go(
                        DisplayAction::RecordSleep { frame_settled },
                        DisplayStage::SleepRecorded { generation },
                    )
                } else {
                    go(DisplayAction::FailSleep { generation }, DisplayStage::Ending)
                },
            ),
        ),
        (DisplayStage::SleepRecorded { generation }, DisplayReply::Done) => Some(
            (display, go(DisplayAction::ParkAsleep { generation }, DisplayStage::Ending)),
        ),
        _ => None,
    }
}

/// The page an open or extend asks for, and the layout it asks for it in.
#[derive(Clone, Copy, PartialEq, Eq, Structural, Debug)]
pub struct PlateTarget {
    pub book_id: u32,
    pub page: u32,
    pub type_settings: TypeSettings,
    pub portrait: bool,
}

pub open spec fn plate_target(command: StorageCommand) -> Option<PlateTarget> {
    match command {
        StorageCommand::OpenBook { book_id, target_pages, type_settings, portrait, .. } => Some(
            PlateTarget { book_id, page: target_pages, type_settings, portrait },
        ),
        StorageCommand::ExtendSection { book_id, target_pages, type_settings, portrait, .. } => Some(
            PlateTarget { book_id, page: target_pages, type_settings, portrait },
        ),
        _ => None,
    }
}

/// Whether the page is there already, under the layout it is asked for in.
pub open spec fn is_resident(target: PlateTarget, resident: ResidentPage) -> bool {
    resident.type_settings == target.type_settings && resident.portrait == target.portrait
        && resident.covers
}

/// The loading plate an open paints before it makes the reader wait: none for
/// a book that is not on the card, for a page that is already resident under
/// its layout, or before any frame was shown.
pub open spec fn plate(command: StorageCommand, resident: ResidentPage, last: Option<RenderRequest>) -> Option<RenderRequest> {
    match (plate_target(command), last) {
        (Some(target), Some(last)) => if resident.on_card && !is_resident(target, resident) {
            Some(
                RenderRequest {
                    view: AppView::Reading,
                    book_id: target.book_id,
                    page: target.page,
                    type_settings: target.type_settings,
                    ..last
                },
            )
        } else {
            None
        },
        _ => None,
    }
}

/// The stages of a storage command and its loading plate.
pub open spec fn plate_next(display: DisplayLoop, stage: DisplayStage, reply: DisplayReply, facts: DisplayFacts) -> Option<(DisplayLoop, DisplayStep)> {
    let unstaged = DisplayLoop { prev_prestaged: false };
    match (stage, reply) {
        (DisplayStage::WillStage(command), DisplayReply::Went(stages)) => Some(
            (
                display,
                if stages && facts.screen_on {
                    go(DisplayAction::AskResident(command), DisplayStage::Resident(command))
                } else {
                    go(DisplayAction::Apply(command), DisplayStage::Ending)
                },
            ),
        ),
        (DisplayStage::Resident(command), DisplayReply::Resident(resident)) => Some(
            (
                display,
                match plate(command, resident, facts.last_request) {
                    Some(request) => go(
                        DisplayAction::PaintPlate(request),
                        DisplayStage::PlatePainted(command, request),
                    ),
                    None => go(DisplayAction::Apply(command), DisplayStage::Ending),
                },
            ),
        ),
        (DisplayStage::PlatePainted(command, request), DisplayReply::Done) => Some(
            (
                display,
                go(
                    DisplayAction::FlushPlate { request, prestaged: display.prev_prestaged },
                    DisplayStage::PlateFlushed(command, request),
                ),
            ),
        ),
        (DisplayStage::PlateFlushed(command, request), DisplayReply::Went(flushed)) => Some(
            (
                unstaged,
                go(
                    if flushed {
                        DisplayAction::RecordRender(request)
                    } else {
                        DisplayAction::RecordFailure
                    },
                    DisplayStage::PlateRecorded(command),
                ),
            ),
        ),
        (DisplayStage::PlateRecorded(command), DisplayReply::Done) => Some(
            (display, go(DisplayAction::Apply(command), DisplayStage::Ending)),
        ),
        _ => None,
    }
}

fn go_to(action: DisplayAction, stage: DisplayStage) -> (step: DisplayStep)
    ensures
        step == go(action, stage),
{
    DisplayStep { action, stage }
}

/// The reader-view frame to paint as a loading plate before an open or extend
/// that cannot be answered from the loaded section.
pub fn open_loading_plate_request(
    command: &StorageCommand,
    resident: &ResidentPage,
    last_request: Option<RenderRequest>,
) -> (request: Option<RenderRequest>)
    ensures
        request == plate(*command, *resident, last_request),
{
    let target = match *command {
        StorageCommand::OpenBook { book_id, target_pages, type_settings, portrait, .. } => PlateTarget {
            book_id,
            page: target_pages,
            type_settings,
            portrait,
        },
        StorageCommand::ExtendSection { book_id, target_pages, type_settings, portrait, .. } => PlateTarget {
            book_id,
            page: target_pages,
            type_settings,
            portrait,
        },
        _ => return None,
    };
    if !resident.on_card {
        return None;
    }
    if resident.type_settings == target.type_settings && resident.portrait == target.portrait
        && resident.covers {
        return None;
    }
    match last_request {
        Some(last) => Some(
            RenderRequest {
                view: AppView::Reading,
                book_id: target.book_id,
                page: target.page,
                type_settings: target.type_settings,
                ..last
            },
        ),
        None => None,
    }
}

/// The orientation a storage command is answered in: that of the last frame,
/// and portrait before any.
pub fn last_portrait(last_request: &Option<RenderRequest>) -> (portrait: bool)
    ensures
        portrait == portrait_of(*last_request),
        portrait == match *last_request {
            Some(last) => last.portrait,
            None => true,
        },
{
    match last_request {
        Some(last) => last.portrait,
        None => true,
    }
}

/// The page a background step must leave resident: where the reader is, which
/// only a Reading frame of that book says, and the book's start otherwise.
pub fn reader_page(last_request: &Option<RenderRequest>, book_id: u32) -> (page: u32)
    ensures
        page == page_shown(*last_request, book_id),
        page == match *last_request {
            Some(last) => if last.book_id == book_id && last.view == AppView::Reading {
                last.page
            } else {
                0
            },
            None => 0,
        },
{
    match last_request {
        Some(last) => if last.book_id == book_id && last.view == AppView::Reading {
            last.page
        } else {
            0
        },
        None => 0,
    }
}

/// What stands in the way of a background slice, and what asks for one.
#[derive(Clone, Copy, PartialEq, Eq, Structural, Debug)]
pub struct SliceGates {
    pub build_pending: bool,
    pub evidence_pending: bool,
    /// A book is open whose bytes this session has not settled.
    pub evidence_unsettled: bool,
    pub session_active: bool,
    pub storage_may_run: bool,
    pub text_holds_toc: bool,
}

/// Whether the loop should spend a slice on work it owes itself. It stands
/// down for a sync session, for a held event and for the chapter overview,
/// which borrows the arena a build writes through.
pub fn background_step_due(gates: &SliceGates) -> (due: bool)
    ensures
        due == slice_is_due(*gates),
        due == ((gates.build_pending || gates.evidence_pending || gates.evidence_unsettled)
            && !gates.session_active && gates.storage_may_run && !gates.text_holds_toc),
{
    (gates.build_pending || gates.evidence_pending || gates.evidence_unsettled)
        && !gates.session_active && gates.storage_may_run && !gates.text_holds_toc
}

/// How long to wait before a slice: the backoff of a walk that fails to
/// begin, or long enough for the app to get its next frame in.
pub fn background_wait_ms(attempts: u8, retry_delay_ms: u64, settle_ms: u64) -> (wait: u64)
    ensures
        wait == wait_before_slice(attempts, retry_delay_ms, settle_ms),
        wait == if attempts > 0 { retry_delay_ms } else { settle_ms },
{
    if attempts > 0 {
        retry_delay_ms
    } else {
        settle_ms
    }
}

/// How long the task holds still for a deep sleep that never comes.
pub const ABANDONED_HANDSHAKE_CEILING_SECS: u64 = 5;

/// What ended a wait for the power task.
#[derive(Clone, Copy, PartialEq, Eq, Structural, Debug)]
pub enum ParkEvent {
    Resumed { generation: u32 },
    Deadline,
}

/// Whether a parked task goes back to its loop: when its own sleep was
/// abandoned or the ceiling passed, and not for a resume that was left over
/// from another sleep.
pub fn park_ends(generation: u32, event: ParkEvent) -> (ends: bool)
    ensures
        ends == wakes(generation, event),
        ends == (event == ParkEvent::Deadline || event == ParkEvent::Resumed { generation }),
{
    match event {
        ParkEvent::Resumed { generation: resumed } => resumed == generation,
        ParkEvent::Deadline => true,
    }
}

impl DisplayLoop {
    /// A panel whose previous-frame plane is unknown.
    pub fn new() -> (display: DisplayLoop)
        ensures
            !display.prev_prestaged,
    {
        DisplayLoop { prev_prestaged: false }
    }

    fn paint(&self, request: RenderRequest, facts: &DisplayFacts) -> (step: DisplayStep)
        ensures
            step == paint(request, *facts),
    {
        if request.view == AppView::Reading && facts.is_sd && facts.custom_family
            && !facts.builtin_custom && facts.card_font {
            go_to(DisplayAction::PaintCustom(request), DisplayStage::CustomPainted(request))
        } else {
            go_to(DisplayAction::Paint(request), DisplayStage::Painted(request))
        }
    }

    fn toc_or_paint(&self, request: RenderRequest, index: u16, facts: &DisplayFacts) -> (step: DisplayStep)
        ensures
            step == toc_or_paint(request, index, *facts),
    {
        if request.view == AppView::Chapters && facts.text_holds_toc {
            go_to(
                DisplayAction::EnsureTocWindow {
                    index,
                    selection: request.selection,
                    portrait: request.portrait,
                },
                DisplayStage::TocReady(request),
            )
        } else {
            self.paint(request, facts)
        }
    }

    fn painted(&self, request: RenderRequest, facts: &DisplayFacts) -> (step: DisplayStep)
        ensures
            step == painted(*self, request, *facts),
    {
        if !facts.screen_on && facts.last_request.is_none() {
            go_to(DisplayAction::InitPanel, DisplayStage::PanelUp(request))
        } else {
            go_to(
                DisplayAction::Flush { request, prestaged: self.prev_prestaged },
                DisplayStage::Flushed(request),
            )
        }
    }

    /// Starts a render: what has to be resident first, or the painting.
    pub fn begin_render(&self, request: RenderRequest, facts: &DisplayFacts) -> (step: DisplayStep)
        ensures
            step == prepare(request, *facts),
    {
        if facts.session_active {
            return self.paint(request, facts);
        }
        if request.view == AppView::Library {
            return go_to(
                DisplayAction::EnsureFolderPage {
                    selection: request.selection,
                    portrait: request.portrait,
                },
                DisplayStage::FolderReady(request),
            );
        }
        if !facts.is_sd {
            return self.paint(request, facts);
        }
        match facts.book_index {
            Some(index) => {
                let changed: bool = match facts.last_request {
                    Some(last) => last.view != request.view || last.book_id != request.book_id,
                    None => true,
                };
                if changed {
                    go_to(
                        DisplayAction::LoadActiveEntry { index },
                        DisplayStage::EntryReady(request, index),
                    )
                } else {
                    self.toc_or_paint(request, index, facts)
                }
            },
            None => self.paint(request, facts),
        }
    }

    /// Starts a sleep with a sequence of its own. Before anything is drained a
    /// held event is asked about.
    pub fn begin_sleep(&self, generation: u32, queue_capacity: usize) -> (step: DisplayStep)
        ensures
            step == go(
                DisplayAction::BeginSequence { queue_capacity },
                DisplayStage::SequenceBegun { generation },
            ),
    {
        go_to(
            DisplayAction::BeginSequence { queue_capacity },
            DisplayStage::SequenceBegun { generation },
        )
    }

    /// Starts a storage command down the arm it belongs to. The request id and
    /// the catalog epoch in force say whether an open would still be acted on.
    pub fn begin_storage(&self, command: StorageCommand, arm: LoopArm, latest_request_id: u32, catalog_epoch: u32) -> (step: DisplayStep)
        ensures
            step == storage_begun(command, arm, latest_request_id, catalog_epoch),
            step == match arm {
                LoopArm::UploadSession => go(DisplayAction::ServeUploads, DisplayStage::Ending),
                LoopArm::RefusedUpload => idle(),
                LoopArm::Apply => go(
                    DisplayAction::AskWillStage { command, latest_request_id, catalog_epoch },
                    DisplayStage::WillStage(command),
                ),
            },
    {
        match arm {
            LoopArm::UploadSession => go_to(DisplayAction::ServeUploads, DisplayStage::Ending),
            LoopArm::RefusedUpload => go_to(DisplayAction::Wait, DisplayStage::Idle),
            LoopArm::Apply => go_to(
                DisplayAction::AskWillStage { command, latest_request_id, catalog_epoch },
                DisplayStage::WillStage(command),
            ),
        }
    }

    fn advance_render(&mut self, stage: DisplayStage, reply: DisplayReply, facts: &DisplayFacts) -> (step: Option<DisplayStep>)
        ensures
            match render_next(*old(self), stage, reply, *facts) {
                Some(next) => step == Some(next.1) && *final(self) == next.0,
                None => step is None && *final(self) == *old(self),
            },
    {
        match (stage, reply) {
            (DisplayStage::FolderReady(request), DisplayReply::Done)
            | (DisplayStage::TocReady(request), DisplayReply::Done) => Some(
                self.paint(request, facts),
            ),
            (DisplayStage::EntryReady(request, index), DisplayReply::Done) => Some(
                self.toc_or_paint(request, index, facts),
            ),
            (DisplayStage::CustomPainted(request), DisplayReply::Went(drawn)) => Some(
                if drawn {
                    self.painted(request, facts)
                } else {
                    go_to(DisplayAction::Paint(request), DisplayStage::Painted(request))
                },
            ),
            (DisplayStage::Painted(request), DisplayReply::Done) => Some(
                self.painted(request, facts),
            ),
            (DisplayStage::PanelUp(request), DisplayReply::Went(up)) => {
                self.prev_prestaged = false;
                Some(
                    if up {
                        go_to(
                            DisplayAction::Flush { request, prestaged: false },
                            DisplayStage::Flushed(request),
                        )
                    } else {
                        go_to(
                            DisplayAction::Acknowledge { settled: false, cursor: None },
                            DisplayStage::Ending,
                        )
                    },
                )
            },
            (DisplayStage::Flushed(request), DisplayReply::Went(flushed)) => {
                if flushed {
                    Some(go_to(DisplayAction::RecordRender(request), DisplayStage::Recorded(request)))
                } else {
                    self.prev_prestaged = false;
                    Some(go_to(DisplayAction::RecordFailure, DisplayStage::FailureRecorded))
                }
            },
            (DisplayStage::FailureRecorded, DisplayReply::Done) => Some(
                go_to(
                    DisplayAction::Acknowledge { settled: false, cursor: None },
                    DisplayStage::Ending,
                ),
            ),
            (DisplayStage::Recorded(request), DisplayReply::Done) => Some(
                if request.view == AppView::Reading {
                    go_to(
                        DisplayAction::TrackChapter { page: request.page },
                        DisplayStage::ChapterFound(request),
                    )
                } else {
                    go_to(
                        DisplayAction::Acknowledge { settled: true, cursor: None },
                        DisplayStage::Acknowledged,
                    )
                },
            ),
            (DisplayStage::ChapterFound(request), DisplayReply::Chapter(chapter)) => {
                let cursor = match chapter {
                    Some(current_chapter) => Some(
                        ChapterCursor {
                            book_id: request.book_id,
                            page: request.page,
                            current_chapter,
                        },
                    ),
                    None => None,
                };
                Some(
                    go_to(
                        DisplayAction::Acknowledge { settled: true, cursor },
                        DisplayStage::Acknowledged,
                    ),
                )
            },
            (DisplayStage::Acknowledged, DisplayReply::Done) => Some(
                go_to(DisplayAction::Prestage, DisplayStage::Prestaged),
            ),
            (DisplayStage::Prestaged, DisplayReply::Went(staged)) => {
                self.prev_prestaged = staged;
                Some(go_to(DisplayAction::Wait, DisplayStage::Idle))
            },
            (DisplayStage::Ending, DisplayReply::Done) => Some(
                go_to(DisplayAction::Wait, DisplayStage::Idle),
            ),
            _ => None,
        }
    }

    fn advance_sleep(&mut self, stage: DisplayStage, reply: DisplayReply, facts: &DisplayFacts) -> (step: Option<DisplayStep>)
        ensures
            match sleep_next(*old(self), stage, reply, *facts) {
                Some(next) => step == Some(next.1) && *final(self) == next.0,
                None => step is None && *final(self) == *old(self),
            },
    {
        match (stage, reply) {
            (DisplayStage::SequenceBegun { generation }, DisplayReply::Done)
            | (DisplayStage::AppliedReported { generation }, DisplayReply::Done) => Some(
                go_to(DisplayAction::AskMayProceed, DisplayStage::MayDrain { generation }),
            ),
            (DisplayStage::MayDrain { generation }, DisplayReply::Went(may)) => Some(
                if may {
                    go_to(DisplayAction::NextSleep, DisplayStage::Draining { generation })
                } else {
                    go_to(
                        DisplayAction::RefuseSleep { generation, refusal: None },
                        DisplayStage::Ending,
                    )
                },
            ),
            (DisplayStage::Draining { generation }, DisplayReply::Sleep(next)) => Some(
                match next {
                    SleepAction::TakeQueued => go_to(
                        DisplayAction::TakeQueued,
                        DisplayStage::Taking { generation },
                    ),
                    SleepAction::FlushProgress => go_to(
                        DisplayAction::FlushProgress,
                        DisplayStage::ProgressFlushed { generation },
                    ),
                    SleepAction::Refuse(refusal) => go_to(
                        DisplayAction::RefuseSleep { generation, refusal: Some(refusal) },
                        DisplayStage::Ending,
                    ),
                    SleepAction::Proceed => go_to(
                        DisplayAction::AskMayProceed,
                        DisplayStage::MaySleep { generation },
                    ),
                },
            ),
            (DisplayStage::Taking { generation }, DisplayReply::Taken(command)) => Some(
                match command {
                    Some(command) => go_to(
                        DisplayAction::AskDrained(command),
                        DisplayStage::Judging { generation, command },
                    ),
                    None => go_to(DisplayAction::ReportEmpty, DisplayStage::Reported { generation }),
                },
            ),
            (DisplayStage::Judging { generation, command }, DisplayReply::Drained(verdict)) => Some(
                match verdict {
                    Drained::Apply => go_to(
                        DisplayAction::Apply(command),
                        DisplayStage::Applied { generation },
                    ),
                    Drained::RequeueAndRefuse => go_to(
                        DisplayAction::Requeue(command),
                        DisplayStage::Requeued { generation },
                    ),
                },
            ),
            (DisplayStage::Applied { generation }, DisplayReply::Done) => Some(
                go_to(DisplayAction::ReportApplied, DisplayStage::AppliedReported { generation }),
            ),
            (DisplayStage::Requeued { generation }, DisplayReply::Went(kept)) => Some(
                go_to(
                    DisplayAction::ReportRequeued { kept },
                    DisplayStage::Reported { generation },
                ),
            ),
            (DisplayStage::ProgressFlushed { generation }, DisplayReply::Went(stored)) => Some(
                go_to(
                    DisplayAction::ReportFlushed { stored },
                    DisplayStage::FlushReported { generation, stored },
                ),
            ),
            (DisplayStage::FlushReported { generation, .. }, DisplayReply::Done)
            | (DisplayStage::Reported { generation }, DisplayReply::Done) => Some(
                go_to(DisplayAction::NextSleep, DisplayStage::Draining { generation }),
            ),
            (DisplayStage::MaySleep { generation }, DisplayReply::Went(may)) => Some(
                if may {
                    go_to(
                        DisplayAction::PaintSleep { shown: facts.last_request },
                        DisplayStage::SleepPainted { generation },
                    )
                } else {
                    go_to(
                        DisplayAction::RefuseSleep { generation, refusal: None },
                        DisplayStage::Ending,
                    )
                },
            ),
            (DisplayStage::SleepPainted { generation }, DisplayReply::Done) => Some(
                go_to(
                    DisplayAction::FlushSleep { prestaged: self.prev_prestaged },
                    DisplayStage::SleepFlushed { generation },
                ),
            ),
            (DisplayStage::SleepFlushed { generation }, DisplayReply::Went(frame_settled)) => {
                self.prev_prestaged = false;
                Some(
                    go_to(
                        DisplayAction::SleepPanel,
                        DisplayStage::PanelSlept { generation, frame_settled },
                    ),
                )
            },
            (DisplayStage::PanelSlept { generation, frame_settled }, DisplayReply::Went(slept)) => Some(
                if slept {
                    go_to(
                        DisplayAction::RecordSleep { frame_settled },
                        DisplayStage::SleepRecorded { generation },
                    )
                } else {
                    go_to(DisplayAction::FailSleep { generation }, DisplayStage::Ending)
                },
            ),
            (DisplayStage::SleepRecorded { generation }, DisplayReply::Done) => Some(
                go_to(DisplayAction::ParkAsleep { generation }, DisplayStage::Ending),
            ),
            _ => None,
        }
    }

    fn advance_plate(&mut self, stage: DisplayStage, reply: DisplayReply, facts: &DisplayFacts) -> (step: Option<DisplayStep>)
        ensures
            match plate_next(*old(self), stage, reply, *facts) {
                Some(next) => step == Some(next.1) && *final(self) == next.0,
                None => step is None && *final(self) == *old(self),
            },
    {
        match (stage, reply) {
            (DisplayStage::WillStage(command), DisplayReply::Went(stages)) => Some(
                if stages && facts.screen_on {
                    go_to(DisplayAction::AskResident(command), DisplayStage::Resident(command))
                } else {
                    go_to(DisplayAction::Apply(command), DisplayStage::Ending)
                },
            ),
            (DisplayStage::Resident(command), DisplayReply::Resident(resident)) => Some(
                match open_loading_plate_request(&command, &resident, facts.last_request) {
                    Some(request) => go_to(
                        DisplayAction::PaintPlate(request),
                        DisplayStage::PlatePainted(command, request),
                    ),
                    None => go_to(DisplayAction::Apply(command), DisplayStage::Ending),
                },
            ),
            (DisplayStage::PlatePainted(command, request), DisplayReply::Done) => Some(
                go_to(
                    DisplayAction::FlushPlate { request, prestaged: self.prev_prestaged },
                    DisplayStage::PlateFlushed(command, request),
                ),
            ),
            (DisplayStage::PlateFlushed(command, request), DisplayReply::Went(flushed)) => {
                self.prev_prestaged = false;
                Some(
                    go_to(
                        if flushed {
                            DisplayAction::RecordRender(request)
                        } else {
                            DisplayAction::RecordFailure
                        },
                        DisplayStage::PlateRecorded(command),
                    ),
                )
            },
            (DisplayStage::PlateRecorded(command), DisplayReply::Done) => Some(
                go_to(DisplayAction::Apply(command), DisplayStage::Ending),
            ),
            _ => None,
        }
    }

    /// What the answer to the last action does. `None`, with nothing changed,
    /// when the stage is not waiting for that kind of answer.
    pub fn advance(&mut self, stage: DisplayStage, reply: DisplayReply, facts: &DisplayFacts) -> (step: Option<DisplayStep>)
        ensures
            match display_next(*old(self), stage, reply, *facts) {
                Some(next) => step == Some(next.1) && *final(self) == next.0,
                None => step is None && *final(self) == *old(self),
            },
    {
        if let Some(step) = self.advance_render(stage, reply, facts) {
            return Some(step);
        }
        if let Some(step) = self.advance_sleep(stage, reply, facts) {
            return Some(step);
        }
        self.advance_plate(stage, reply, facts)
    }
}

/// The machine.
pub open spec fn display_next(display: DisplayLoop, stage: DisplayStage, reply: DisplayReply, facts: DisplayFacts) -> Option<(DisplayLoop, DisplayStep)> {
    if render_next(display, stage, reply, facts) is Some {
        render_next(display, stage, reply, facts)
    } else if sleep_next(display, stage, reply, facts) is Some {
        sleep_next(display, stage, reply, facts)
    } else {
        plate_next(display, stage, reply, facts)
    }
}

/// A flush is told that the previous plane is staged only when the loop knows
/// it, and what a failed transfer, a panel start or a power-down leaves
/// behind is never taken for staged.
pub proof fn law_staged_plane_is_never_assumed(display: DisplayLoop, stage: DisplayStage, reply: DisplayReply, facts: DisplayFacts)
    ensures
        display_next(display, stage, reply, facts) matches Some(next) ==> {
            &&& next.1.action matches DisplayAction::Flush { prestaged, .. } ==> (prestaged
                ==> display.prev_prestaged)
            &&& next.1.action matches DisplayAction::FlushPlate { prestaged, .. } ==> (prestaged
                ==> display.prev_prestaged)
            &&& next.1.action matches DisplayAction::FlushSleep { prestaged } ==> (prestaged
                ==> display.prev_prestaged)
            &&& next.0.prev_prestaged && !display.prev_prestaged ==> stage is Prestaged && reply
                == DisplayReply::Went(true)
            &&& next.1.action is RecordFailure || next.1.action is SleepPanel
                ==> !next.0.prev_prestaged
        },
{
}

/// The stages in which a sleep may still be refused.
pub open spec fn before_sleep(stage: DisplayStage) -> bool {
    stage is SequenceBegun || stage is MayDrain || stage is Draining || stage is Taking || stage
        is Judging || stage is Applied || stage is AppliedReported || stage is Requeued || stage
        is ProgressFlushed || stage is FlushReported || stage is Reported || stage is MaySleep
}

/// The panel's sleep screen is drawn only once the holder has said, after the
/// last drained command, that nothing the app waits on would go down with it.
pub proof fn law_sleep_leaves_no_event_behind(display: DisplayLoop, stage: DisplayStage, reply: DisplayReply, facts: DisplayFacts)
    ensures
        display_next(display, stage, reply, facts) matches Some(next) ==> {
            &&& next.1.action is PaintSleep ==> stage is MaySleep && reply == DisplayReply::Went(true)
            &&& before_sleep(stage) && !before_sleep(next.1.stage) ==> next.1.action is PaintSleep
                || next.1.action is RefuseSleep
            &&& next.1.action is ParkAsleep ==> stage is SleepRecorded
        },
{
}

/// A drained command is applied or put back, and nothing else is done first.
pub proof fn law_drained_command_is_not_lost(display: DisplayLoop, stage: DisplayStage, reply: DisplayReply, facts: DisplayFacts)
    requires
        stage is Judging,
    ensures
        display_next(display, stage, reply, facts) matches Some(next) ==> next.1.action
            == DisplayAction::Apply(stage->Judging_command) || next.1.action
            == DisplayAction::Requeue(stage->Judging_command),
{
}

/// The sleep sequence is told of everything it asked for, as it came out and
/// before it is asked for more; and of a command that was run before the
/// holder is asked again.
pub proof fn law_sequence_hears_of_every_step(display: DisplayLoop, stage: DisplayStage, reply: DisplayReply, facts: DisplayFacts)
    ensures
        display_next(display, stage, reply, facts) matches Some(next) ==> {
            &&& stage is Applied ==> next.1.action is ReportApplied
            &&& stage is Taking && reply == DisplayReply::Taken(None) ==> next.1.action
                is ReportEmpty
            &&& stage is Requeued ==> reply == DisplayReply::Went(true) && next.1.action == (
            DisplayAction::ReportRequeued { kept: true }) || reply == DisplayReply::Went(false)
                && next.1.action == (DisplayAction::ReportRequeued { kept: false })
            &&& stage is ProgressFlushed ==> reply == DisplayReply::Went(true) && next.1.action == (
            DisplayAction::ReportFlushed { stored: true }) || reply == DisplayReply::Went(false)
                && next.1.action == (DisplayAction::ReportFlushed { stored: false })
            &&& next.1.action is NextSleep ==> stage is MayDrain || stage is Reported || stage
                is FlushReported
        },
{
}

/// A render is acknowledged exactly where it ends, as settled only after its
/// frame was flushed and recorded.
pub proof fn law_settled_means_flushed(display: DisplayLoop, stage: DisplayStage, reply: DisplayReply, facts: DisplayFacts)
    ensures
        display_next(display, stage, reply, facts) matches Some(next) ==> (next.1.action matches DisplayAction::Acknowledge {
            settled,
            ..
        } ==> (settled ==> stage is Recorded || stage is ChapterFound) && (!settled ==> stage
            is FailureRecorded || (stage is PanelUp && reply == DisplayReply::Went(false)))),
        display_next(display, stage, reply, facts) matches Some(next) ==> (next.1.stage is Recorded
            ==> stage is Flushed && reply == DisplayReply::Went(true)),
{
}

/// The command whose loading plate a stage is about.
pub open spec fn plated(stage: DisplayStage) -> Option<StorageCommand> {
    match stage {
        DisplayStage::WillStage(command) => Some(command),
        DisplayStage::Resident(command) => Some(command),
        DisplayStage::PlatePainted(command, _) => Some(command),
        DisplayStage::PlateFlushed(command, _) => Some(command),
        DisplayStage::PlateRecorded(command) => Some(command),
        _ => None,
    }
}

/// A storage command that goes down the applying arm is applied, whatever
/// becomes of its loading plate.
pub proof fn law_plate_never_costs_the_command(display: DisplayLoop, stage: DisplayStage, command: StorageCommand, reply: DisplayReply, facts: DisplayFacts)
    requires
        plated(stage) == Some(command),
    ensures
        display_next(display, stage, reply, facts) matches Some(next) ==> next.1.action
            == DisplayAction::Apply(command) || plated(next.1.stage) == Some(command),
{
}

/// The frame that is sent and recorded is the frame that was drawn, for a
/// render as for a loading plate.
pub proof fn law_frame_stays_the_same(display: DisplayLoop, stage: DisplayStage, request: RenderRequest, reply: DisplayReply, facts: DisplayFacts)
    ensures
        (stage == DisplayStage::CustomPainted(request) || stage == DisplayStage::Painted(request)
            || stage == DisplayStage::PanelUp(request)) ==> (display_next(
            display,
            stage,
            reply,
            facts,
        ) matches Some(next) ==> (next.1.action matches DisplayAction::Flush { request: sent, .. }
            ==> sent == request)),
        stage == DisplayStage::Flushed(request) ==> (display_next(display, stage, reply, facts) matches Some(
            next,
        ) ==> next.1.action == DisplayAction::RecordRender(request) || next.1.action
            is RecordFailure),
        stage matches DisplayStage::PlatePainted(_, plate) ==> (display_next(
            display,
            stage,
            reply,
            facts,
        ) matches Some(next) ==> (next.1.action matches DisplayAction::FlushPlate {
            request: sent,
            ..
        } ==> sent == plate)),
        stage matches DisplayStage::PlateFlushed(_, plate) ==> (display_next(
            display,
            stage,
            reply,
            facts,
        ) matches Some(next) ==> next.1.action == DisplayAction::RecordRender(plate)
            || next.1.action is RecordFailure),
{
}

pub open spec fn portrait_of(last_request: Option<RenderRequest>) -> bool {
    match last_request {
        Some(last) => last.portrait,
        None => true,
    }
}

pub open spec fn page_shown(last_request: Option<RenderRequest>, book_id: u32) -> u32 {
    match last_request {
        Some(last) => if last.book_id == book_id && last.view == AppView::Reading { last.page } else { 0 },
        None => 0,
    }
}

pub open spec fn slice_is_due(gates: SliceGates) -> bool {
    (gates.build_pending || gates.evidence_pending || gates.evidence_unsettled)
        && !gates.session_active && gates.storage_may_run && !gates.text_holds_toc
}

pub open spec fn wait_before_slice(attempts: u8, retry_delay_ms: u64, settle_ms: u64) -> u64 {
    if attempts > 0 { retry_delay_ms } else { settle_ms }
}

pub open spec fn wakes(generation: u32, event: ParkEvent) -> bool {
    event == ParkEvent::Deadline || event == ParkEvent::Resumed { generation }
}

pub open spec fn storage_begun(command: StorageCommand, arm: LoopArm, latest_request_id: u32, catalog_epoch: u32) -> DisplayStep {
    match arm {
        LoopArm::UploadSession => go(DisplayAction::ServeUploads, DisplayStage::Ending),
        LoopArm::RefusedUpload => idle(),
        LoopArm::Apply => go(
            DisplayAction::AskWillStage { command, latest_request_id, catalog_epoch },
            DisplayStage::WillStage(command),
        ),
    }
}

/// Orientation and page are those of the frame before: of the page only as
/// far as it showed this book being read.
pub proof fn law_last_frame_tells_the_page(last: RenderRequest, book_id: u32)
    ensures
        portrait_of(Some(last)) == last.portrait,
        portrait_of(None),
        page_shown(None, book_id) == 0,
        last.view == AppView::Reading ==> page_shown(Some(last), last.book_id) == last.page,
        page_shown(Some(last), book_id) != 0 ==> last.book_id == book_id && last.view
            == AppView::Reading && page_shown(Some(last), book_id) == last.page,
{
}

/// A slice runs only with work to do and the card to itself, and where both
/// are given it runs. One that is tried again waits for as long as a retry does,
/// and any other until things have settled.
pub proof fn law_slice_runs_with_work_and_card(gates: SliceGates, attempts: u8, retry_delay_ms: u64, settle_ms: u64)
    ensures
        slice_is_due(gates) ==> !gates.session_active && gates.storage_may_run
            && !gates.text_holds_toc,
        slice_is_due(gates) ==> gates.build_pending || gates.evidence_pending
            || gates.evidence_unsettled,
        !gates.session_active && gates.storage_may_run && !gates.text_holds_toc
            && gates.build_pending ==> slice_is_due(gates),
        !gates.session_active && gates.storage_may_run && !gates.text_holds_toc
            && gates.evidence_pending ==> slice_is_due(gates),
        !gates.session_active && gates.storage_may_run && !gates.text_holds_toc
            && gates.evidence_unsettled ==> slice_is_due(gates),
        attempts == 0 ==> wait_before_slice(attempts, retry_delay_ms, settle_ms) == settle_ms,
        attempts > 0 ==> wait_before_slice(attempts, retry_delay_ms, settle_ms) == retry_delay_ms,
{
}

/// A parked panel is woken by its deadline and by its own generation being
/// resumed, and by that of no other.
pub proof fn law_park_ends_for_its_own_generation(generation: u32, other: u32, event: ParkEvent)
    ensures
        wakes(generation, ParkEvent::Deadline),
        wakes(generation, ParkEvent::Resumed { generation: other }) <==> other == generation,
        wakes(generation, event) ==> event is Deadline || event is Resumed,
{
}

/// A command is applied as it came, under the ids it came with; uploads are
/// served instead where they own the card, and a refused one asks nothing.
pub proof fn law_storage_command_is_handed_on(command: StorageCommand, arm: LoopArm, latest_request_id: u32, catalog_epoch: u32)
    ensures
        storage_begun(command, LoopArm::Apply, latest_request_id, catalog_epoch) == go(
            (DisplayAction::AskWillStage { command, latest_request_id, catalog_epoch }),
            DisplayStage::WillStage(command),
        ),
        storage_begun(command, LoopArm::RefusedUpload, latest_request_id, catalog_epoch) == idle(),
        storage_begun(command, LoopArm::UploadSession, latest_request_id, catalog_epoch) == go(
            DisplayAction::ServeUploads,
            DisplayStage::Ending,
        ),
{
}

} // verus!
