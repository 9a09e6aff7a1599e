//! The app task's loop, as a machine.
//!
//! One turn starts with an event ([`AppLoop::begin`]) and runs through the
//! actions it is given ([`AppLoop::advance`]) until the loop may wait again.
//! The reducer, the parked queue and the sleep gate stay outside; the input
//! lock of an open, the render lock and the request ids are kept here.
use vstd::prelude::*;
use crate::app_model as model;
use crate::delivery::ChapterCursor;
use crate::messages::{
    AppView, LibraryEvent, PersistedState, RenderKind, StorageCommand, TypeSettings,
};

verus! {

/// How long a confirm press is ignored once a book has opened: the press that
/// opened it must not carry through into the page now on screen.
pub const POST_OPEN_CONFIRM_BLOCK_MS: u64 = 700;

/// How far the wireless session has got, as far as the loop tells it apart.
#[derive(Clone, Copy, PartialEq, Eq, Structural, Debug)]
pub enum SyncStatus {
    NotConfigured,
    Idle,
    ForgetPending,
    Starting,
    /// Any later status: the radio has run.
    Running,
}

#[derive(Clone, Copy, PartialEq, Eq, Structural, Debug)]
pub enum SyncCommand {
    Start,
    Exit,
}

/// What the loop reads of the reader state.
#[derive(Clone, Copy, PartialEq, Eq, Structural, Debug)]
pub struct ViewState {
    pub view: AppView,
    pub book_id: u32,
    pub page: u32,
    pub library_count: u16,
    pub catalog_epoch: u32,
    pub library_depth: u8,
    pub library_books: u16,
    pub selection: u16,
    /// The request a Library move is waiting on.
    pub library_browse: Option<u32>,
    /// The request a cache clear is waiting on.
    pub library_busy: Option<u32>,
    pub sync_status: SyncStatus,
    /// What a section is paginated under.
    pub type_settings: TypeSettings,
    pub portrait: bool,
    /// What of the state survives a reboot.
    pub persisted: PersistedState,
}

/// What else decides whether a folded event is worth a repaint.
#[derive(Clone, Copy, PartialEq, Eq, Structural, Debug)]
pub struct FoldFacts {
    /// The load rule's verdict on a repaint.
    pub load_repaints: bool,
    /// The page the state held for the event's chapter before the fold.
    pub stored_chapter_page: Option<u16>,
}

#[derive(Clone, Copy, PartialEq, Eq, Structural, Debug)]
pub enum Button {
    Power,
    Confirm,
    Other,
}

#[derive(Clone, Copy, PartialEq, Eq, Structural, Debug)]
pub enum StorageDispatch {
    Sent,
    Parked,
    Rejected,
}

/// Why the panel may not go to sleep yet.
#[derive(Clone, Copy, PartialEq, Eq, Structural, Debug)]
pub struct SleepBlockers {
    pub open_unresolved: bool,
    pub parked_storage: bool,
    pub awaiting_open_frame: bool,
}

/// What the loop keeps between turns.
#[derive(Clone, Copy, PartialEq, Eq, Structural, Debug)]
pub struct AppLoop {
    pub rendering: bool,
    pub render_pending: bool,
    pub catalog_refresh_requested: bool,
    /// Type settings changed away from Reading: the next entry owes an extend.
    pub reader_relayout_pending: bool,
    pub opening_book: Option<u32>,
    /// A way back is kept for an open that may be refused.
    pub rollback_held: bool,
    pub suppress_input_until_open_settled: bool,
    pub block_confirm_until_ms: Option<u64>,
    pub boot_render_pending: bool,
    pub latest_request_id: u32,
}

/// What the state, the queue and the clock say at one step.
#[derive(Clone, Copy, PartialEq, Eq, Structural, Debug)]
pub struct AppFacts {
    pub now_ms: u64,
    pub view: ViewState,
    pub parked_is_empty: bool,
}

/// What a turn starts with.
#[derive(Clone, Copy, PartialEq, Eq, Debug)]
pub enum AppEvent {
    /// A reading of the buttons; a reading without one is only the battery.
    Input { button: Option<Button> },
    Settled { chapter_cursor: Option<ChapterCursor> },
    Asleep,
    SleepFailed,
    RefreshFailed,
    Library(LibraryEvent),
    Sync,
    /// The storage task took the oldest parked command.
    ParkedTaken(StorageCommand),
}

#[derive(Clone, Copy, PartialEq, Eq, Debug)]
pub enum AppAction {
    /// The turn is over.
    Wait,
    /// Fold a battery reading. Answer: `Done`.
    FoldBattery,
    /// Fold the press and report the activity, with the view it led to.
    /// Answer: `Done`.
    FoldInput,
    /// Fold a library event. Answer: `FoldedLibrary`.
    FoldLibrary(LibraryEvent),
    /// Ask whether a load is worth a repaint: the page is on screen, its text
    /// was replaced, the reader was moved. Answer: `Allowed`.
    AskLoadRepaints { reading: bool, text_replaced: bool, page_moved: bool },
    /// Fold the sync event. Answer: `Done`.
    FoldSync,
    /// Apply a chapter correction. Answer: `Done`.
    ApplyCursor(ChapterCursor),
    /// Put the reader back where the kept way back leads. Answer: `Done`.
    RestoreRollback,
    /// Put the reader back where this turn found it. Answer: `Done`.
    RestorePrevious,
    /// Press the sleep gate. Answer: `Allowed`.
    PressSleep(SleepBlockers),
    /// Ask the sleep gate for a deferred press. Answer: `Allowed`.
    ReleaseSleep(SleepBlockers),
    /// Ask the power task to sleep. Answer: `Done`.
    SendSleepNow,
    /// The command the transition owes. Answer: `Command`.
    TransitionCommand { request_id: u32 },
    /// The extend a new layout owes, if the book is on the card. Answer:
    /// `Command`.
    RelayoutCommand { request_id: u32 },
    /// Send or park a command. Answer: `Dispatched`.
    Dispatch(StorageCommand),
    /// What an open in flight leaves the app holding. Answer: `Hold`.
    OpenHold(StorageCommand),
    /// The Library move the transition owes. Answer: `Command`.
    BrowseCommand,
    /// Settle a Library move nobody took. Answer: `Done`.
    BrowseRejected,
    /// The Library action the transition owes. Answer: `Command`.
    ActionCommand,
    /// Settle a Library action nobody took. Answer: `Done`.
    ActionRejected,
    /// Send a sync command. Answer: `Done`.
    SendSync(SyncCommand),
    /// Freeze the state into a render and send it. Answer: `Done`.
    SendRender(RenderKind),
    /// Note that a frame settled, for the repaint retry. Answer: `Done`.
    RetrySettled,
    /// Ask whether a failed frame gets its one repaint. Answer: `Allowed`.
    RetryFailed,
    /// Ask for the catalog. Answer: `Done`.
    SendLoadCatalog,
    /// Offer the oldest parked command to the storage task. Answer: `Parked`.
    OfferParked,
    /// Ask whether the open's input gate may lift. Answer: `Allowed`.
    AskGate { suppressed: bool, opening: bool, rendering: bool },
}

#[derive(Clone, Copy, PartialEq, Eq, Structural, Debug)]
pub enum AppReply {
    Done,
    Allowed(bool),
    /// The page the state held for the event's chapter before the fold.
    FoldedLibrary { stored_chapter_page: Option<u16> },
    Command(Option<StorageCommand>),
    Dispatched(StorageDispatch),
    Hold { opening_book: Option<u32>, rollback: bool },
    /// What became of the oldest parked command, if there was one.
    Parked(Option<Offer>),
}

/// A parked command offered to the storage task, and whether it took it.
#[derive(Clone, Copy, PartialEq, Eq, Structural, Debug)]
pub struct Offer {
    pub command: StorageCommand,
    pub taken: bool,
}

/// Which path put the reader in motion.
#[derive(Clone, Copy, PartialEq, Eq, Structural, Debug)]
pub enum Cause {
    Press { previous: ViewState },
    Library { before: PersistedState, catalog_fence: Option<u32> },
}

/// What a dispatched transition owes the rest of the turn.
#[derive(Clone, Copy, PartialEq, Eq, Structural, Debug)]
pub struct OpenDispatch {
    /// The open carried the departing book's position.
    pub switch_dispatched: bool,
    /// A chapter list is in flight, so the current frame holds.
    pub awaiting_chapter_list: bool,
}

#[derive(Clone, Copy, PartialEq, Eq, Debug)]
pub enum AppStage {
    Idle,
    /// The last action of the turn is out.
    Ending,
    PowerPressed,
    InputFolded { previous: ViewState },
    Owed { cause: Cause, request_id: u32 },
    Relayout { cause: Cause, request_id: u32 },
    Sending { cause: Cause, request_id: u32, command: StorageCommand },
    Holding { cause: Cause, dispatch: OpenDispatch },
    RolledBack { cause: Cause },
    ProgressSent { cause: Cause, dispatch: OpenDispatch },
    ForgetSent { previous: ViewState, dispatch: OpenDispatch },
    Browsing { previous: ViewState, dispatch: OpenDispatch },
    BrowseSent { previous: ViewState, dispatch: OpenDispatch },
    BrowseSettled { previous: ViewState, dispatch: OpenDispatch },
    Acting { previous: ViewState, dispatch: OpenDispatch },
    ActionSent { previous: ViewState, dispatch: OpenDispatch },
    ActionSettled { previous: ViewState, dispatch: OpenDispatch },
    SyncSent { dispatch: OpenDispatch },
    LibraryFolded { before: ViewState, event: LibraryEvent },
    LoadJudged { before: ViewState, event: LibraryEvent },
    LibraryRestored { persisted: PersistedState },
    SyncFolded,
    /// The input lock was asked about on an event that owed no repaint.
    QuietGate,
    CursorApplied,
    RetryNoted,
    CatalogAsked,
    /// Parked commands are being offered after a frame ended.
    Draining { failed: bool },
    RetryAsked,
    /// The frame that ends the cycle, or a repaint, is out.
    CycleRendered,
    CycleGate,
    Releasing,
}

/// What to do and where the turn stands.
#[derive(Clone, Copy, PartialEq, Eq, Debug)]
pub struct AppStep {
    pub action: AppAction,
    pub stage: AppStage,
}

/// Reserves the next reader request id without publishing it. It is never
/// zero.
pub fn peek_reader_request_id(latest: u32) -> (request_id: u32)
    ensures
        request_id == model::next_request_id(latest),
{
    let next: u32 = latest.wrapping_add(1);
    if next == 0 {
        1
    } else {
        next
    }
}

/// Publishes a reserved id once its command is on its way.
pub fn commit_reader_request_id(latest: &mut u32, request_id: u32)
    ensures
        *final(latest) == request_id,
{
    *latest = request_id;
}

/// The book an open command opens.
pub fn open_book_id(command: &StorageCommand) -> (book_id: Option<u32>)
    ensures
        book_id == model::opened_book(*command),
{
    match *command {
        StorageCommand::OpenBook { book_id, .. } => Some(book_id),
        _ => None,
    }
}

/// The book a load event loaded.
pub fn loaded_book_id(event: &LibraryEvent) -> (book_id: Option<u32>)
    ensures
        book_id == model::loaded_book(*event),
{
    match *event {
        LibraryEvent::Loaded { book_id, .. } => Some(book_id),
        _ => None,
    }
}

/// The first paint after boot is a full refresh that initialises the panel;
/// every later one is an ordinary page. Consumes the one-shot flag.
pub fn first_render_kind(boot_render_pending: &mut bool) -> (kind: RenderKind)
    ensures
        (kind, *final(boot_render_pending)) == first_kind(*old(boot_render_pending)),
        kind == if *old(boot_render_pending) { RenderKind::Boot } else { RenderKind::Page },
        !*final(boot_render_pending),
{
    let first: bool = *boot_render_pending;
    *boot_render_pending = false;
    if first {
        RenderKind::Boot
    } else {
        RenderKind::Page
    }
}

/// Whether an event resolves the catalog the first frame waits for.
pub fn library_event_allows_first_render(event: &LibraryEvent) -> (allows: bool)
    ensures
        allows == shows_the_shelf(*event),
        allows == (*event is Restored || *event is Scanned),
{
    matches!(*event, LibraryEvent::Restored { .. } | LibraryEvent::Scanned { .. })
}

/// Whether an event changed what is on screen, so that it owes a repaint. An
/// answer nobody is waiting on any more must not cost a panel refresh.
pub fn library_event_affects_view(
    state: &ViewState,
    folded: &ViewState,
    event: &LibraryEvent,
    fold: &FoldFacts,
) -> (affects: bool)
    ensures
        affects == model::affects_view(*state, *folded, *event, *fold),
{
    match *event {
        LibraryEvent::Scanned { count, catalog_epoch } => state.view == AppView::Library && (
        state.library_count != count || state.catalog_epoch != catalog_epoch),
        LibraryEvent::Loaded { book_id, .. } => state.book_id == book_id && fold.load_repaints,
        LibraryEvent::ChapterPage { book_id, page, .. } => {
            let capped: u16 = if page <= u16::MAX as u32 { page as u16 } else { u16::MAX };
            state.book_id == book_id && match fold.stored_chapter_page {
                Some(stored) => stored != capped,
                None => false,
            }
        },
        LibraryEvent::CustomFont { .. } => state.view == AppView::Settings,
        LibraryEvent::CacheCleared { request_id, .. } => state.view == AppView::Library
            && same_request(state.library_busy, request_id),
        LibraryEvent::FolderListed { .. }
        | LibraryEvent::RowIsBook { .. }
        | LibraryEvent::RowFailed { .. } => {
            folded.view != state.view || folded.library_depth != state.library_depth
                || folded.library_count != state.library_count || folded.library_books
                != state.library_books || folded.selection != state.selection
                || folded.library_browse != state.library_browse
        },
        LibraryEvent::BookOpenFailed { .. }
        | LibraryEvent::Restored { .. }
        | LibraryEvent::LibraryUnreadable { .. } => true,
    }
}

fn same_request(waiting: Option<u32>, request_id: u32) -> (same: bool)
    ensures
        same == (waiting == Some(request_id)),
{
    match waiting {
        Some(waiting) => waiting == request_id,
        None => false,
    }
}

/// Whether a confirm press is still kept off the page a book just opened on.
/// A deadline that has passed is forgotten.
pub fn should_block_post_open_confirm(
    button: Button,
    block_until_ms: &mut Option<u64>,
    now_ms: u64,
) -> (blocked: bool)
    ensures
        *final(block_until_ms) == model::confirm_block_left(*old(block_until_ms), now_ms),
        blocked == (*final(block_until_ms) is Some && button == Button::Confirm),
{
    match *block_until_ms {
        Some(until) => {
            if now_ms >= until {
                *block_until_ms = None;
                false
            } else {
                button == Button::Confirm
            }
        },
        None => false,
    }
}

/// Confirming a pending forget on the Wireless screen deletes the saved
/// network.
pub fn forget_command_for_transition(previous: &ViewState, next: &ViewState) -> (command: Option<
    StorageCommand,
>)
    ensures
        command == if model::forgets(*previous, *next) {
            Some(StorageCommand::ForgetWifiCredentials)
        } else {
            None
        },
{
    if previous.sync_status == SyncStatus::ForgetPending && next.sync_status
        == SyncStatus::NotConfigured && next.view == AppView::Wireless {
        Some(StorageCommand::ForgetWifiCredentials)
    } else {
        None
    }
}

/// Arming the radio starts a session; leaving the screen after the radio ran
/// ends it, because the loaned memory cannot come back.
pub fn sync_command_for_transition(previous: &ViewState, next: &ViewState) -> (command: Option<
    SyncCommand,
>)
    ensures
        command == model::sync_command(*previous, *next),
{
    if previous.sync_status != SyncStatus::Starting && next.sync_status == SyncStatus::Starting {
        return Some(SyncCommand::Start);
    }
    if previous.view == AppView::Wireless && next.view != AppView::Wireless {
        let radio_ran: bool = match previous.sync_status {
            SyncStatus::NotConfigured | SyncStatus::Idle | SyncStatus::ForgetPending => false,
            SyncStatus::Starting | SyncStatus::Running => true,
        };
        if radio_ran {
            return Some(SyncCommand::Exit);
        }
    }
    None
}

/// Stamps an open with the catalog its row was looked up in, when an event
/// said which; the reducer's own reading stands otherwise.
fn fence(command: StorageCommand, catalog_fence: Option<u32>) -> (fenced: StorageCommand)
    ensures
        fenced == model::fenced(command, catalog_fence),
{
    match (command, catalog_fence) {
        (
            StorageCommand::OpenBook {
                request_id,
                book_id,
                index,
                chapter,
                target_pages,
                type_settings,
                portrait,
                previous,
                resolve_place,
                ..
            },
            Some(epoch),
        ) => StorageCommand::OpenBook {
            request_id,
            book_id,
            index,
            chapter,
            target_pages,
            type_settings,
            portrait,
            previous,
            catalog_epoch: Some(epoch),
            resolve_place,
        },
        _ => command,
    }
}

fn owns_the_switch(command: &StorageCommand) -> (owns: bool)
    ensures
        owns == model::owns_the_switch(*command),
{
    match *command {
        StorageCommand::OpenBook { previous, .. } => previous.is_some(),
        _ => false,
    }
}

fn to(action: AppAction, stage: AppStage) -> (step: AppStep)
    ensures
        step == model::to(action, stage),
{
    AppStep { action, stage }
}

fn wait() -> (step: AppStep)
    ensures
        step == model::wait(),
{
    to(AppAction::Wait, AppStage::Idle)
}

fn offering(failed: bool) -> (step: AppStep)
    ensures
        step == model::offering(failed),
{
    to(AppAction::OfferParked, AppStage::Draining { failed })
}

fn nothing_dispatched() -> (dispatch: OpenDispatch)
    ensures
        dispatch == model::nothing_dispatched(),
{
    OpenDispatch { switch_dispatched: false, awaiting_chapter_list: false }
}

/// What the load rule is asked about a book that was loaded.
fn load_question(before: &ViewState, after: &ViewState, event: &LibraryEvent) -> (question: Option<AppAction>)
    ensures
        forall|app: AppLoop| !app.boot_render_pending ==> question == #[trigger] model::load_question(
            app,
            *before,
            *after,
            *event,
        ),
{
    match *event {
        LibraryEvent::Loaded { book_id, text_replaced, .. } => {
            if before.book_id == book_id {
                Some(
                    AppAction::AskLoadRepaints {
                        reading: before.view == AppView::Reading,
                        text_replaced,
                        page_moved: after.page != before.page,
                    },
                )
            } else {
                None
            }
        },
        _ => None,
    }
}

fn dispatching(cause: Cause, request_id: u32, command: StorageCommand) -> (step: AppStep)
    ensures
        step == model::dispatching(cause, request_id, command),
{
    let catalog_fence = match cause {
        Cause::Library { catalog_fence, .. } => catalog_fence,
        Cause::Press { .. } => None,
    };
    let command = fence(command, catalog_fence);
    to(AppAction::Dispatch(command), AppStage::Sending { cause, request_id, command })
}

impl AppLoop {
    /// The loop at boot: the catalog is asked for, and the first frame waits
    /// for it.
    pub fn new() -> (app: AppLoop)
        ensures
            app == (AppLoop {
                rendering: false,
                render_pending: false,
                catalog_refresh_requested: true,
                reader_relayout_pending: false,
                opening_book: None,
                rollback_held: false,
                suppress_input_until_open_settled: false,
                block_confirm_until_ms: None,
                boot_render_pending: true,
                latest_request_id: 0,
            }),
    {
        AppLoop {
            rendering: false,
            render_pending: false,
            catalog_refresh_requested: true,
            reader_relayout_pending: false,
            opening_book: None,
            rollback_held: false,
            suppress_input_until_open_settled: false,
            block_confirm_until_ms: None,
            boot_render_pending: true,
            latest_request_id: 0,
        }
    }

    /// Why the panel may not sleep yet: an open is unresolved, commands are
    /// parked, or the frame of an open is still awaited.
    pub fn sleep_blockers(&self, facts: &AppFacts) -> (blockers: SleepBlockers)
        ensures
            blockers == model::blockers(*self, *facts),
    {
        SleepBlockers {
            open_unresolved: self.opening_book.is_some(),
            parked_storage: !facts.parked_is_empty,
            awaiting_open_frame: self.suppress_input_until_open_settled,
        }
    }

    /// Records a parked command that has reached the storage task: an open
    /// now owns the input lock until its frame settles.
    pub fn accept_parked_storage(&mut self, command: &StorageCommand)
        ensures
            *final(self) == model::accepted(*old(self), *command),
    {
        if let Some(book_id) = open_book_id(command) {
            self.opening_book = Some(book_id);
            self.suppress_input_until_open_settled = true;
        }
    }

    fn render(&mut self, kind: RenderKind, stage: AppStage) -> (step: AppStep)
        ensures
            (*final(self), step) == model::render(*old(self), kind, stage),
    {
        if self.rendering {
            self.render_pending = true;
            wait()
        } else {
            self.rendering = true;
            self.render_pending = false;
            to(AppAction::SendRender(kind), stage)
        }
    }

    fn render_library(&mut self) -> (step: AppStep)
        ensures
            (*final(self), step) == model::render_library(*old(self)),
    {
        if self.rendering {
            self.render_pending = true;
            wait()
        } else {
            let kind = first_render_kind(&mut self.boot_render_pending);
            self.render(kind, AppStage::Ending)
        }
    }

    fn transition(&self, cause: Cause) -> (step: AppStep)
        ensures
            step == model::transition(*self, cause),
    {
        let request_id: u32 = peek_reader_request_id(self.latest_request_id);
        to(AppAction::TransitionCommand { request_id }, AppStage::Owed { cause, request_id })
    }

    fn after_progress(&mut self, cause: Cause, dispatch: OpenDispatch, facts: &AppFacts) -> (step: AppStep)
        ensures
            (*final(self), step) == model::after_progress(*old(self), cause, dispatch, *facts),
    {
        match cause {
            Cause::Library { .. } => self.render_library(),
            Cause::Press { previous } => match forget_command_for_transition(
                &previous,
                &facts.view,
            ) {
                Some(command) => to(
                    AppAction::Dispatch(command),
                    AppStage::ForgetSent { previous, dispatch },
                ),
                None => to(AppAction::BrowseCommand, AppStage::Browsing { previous, dispatch }),
            },
        }
    }

    fn persist(&mut self, cause: Cause, dispatch: OpenDispatch, facts: &AppFacts) -> (step: AppStep)
        ensures
            (*final(self), step) == model::persist(*old(self), cause, dispatch, *facts),
    {
        let before: PersistedState = match cause {
            Cause::Library { before, .. } => before,
            Cause::Press { previous } => previous.persisted,
        };
        if before != facts.view.persisted && !dispatch.switch_dispatched {
            to(
                AppAction::Dispatch(StorageCommand::StoreProgress(facts.view.persisted)),
                AppStage::ProgressSent { cause, dispatch },
            )
        } else {
            self.after_progress(cause, dispatch, facts)
        }
    }

    fn folded(&self, before: &ViewState, after: &ViewState, event: &LibraryEvent, fold: &FoldFacts) -> (step: AppStep)
        ensures
            step == model::folded(*self, *before, *after, *event, *fold),
    {
        let owes_render: bool = if self.boot_render_pending {
            library_event_allows_first_render(event)
        } else {
            library_event_affects_view(before, after, event, fold)
        };
        if owes_render {
            let catalog_fence = match *event {
                LibraryEvent::RowIsBook { catalog_epoch, .. } => Some(catalog_epoch),
                _ => None,
            };
            self.transition(Cause::Library { before: before.persisted, catalog_fence })
        } else {
            self.ask_gate(self.rendering, AppStage::QuietGate)
        }
    }

    fn press_render(&mut self, dispatch: OpenDispatch) -> (step: AppStep)
        ensures
            (*final(self), step) == model::press_render(*old(self), dispatch),
    {
        if dispatch.awaiting_chapter_list {
            self.render_pending = false;
            wait()
        } else {
            self.render(RenderKind::Page, AppStage::Ending)
        }
    }

    fn after_actions(&mut self, previous: ViewState, dispatch: OpenDispatch, facts: &AppFacts) -> (step: AppStep)
        ensures
            (*final(self), step) == model::after_actions(*old(self), previous, dispatch, *facts),
    {
        match sync_command_for_transition(&previous, &facts.view) {
            Some(command) => to(AppAction::SendSync(command), AppStage::SyncSent { dispatch }),
            None => self.press_render(dispatch),
        }
    }

    fn ask_gate(&self, rendering: bool, stage: AppStage) -> (step: AppStep)
        ensures
            step == model::ask_gate(*self, rendering, stage),
    {
        to(
            AppAction::AskGate {
                suppressed: self.suppress_input_until_open_settled,
                opening: self.opening_book.is_some(),
                rendering,
            },
            stage,
        )
    }

    fn lift_gate(&mut self, now_ms: u64)
        ensures
            *final(self) == model::gate_lifted(*old(self), now_ms),
    {
        self.suppress_input_until_open_settled = false;
        self.block_confirm_until_ms = Some(now_ms.saturating_add(POST_OPEN_CONFIRM_BLOCK_MS));
    }

    fn releasing(&self, facts: &AppFacts) -> (step: AppStep)
        ensures
            step == model::releasing(*self, *facts),
    {
        to(AppAction::ReleaseSleep(self.sleep_blockers(facts)), AppStage::Releasing)
    }

    fn drained(&mut self, failed: bool) -> (step: AppStep)
        ensures
            (*final(self), step) == model::drained(*old(self), failed),
    {
        if failed {
            to(AppAction::RetryFailed, AppStage::RetryAsked)
        } else if self.render_pending {
            self.rendering = true;
            self.render_pending = false;
            to(AppAction::SendRender(RenderKind::Page), AppStage::CycleRendered)
        } else {
            self.ask_gate(false, AppStage::CycleGate)
        }
    }

    fn settle(&mut self) -> (step: AppStep)
        ensures
            (*final(self), step) == model::settle(*old(self)),
    {
        self.rendering = false;
        to(AppAction::RetrySettled, AppStage::RetryNoted)
    }

    fn press(&mut self, button: Button, facts: &AppFacts) -> (step: AppStep)
        ensures
            (*final(self), step) == model::press(*old(self), button, *facts),
    {
        if facts.view.view == AppView::Reading && should_block_post_open_confirm(
            button,
            &mut self.block_confirm_until_ms,
            facts.now_ms,
        ) {
            return wait();
        }
        if self.opening_book.is_some() || self.suppress_input_until_open_settled {
            return wait();
        }
        to(AppAction::FoldInput, AppStage::InputFolded { previous: facts.view })
    }

    fn library(&mut self, event: LibraryEvent, facts: &AppFacts) -> (step: AppStep)
        ensures
            (*final(self), step) == model::library(*old(self), event, *facts),
    {
        if let LibraryEvent::BookOpenFailed { book_id } = event {
            if same_request(self.opening_book, book_id) {
                self.opening_book = None;
            }
            if self.rollback_held {
                self.rollback_held = false;
                return to(
                    AppAction::RestoreRollback,
                    AppStage::LibraryRestored { persisted: facts.view.persisted },
                );
            }
            return self.transition(
                Cause::Library { before: facts.view.persisted, catalog_fence: None },
            );
        }
        if let Some(book_id) = loaded_book_id(&event) {
            if same_request(self.opening_book, book_id) {
                self.opening_book = None;
                self.rollback_held = false;
            }
        }
        to(AppAction::FoldLibrary(event), AppStage::LibraryFolded { before: facts.view, event })
    }

    /// Starts a turn with `event`.
    pub fn begin(&mut self, event: AppEvent, facts: &AppFacts) -> (step: AppStep)
        ensures
            (*final(self), step) == model::begin(*old(self), event, *facts),
    {
        match event {
            AppEvent::Input { button } => match button {
                None => to(AppAction::FoldBattery, AppStage::Ending),
                Some(Button::Power) => to(
                    AppAction::PressSleep(self.sleep_blockers(facts)),
                    AppStage::PowerPressed,
                ),
                Some(button) => self.press(button, facts),
            },
            AppEvent::Settled { chapter_cursor } => match chapter_cursor {
                Some(cursor) => to(AppAction::ApplyCursor(cursor), AppStage::CursorApplied),
                None => self.settle(),
            },
            AppEvent::Asleep | AppEvent::SleepFailed => wait(),
            AppEvent::RefreshFailed => {
                self.rendering = false;
                self.render_pending = false;
                offering(true)
            },
            AppEvent::Library(event) => self.library(event, facts),
            AppEvent::Sync => to(AppAction::FoldSync, AppStage::SyncFolded),
            AppEvent::ParkedTaken(command) => {
                self.accept_parked_storage(&command);
                wait()
            },
        }
    }

    fn advance_transition(&mut self, stage: AppStage, reply: AppReply, facts: &AppFacts) -> (step: Option<AppStep>)
        ensures
            match model::advance_transition(*old(self), stage, reply, *facts) {
                Some(next) => step == Some(next.1) && *final(self) == next.0,
                None => step is None && *final(self) == *old(self),
            },
    {
        match (stage, reply) {
            (AppStage::InputFolded { previous }, AppReply::Done) => {
                if previous.type_settings != facts.view.type_settings || previous.portrait
                    != facts.view.portrait {
                    self.reader_relayout_pending = true;
                }
                Some(self.transition(Cause::Press { previous }))
            },
            (AppStage::Owed { cause, request_id }, AppReply::Command(command)) => {
                if let Some(command) = command {
                    return Some(dispatching(cause, request_id, command));
                }
                let pressed: bool = matches!(cause, Cause::Press { .. });
                if pressed && self.reader_relayout_pending && facts.view.view == AppView::Reading {
                    Some(
                        to(
                            AppAction::RelayoutCommand { request_id },
                            AppStage::Relayout { cause, request_id },
                        ),
                    )
                } else {
                    Some(self.persist(cause, nothing_dispatched(), facts))
                }
            },
            (AppStage::Relayout { cause, request_id }, AppReply::Command(command)) => Some(
                match command {
                    Some(command) => dispatching(cause, request_id, command),
                    None => self.persist(cause, nothing_dispatched(), facts),
                },
            ),
            (AppStage::Sending { cause, request_id, command }, AppReply::Dispatched(outcome)) => {
                if outcome == StorageDispatch::Rejected {
                    if open_book_id(&command).is_some() {
                        Some(to(AppAction::RestorePrevious, AppStage::RolledBack { cause }))
                    } else {
                        Some(self.persist(cause, nothing_dispatched(), facts))
                    }
                } else {
                    self.reader_relayout_pending = false;
                    commit_reader_request_id(&mut self.latest_request_id, request_id);
                    let dispatch = OpenDispatch {
                        switch_dispatched: owns_the_switch(&command),
                        awaiting_chapter_list: outcome == StorageDispatch::Sent && matches!(
                            command,
                            StorageCommand::LoadChapters { .. }
                        ),
                    };
                    Some(to(AppAction::OpenHold(command), AppStage::Holding { cause, dispatch }))
                }
            },
            (
                AppStage::Holding { cause, dispatch },
                AppReply::Hold { opening_book, rollback },
            ) => {
                if let Some(book_id) = opening_book {
                    self.opening_book = Some(book_id);
                    self.suppress_input_until_open_settled = true;
                    self.rollback_held = rollback;
                }
                Some(self.persist(cause, dispatch, facts))
            },
            (AppStage::RolledBack { cause }, AppReply::Done) => Some(
                self.persist(cause, nothing_dispatched(), facts),
            ),
            (AppStage::ProgressSent { cause, dispatch }, AppReply::Dispatched(_)) => Some(
                self.after_progress(cause, dispatch, facts),
            ),
            _ => None,
        }
    }

    fn advance_press(&mut self, stage: AppStage, reply: AppReply, facts: &AppFacts) -> (step: Option<AppStep>)
        ensures
            match model::advance_press(*old(self), stage, reply, *facts) {
                Some(next) => step == Some(next.1) && *final(self) == next.0,
                None => step is None && *final(self) == *old(self),
            },
    {
        match (stage, reply) {
            (AppStage::PowerPressed, AppReply::Allowed(allowed)) => Some(
                if allowed {
                    to(AppAction::SendSleepNow, AppStage::Ending)
                } else {
                    wait()
                },
            ),
            (AppStage::ForgetSent { previous, dispatch }, AppReply::Dispatched(_)) => Some(
                to(AppAction::BrowseCommand, AppStage::Browsing { previous, dispatch }),
            ),
            (AppStage::Browsing { previous, dispatch }, AppReply::Command(command)) => Some(
                match command {
                    Some(command) => to(
                        AppAction::Dispatch(command),
                        AppStage::BrowseSent { previous, dispatch },
                    ),
                    None => to(AppAction::ActionCommand, AppStage::Acting { previous, dispatch }),
                },
            ),
            (AppStage::BrowseSent { previous, dispatch }, AppReply::Dispatched(outcome)) => Some(
                if outcome == StorageDispatch::Rejected {
                    to(AppAction::BrowseRejected, AppStage::BrowseSettled { previous, dispatch })
                } else {
                    to(AppAction::ActionCommand, AppStage::Acting { previous, dispatch })
                },
            ),
            (AppStage::BrowseSettled { previous, dispatch }, AppReply::Done) => Some(
                to(AppAction::ActionCommand, AppStage::Acting { previous, dispatch }),
            ),
            (AppStage::Acting { previous, dispatch }, AppReply::Command(command)) => Some(
                match command {
                    Some(command) => to(
                        AppAction::Dispatch(command),
                        AppStage::ActionSent { previous, dispatch },
                    ),
                    None => self.after_actions(previous, dispatch, facts),
                },
            ),
            (AppStage::ActionSent { previous, dispatch }, AppReply::Dispatched(outcome)) => Some(
                if outcome == StorageDispatch::Rejected {
                    to(AppAction::ActionRejected, AppStage::ActionSettled { previous, dispatch })
                } else {
                    self.after_actions(previous, dispatch, facts)
                },
            ),
            (AppStage::ActionSettled { previous, dispatch }, AppReply::Done) => Some(
                self.after_actions(previous, dispatch, facts),
            ),
            (AppStage::SyncSent { dispatch }, AppReply::Done) => Some(self.press_render(dispatch)),
            _ => None,
        }
    }

    fn advance_event(&mut self, stage: AppStage, reply: AppReply, facts: &AppFacts) -> (step: Option<AppStep>)
        ensures
            match model::advance_event(*old(self), stage, reply, *facts) {
                Some(next) => step == Some(next.1) && *final(self) == next.0,
                None => step is None && *final(self) == *old(self),
            },
    {
        match (stage, reply) {
            (
                AppStage::LibraryFolded { before, event },
                AppReply::FoldedLibrary { stored_chapter_page },
            ) => {
                if !self.boot_render_pending {
                    if let Some(question) = load_question(&before, &facts.view, &event) {
                        return Some(to(question, AppStage::LoadJudged { before, event }));
                    }
                }
                let fold = FoldFacts { load_repaints: false, stored_chapter_page };
                Some(self.folded(&before, &facts.view, &event, &fold))
            },
            (AppStage::LoadJudged { before, event }, AppReply::Allowed(load_repaints)) => {
                let fold = FoldFacts { load_repaints, stored_chapter_page: None };
                Some(self.folded(&before, &facts.view, &event, &fold))
            },
            (AppStage::LibraryRestored { persisted }, AppReply::Done) => Some(
                self.transition(Cause::Library { before: persisted, catalog_fence: None }),
            ),
            (AppStage::QuietGate, AppReply::Allowed(allowed)) => {
                if allowed {
                    self.lift_gate(facts.now_ms);
                    Some(self.releasing(facts))
                } else {
                    Some(wait())
                }
            },
            (AppStage::SyncFolded, AppReply::Done) => Some(
                if facts.view.view == AppView::Wireless {
                    self.render(RenderKind::Page, AppStage::Ending)
                } else {
                    wait()
                },
            ),
            _ => None,
        }
    }

    fn advance_cycle(&mut self, stage: AppStage, reply: AppReply, facts: &AppFacts) -> (step: Option<AppStep>)
        ensures
            match model::advance_cycle(*old(self), stage, reply, *facts) {
                Some(next) => step == Some(next.1) && *final(self) == next.0,
                None => step is None && *final(self) == *old(self),
            },
    {
        match (stage, reply) {
            (AppStage::CursorApplied, AppReply::Done) => Some(self.settle()),
            (AppStage::RetryNoted, AppReply::Done) => {
                if self.catalog_refresh_requested {
                    Some(offering(false))
                } else {
                    self.catalog_refresh_requested = true;
                    Some(to(AppAction::SendLoadCatalog, AppStage::CatalogAsked))
                }
            },
            (AppStage::CatalogAsked, AppReply::Done) => Some(offering(false)),
            (AppStage::Draining { failed }, AppReply::Parked(offer)) => match offer {
                Some(offer) => {
                    if offer.taken {
                        self.accept_parked_storage(&offer.command);
                        Some(offering(failed))
                    } else {
                        Some(self.drained(failed))
                    }
                },
                None => Some(self.drained(failed)),
            },
            (AppStage::RetryAsked, AppReply::Allowed(allowed)) => {
                if allowed {
                    self.rendering = true;
                    Some(to(AppAction::SendRender(RenderKind::Page), AppStage::CycleRendered))
                } else {
                    Some(self.ask_gate(false, AppStage::CycleGate))
                }
            },
            (AppStage::CycleRendered, AppReply::Done) => Some(self.releasing(facts)),
            (AppStage::CycleGate, AppReply::Allowed(allowed)) => {
                if allowed {
                    self.lift_gate(facts.now_ms);
                }
                Some(self.releasing(facts))
            },
            (AppStage::Releasing, AppReply::Allowed(allowed)) => Some(
                if allowed {
                    to(AppAction::SendSleepNow, AppStage::Ending)
                } else {
                    wait()
                },
            ),
            (AppStage::Ending, AppReply::Done) => Some(wait()),
            _ => None,
        }
    }

    /// What the answer to the last action does. `None`, with nothing changed,
    /// when the stage is not waiting for that kind of answer.
    pub fn advance(&mut self, stage: AppStage, reply: AppReply, facts: &AppFacts) -> (step: Option<AppStep>)
        ensures
            match model::advance(*old(self), stage, reply, *facts) {
                Some(next) => step == Some(next.1) && *final(self) == next.0,
                None => step is None && *final(self) == *old(self),
            },
    {
        if let Some(step) = self.advance_transition(stage, reply, facts) {
            return Some(step);
        }
        if let Some(step) = self.advance_press(stage, reply, facts) {
            return Some(step);
        }
        if let Some(step) = self.advance_event(stage, reply, facts) {
            return Some(step);
        }
        self.advance_cycle(stage, reply, facts)
    }
}

pub open spec fn first_kind(boot_render_pending: bool) -> (RenderKind, bool) {
    (if boot_render_pending { RenderKind::Boot } else { RenderKind::Page }, false)
}

pub open spec fn shows_the_shelf(event: LibraryEvent) -> bool {
    event is Restored || event is Scanned
}

/// The boot frame is drawn once: the frame after it is a page, and so is every
/// other.
pub proof fn law_boot_frame_is_drawn_once(pending: bool)
    ensures
        first_kind(true).0 is Boot,
        first_kind(false).0 is Page,
        first_kind(first_kind(pending).1).0 is Page,
{
}

/// The first frame waits for the shelf: for the saved state or a scan, and for
/// nothing less.
pub proof fn law_first_frame_waits_for_the_shelf(event: LibraryEvent)
    ensures
        event is Restored ==> shows_the_shelf(event),
        event is Scanned ==> shows_the_shelf(event),
        shows_the_shelf(event) ==> event is Restored || event is Scanned,
{
}

} // verus!
