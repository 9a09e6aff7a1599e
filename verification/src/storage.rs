//! What one storage command does, as a machine.
//!
//! The task that owns the card starts a command with [`StorageTask::begin`],
//! performs the action it is given, and hands the answer to
//! [`StorageTask::advance`] until the action is [`StorageAction::Finish`].
//! Every decision about order, refusal and what the app is told is made here;
//! the card, the reader store and the queues stay outside.
use vstd::prelude::*;
use crate::background::{apply_build_outcome, BackgroundBuild, BookBuildOutcome};
use crate::messages::{
    record_for_persisted, AppStateRecord, BookPosition, ChapterPages, FolderListing, LibraryEvent,
    PersistedState, SourceIdentity, StorageCommand, TypeSettings,
};
use crate::progress::Progress;
use crate::storage_model as model;

verus! {

/// How many times an open builds further to pin down a stored place. A book
/// whose index refuses to grow must not hold the open open.
pub const PLACE_RESOLVE_STEPS: u8 = 8;

/// What the task keeps between commands.
#[derive(Clone, Copy, PartialEq, Eq, Structural, Debug)]
pub struct StorageTask {
    pub progress: Progress,
    pub background_build: Option<BackgroundBuild>,
    /// Durable state is consulted once per boot.
    pub state_restored: bool,
}

/// What the reader store and the clock say at one step.
#[derive(Clone, Copy, PartialEq, Eq, Debug)]
pub struct StoreFacts {
    pub now_ms: u64,
    /// The orientation of the last frame, which a folder is listed in.
    pub portrait: bool,
    pub catalog_epoch: u32,
    pub browse_epoch: u32,
    pub catalog_count: u16,
    pub catalog_is_empty: bool,
    pub pages: u32,
    pub chapters: u16,
    pub current_chapter: u16,
    pub chapter_pages: ChapterPages,
}

/// What the open transaction asks for next.
#[derive(Clone, Copy, PartialEq, Eq, Structural, Debug)]
pub enum OpenStep {
    CloseOutDeparting(PersistedState),
    Refuse { book_id: u32 },
    StageBook { index: u16, type_settings: TypeSettings, portrait: bool },
    LoadSavedPosition { index: u16 },
    LoadSection { index: u16, chapter: u16, page: u32 },
    StorePointer(PersistedState),
    Announce { book_id: u32, position: Option<u32> },
    Done,
}

/// Where a stored place falls in the pagination that exists so far.
#[derive(Clone, Copy, PartialEq, Eq, Structural, Debug)]
pub enum PlaceTarget {
    /// The position the open already has stands.
    Keep,
    /// The place is this page.
    Page(u32),
    /// The pagination ends before the place; this page lies past its end.
    Extend(u32),
}

/// Where a Library row was found in the catalog.
#[derive(Clone, Copy, PartialEq, Eq, Structural, Debug)]
pub enum CatalogRow {
    Found(u16),
    /// The catalog answered and does not hold the book.
    Rebuild,
    /// The catalog did not answer.
    Unreadable,
}

/// What pressing a Library row came to.
#[derive(Clone, Copy, PartialEq, Eq, Structural, Debug)]
pub enum RowChoice {
    Entered(FolderListing),
    Book(u16),
    /// The card holds the book and the catalog does not.
    Stale,
    Failed,
}

/// How an event leaves the task.
#[derive(Clone, Copy, PartialEq, Eq, Structural, Debug)]
pub enum Route {
    /// By the rule the event itself carries.
    ByEvent,
    /// Never dropped.
    Required,
    /// Down the display channel, falling back to [`Route::ByEvent`].
    Loaded,
}

#[derive(Clone, Copy, PartialEq, Eq, Debug)]
pub struct Emission {
    pub route: Route,
    pub event: LibraryEvent,
}

/// Work for the card, the store or a queue.
#[derive(Clone, Copy, PartialEq, Eq, Structural, Debug)]
pub enum StorageAction {
    /// The command is over.
    Finish,
    /// Write the global record and the book's position. Answer: `Stored`.
    StoreAppState(AppStateRecord),
    /// Write the book's own position file. Answer: `Stored`.
    StoreBookPosition(AppStateRecord),
    /// Write the global record alone. Answer: `Stored`.
    StoreGlobalState(AppStateRecord),
    /// Read the source identity of a book. Answer: `Identity`.
    ReadIdentity { book_id: u32 },
    /// Take the build scratch out of the reader's hands. Answer: `Scratch`.
    TakeScratch,
    /// Mark the sync session's loan as granted and read the saved network.
    /// Answer: `Credentials`.
    GrantLoan,
    /// Read the saved network. Answer: `Credentials`.
    ReadCredentials,
    /// Read the access-point hint and match it. Answer: `Hint`.
    ReadHint,
    /// Write the catalog listing into the loan. Answer: `Done`.
    WriteListing,
    /// Hand over the loan. Answer: `Done`.
    SendLoan { with_network: bool, with_hint: bool },
    /// Tell the waiting task that there is no loan. Answer: `Done`.
    RefuseLoan,
    /// Name the saved network to the app. Answer: `Done`.
    AnnounceNetwork,
    /// Load the custom font manifest. Answer: `Font`.
    LoadFontManifest,
    /// Load the catalog snapshot. Answer: `Loaded`.
    LoadCatalog,
    /// Queue a catalog refresh. Answer: `Done`.
    QueueRefresh,
    /// Scan the card's books. Answer: `Done`.
    ScanBooks,
    /// Read the durable record. Answer: `AppState`.
    LoadAppState,
    /// Find a catalog row by source identity. Answer: `Row`.
    FindByIdentity { source_hash: u32, source_size: u32, legacy: bool },
    /// Read a catalog row into the active slot. Answer: `Done`.
    LoadActiveEntry { index: u16 },
    /// Read a book's stored place. Answer: `Place`.
    LoadPlace { index: u16 },
    /// Read a chapter's title. Answer: `Done`.
    LoadChapterTitle { index: u16, chapter: u16 },
    /// Read a book's page count. Answer: `PageCount`.
    ReadPageCount { index: u16 },
    /// List the library root again. Answer: `Listed`.
    RelistRoot { portrait: bool },
    /// Set the library's status to an error. Answer: `Done`.
    MarkLibraryUnreadable,
    /// Start the open transaction with the command, the request id in force
    /// and the catalog there is. Answer: `Begun`.
    BeginOpen { command: StorageCommand, latest_request_id: u32, catalog_epoch: u32 },
    /// Ask the transaction for its next step. Answer: `Next`.
    NextOpen,
    /// Report the departing book's write. Answer: `Next`.
    OpenDeparting { stored: bool },
    /// Report the refusal as sent. Answer: `Next`.
    OpenRefused,
    /// Adopt a layout, which drops the pages loaded under another. Answer:
    /// `Done`.
    SetLayout { type_settings: TypeSettings, portrait: bool },
    /// Report the book as staged. Answer: `Next`.
    OpenStaged,
    /// Report the position read for the book. Answer: `Next`.
    OpenPosition { position: Option<BookPosition> },
    /// Report the section as loaded, at the page a place resolved to if one
    /// did. Answer: `Next`.
    OpenSectionLoaded { resolved: Option<u32> },
    /// Report the global record's write. Answer: `Next`.
    OpenPointer { stored: bool },
    /// Report the announcement as sent. Answer: `Next`.
    OpenAnnounced,
    /// Ask whether the resident section covers a page. Answer: `Covered`.
    AskCovers { index: u16, page: u32 },
    /// Build or load a book's cache. Answer: `Built`.
    Build { index: u16, chapter: u16, page: u32, show_loading: bool },
    /// Resolve the stored place against the pagination. Answer: `Target`.
    ResolvePlace { index: u16 },
    /// Load a book's chapter list, the window around a chapter. Answer: `Done`.
    LoadChapterList { index: u16, around: u16 },
    /// Slide the chapter window over a chapter. Answer: `Done`.
    EnsureTocWindow { index: u16, chapter: u16, portrait: bool },
    /// Look up the page a chapter of the window begins on. Answer: `JumpPage`.
    ReadChapterPage { chapter: u16 },
    /// Write the network's credentials. Answer: `Written`.
    WriteCredentials,
    /// Read the credentials back. Answer: `ReadBack`.
    ReadBackCredentials,
    /// Tell the portal what became of the credentials. Answer: `Done`.
    ReportCredentials { confirmed: bool },
    /// Write the access-point hint. Answer: `Done`.
    WriteHint,
    /// Delete the credentials. Answer: `Done`.
    ForgetCredentials,
    /// Forget the walk's resume. Answer: `Done`.
    ClearBuildResume,
    /// Name the book under a Library row. Answer: `RowBook`.
    ReadRowBook { index: u16 },
    /// Find that book's catalog row. Answer: `Located`.
    FindByLocator,
    /// Delete a book's cache. Answer: `Cleared`.
    ClearCache { row: u16 },
    /// Press a Library row. Answer: `Chosen`.
    ChooseRow { index: u16, portrait: bool },
    /// Leave the folder. Answer: `Listed`.
    LeaveFolder { portrait: bool },
}

/// The answer to an action.
#[derive(Clone, Copy, PartialEq, Eq, Structural, Debug)]
pub enum StorageReply {
    Done,
    Stored(bool),
    Identity { source: SourceIdentity, is_sd: bool, is_loaded_index: bool },
    Scratch(bool),
    Credentials(bool),
    /// Whether a hint was read and names this network.
    Hint(bool),
    Font { available: bool },
    Loaded(bool),
    AppState(Option<AppStateRecord>),
    Row(Option<u16>),
    Place(Option<BookPosition>),
    PageCount { page_count: u32, book_id: u32 },
    Listed(Option<FolderListing>),
    Begun(bool),
    Next(OpenStep),
    Covered(bool),
    Built(BookBuildOutcome),
    Target(PlaceTarget),
    JumpPage(u32),
    Written(bool),
    /// Whether a record was read back that equals the one written.
    ReadBack(bool),
    RowBook(bool),
    Located(CatalogRow),
    Cleared(bool),
    Chosen(RowChoice),
}

/// An open in progress.
#[derive(Clone, Copy, PartialEq, Eq, Structural, Debug)]
pub struct Opening {
    pub book_id: u32,
    /// `Some(ram_hit)` once a section load was reached.
    pub section_loaded: Option<bool>,
    /// A stored place was read and not yet spent.
    pub place_pending: bool,
}

/// A place being resolved: the row, the chapter and the steps left.
#[derive(Clone, Copy, PartialEq, Eq, Structural, Debug)]
pub struct Resolving {
    pub open: Opening,
    pub index: u16,
    pub chapter: u16,
    pub steps_left: u8,
}

/// Where a command stands: which answer it is waiting for.
#[derive(Clone, Copy, PartialEq, Eq, Structural, Debug)]
pub enum StorageStage {
    Over,
    LoanFlush,
    LoanScratch,
    LoanCredentials,
    LoanHint,
    LoanListing { with_network: bool, with_hint: bool },
    CacheCredentials,
    CacheNamed,
    CacheFont,
    CacheCatalog,
    RefreshFont,
    RefreshScan { request: Option<u32> },
    RestoreRecord { request: Option<u32> },
    RestoreRow { request: Option<u32>, record: AppStateRecord },
    RestoreEntry { request: Option<u32>, record: AppStateRecord, index: u16 },
    RestorePlace { request: Option<u32>, record: AppStateRecord, index: u16 },
    RestoreTitle {
        request: Option<u32>,
        record: AppStateRecord,
        index: u16,
        chapter: u16,
        screen: u32,
    },
    RestoreCount { request: Option<u32>, record: AppStateRecord, chapter: u16, screen: u32 },
    Relist { request: Option<u32> },
    Unreadable { request: Option<u32> },
    OpenBegin(Opening),
    OpenNext(Opening),
    DepartingFlush { open: Opening, previous: PersistedState },
    DepartingIdentity { open: Opening, previous: PersistedState },
    DepartingStore { open: Opening, record: AppStateRecord },
    OpenEntry { open: Opening, type_settings: TypeSettings, portrait: bool },
    OpenLayout(Opening),
    OpenPlace(Opening),
    SectionCovered { open: Opening, index: u16, chapter: u16, page: u32 },
    SectionBuilt { open: Opening, index: u16, chapter: u16 },
    PlaceTarget(Resolving),
    PlaceCovered { resolving: Resolving, page: u32, again: bool },
    PlaceBuilt { resolving: Resolving, page: u32, again: bool },
    PointerIdentity { open: Opening, state: PersistedState },
    PointerStore { open: Opening, record: AppStateRecord },
    ChaptersEntry { book_id: u32, index: u16 },
    Chapters { book_id: u32 },
    JumpEntry {
        book_id: u32,
        index: u16,
        chapter: u16,
        type_settings: TypeSettings,
        portrait: bool,
    },
    JumpLayout { book_id: u32, index: u16, chapter: u16, portrait: bool },
    JumpWindow { book_id: u32, index: u16, chapter: u16 },
    JumpPage { book_id: u32, index: u16, chapter: u16 },
    JumpBuilt { book_id: u32, page: u32 },
    CredentialsWritten,
    CredentialsReadBack,
    /// The last action of the command is out; its answer decides nothing.
    Closing,
    ClearResume { request_id: u32, index: u16, browse_epoch: u32 },
    ClearRow { request_id: u32 },
    ClearLocated { request_id: u32 },
    ClearDone { request_id: u32 },
    Chosen { request_id: u32 },
    Left { request_id: u32 },
    ProgressIdentity { state: PersistedState },
    ProgressFlush { record: AppStateRecord, write: bool },
    ProgressWrite { record: AppStateRecord },
}

/// What to send, in order, what to do after it, and where the command stands.
#[derive(Clone, Copy, PartialEq, Eq, Debug)]
pub struct StorageStep {
    pub first: Option<Emission>,
    pub second: Option<Emission>,
    pub action: StorageAction,
    pub stage: StorageStage,
}

fn act(action: StorageAction, stage: StorageStage) -> (step: StorageStep)
    ensures
        step == model::act(action, stage),
{
    StorageStep { first: None, second: None, action, stage }
}

fn send(route: Route, event: LibraryEvent, action: StorageAction, stage: StorageStage) -> (step: StorageStep)
    ensures
        step == model::send(route, event, action, stage),
{
    StorageStep { first: Some(Emission { route, event }), second: None, action, stage }
}

fn finish() -> (step: StorageStep)
    ensures
        step == model::finish(),
{
    act(StorageAction::Finish, StorageStage::Over)
}

fn answer(route: Route, event: LibraryEvent) -> (step: StorageStep)
    ensures
        step == model::answer(route, event),
{
    send(route, event, StorageAction::Finish, StorageStage::Over)
}

fn close(action: StorageAction) -> (step: StorageStep)
    ensures
        step == model::close(action),
{
    act(action, StorageStage::Closing)
}

fn loaded(book_id: u32, facts: &StoreFacts, position: Option<u32>, text_replaced: bool) -> (event: LibraryEvent)
    ensures
        event == model::loaded(book_id, *facts, position, text_replaced),
{
    LibraryEvent::Loaded {
        book_id,
        pages: facts.pages,
        chapters: facts.chapters,
        current_chapter: facts.current_chapter,
        chapter_pages: facts.chapter_pages,
        position,
        text_replaced,
    }
}

fn listed(request_id: Option<u32>, facts: &StoreFacts, listing: FolderListing) -> (event: LibraryEvent)
    ensures
        event == model::listed(request_id, *facts, listing),
{
    LibraryEvent::FolderListed {
        request_id,
        browse_epoch: facts.browse_epoch,
        depth: listing.depth,
        count: listing.count,
        books: listing.books,
        selection: listing.selection,
    }
}

fn scanned(facts: &StoreFacts) -> (event: LibraryEvent)
    ensures
        event == model::scanned(*facts),
{
    LibraryEvent::Scanned { count: facts.catalog_count, catalog_epoch: facts.catalog_epoch }
}

fn restored(record: &AppStateRecord, book_id: u32, chapter: u16, screen: u32, page_count: u32) -> (event: LibraryEvent)
    ensures
        event == model::restored(*record, book_id, chapter, screen, page_count),
{
    LibraryEvent::Restored {
        book_id,
        chapter,
        page: screen,
        page_count,
        reading_orientation: record.reading_orientation,
        refresh_policy: record.refresh_policy,
        font_size: record.font_size,
        line_spacing: record.line_spacing,
        font_weight: record.font_weight,
        font_family: record.font_family,
        front_buttons: record.front_buttons,
    }
}

fn relist(facts: &StoreFacts, request: Option<u32>) -> (step: StorageStep)
    ensures
        step == model::relist(*facts, request),
{
    send(
        Route::ByEvent,
        scanned(facts),
        StorageAction::RelistRoot { portrait: facts.portrait },
        StorageStage::Relist { request },
    )
}

fn relisted(request: Option<u32>, event: LibraryEvent) -> (step: StorageStep)
    ensures
        step == model::relisted(request, event),
{
    StorageStep {
        first: Some(Emission { route: Route::Required, event }),
        second: match request {
            Some(request_id) => Some(
                Emission { route: Route::Required, event: LibraryEvent::RowFailed { request_id } },
            ),
            None => None,
        },
        action: StorageAction::Finish,
        stage: StorageStage::Over,
    }
}

fn section_done(open: Opening, resolved: Option<u32>) -> (step: StorageStep)
    ensures
        step == model::section_done(open, resolved),
{
    act(StorageAction::OpenSectionLoaded { resolved }, StorageStage::OpenNext(open))
}

fn place_or_done(open: Opening, index: u16, chapter: u16) -> (step: StorageStep)
    ensures
        step == model::place_or_done(open, index, chapter),
{
    if open.place_pending {
        act(
            StorageAction::ResolvePlace { index },
            StorageStage::PlaceTarget(
                Resolving {
                    open: Opening { place_pending: false, ..open },
                    index,
                    chapter,
                    steps_left: PLACE_RESOLVE_STEPS,
                },
            ),
        )
    } else {
        section_done(open, None)
    }
}

fn place_settled(resolving: Resolving, facts: &StoreFacts, page: u32, again: bool) -> (step: StorageStep)
    ensures
        step == model::place_settled(resolving, *facts, page, again),
{
    if !again {
        section_done(resolving.open, Some(page))
    } else if facts.pages <= page || resolving.steps_left <= 1 {
        section_done(resolving.open, None)
    } else {
        act(
            StorageAction::ResolvePlace { index: resolving.index },
            StorageStage::PlaceTarget(
                Resolving { steps_left: resolving.steps_left - 1, ..resolving },
            ),
        )
    }
}

fn place_target(resolving: Resolving, target: PlaceTarget) -> (step: StorageStep)
    ensures
        step == model::place_target(resolving, target),
{
    let (page, again) = match target {
        PlaceTarget::Keep => return section_done(resolving.open, None),
        PlaceTarget::Page(page) => (page, false),
        PlaceTarget::Extend(page) => (page, true),
    };
    act(
        StorageAction::AskCovers { index: resolving.index, page },
        StorageStage::PlaceCovered { resolving, page, again },
    )
}

fn opening(book_id: u32) -> (open: Opening)
    ensures
        open == model::opening(book_id),
{
    Opening { book_id, section_loaded: None, place_pending: false }
}

impl StorageTask {
    /// A task that has just started: nothing owed, nothing building.
    pub fn new() -> (task: StorageTask)
        ensures
            task == (StorageTask {
                progress: Progress { pending: None, written_ms: None },
                background_build: None,
                state_restored: false,
            }),
    {
        StorageTask { progress: Progress::new(), background_build: None, state_restored: false }
    }

    /// Starts `command`. One the sync session does not admit is refused
    /// without a trace; every other command's first step is given by the
    /// model.
    pub fn begin(
        &mut self,
        command: StorageCommand,
        admitted: bool,
        latest_request_id: u32,
        facts: &StoreFacts,
    ) -> (step: StorageStep)
        ensures
            (*final(self), step) == if admitted {
                model::begin(*old(self), command, latest_request_id, *facts)
            } else {
                (*old(self), model::finish())
            },
    {
        if !admitted {
            return finish();
        }
        match command {
            StorageCommand::LoanSyncMemory => match self.progress.pending {
                Some(record) => act(StorageAction::StoreAppState(record), StorageStage::LoanFlush),
                None => act(StorageAction::TakeScratch, StorageStage::LoanScratch),
            },
            StorageCommand::LoadCatalogCache => act(
                StorageAction::ReadCredentials,
                StorageStage::CacheCredentials,
            ),
            StorageCommand::RefreshCatalog => act(
                StorageAction::LoadFontManifest,
                StorageStage::RefreshFont,
            ),
            StorageCommand::OpenBook { book_id, .. }
            | StorageCommand::ExtendSection { book_id, .. } => act(
                StorageAction::BeginOpen {
                    command,
                    latest_request_id,
                    catalog_epoch: facts.catalog_epoch,
                },
                StorageStage::OpenBegin(opening(book_id)),
            ),
            StorageCommand::LoadChapters { request_id, book_id, index } => {
                if request_id != latest_request_id {
                    finish()
                } else {
                    act(
                        StorageAction::LoadActiveEntry { index },
                        StorageStage::ChaptersEntry { book_id, index },
                    )
                }
            },
            StorageCommand::JumpChapter {
                request_id,
                book_id,
                index,
                chapter,
                type_settings,
                portrait,
            } => {
                if request_id != latest_request_id {
                    finish()
                } else {
                    act(
                        StorageAction::LoadActiveEntry { index },
                        StorageStage::JumpEntry { book_id, index, chapter, type_settings, portrait },
                    )
                }
            },
            StorageCommand::ReceiveUpload => finish(),
            StorageCommand::StoreWifiCredentials => act(
                StorageAction::WriteCredentials,
                StorageStage::CredentialsWritten,
            ),
            StorageCommand::StoreWifiApHint => close(StorageAction::WriteHint),
            StorageCommand::ForgetWifiCredentials => close(StorageAction::ForgetCredentials),
            StorageCommand::ClearBookCache { request_id, index, browse_epoch } => {
                self.background_build = None;
                act(
                    StorageAction::ClearBuildResume,
                    StorageStage::ClearResume { request_id, index, browse_epoch },
                )
            },
            StorageCommand::ChooseLibraryRow { request_id, index, browse_epoch } => {
                if browse_epoch == facts.browse_epoch {
                    act(
                        StorageAction::ChooseRow { index, portrait: facts.portrait },
                        StorageStage::Chosen { request_id },
                    )
                } else {
                    answer(Route::Required, LibraryEvent::RowFailed { request_id })
                }
            },
            StorageCommand::LeaveLibraryFolder { request_id, browse_epoch } => {
                if browse_epoch == facts.browse_epoch {
                    act(
                        StorageAction::LeaveFolder { portrait: facts.portrait },
                        StorageStage::Left { request_id },
                    )
                } else {
                    answer(Route::Required, LibraryEvent::RowFailed { request_id })
                }
            },
            StorageCommand::StoreProgress(state) => act(
                StorageAction::ReadIdentity { book_id: state.book_id },
                StorageStage::ProgressIdentity { state },
            ),
        }
    }

    fn restore(&mut self, facts: &StoreFacts, request: Option<u32>) -> (step: StorageStep)
        ensures
            (*final(self), step) == model::restore(*old(self), *facts, request),
    {
        if self.state_restored || facts.catalog_is_empty {
            relist(facts, request)
        } else {
            self.state_restored = true;
            act(StorageAction::LoadAppState, StorageStage::RestoreRecord { request })
        }
    }

    fn open_step(&self, open: Opening, next: OpenStep, facts: &StoreFacts) -> (step: StorageStep)
        ensures
            step == model::open_step(*self, open, next, *facts),
    {
        match next {
            OpenStep::CloseOutDeparting(previous) => match self.progress.owed_to_another(
                previous.book_id,
            ) {
                Some(owed) => act(
                    StorageAction::StoreAppState(owed),
                    StorageStage::DepartingFlush { open, previous },
                ),
                None => act(
                    StorageAction::ReadIdentity { book_id: previous.book_id },
                    StorageStage::DepartingIdentity { open, previous },
                ),
            },
            OpenStep::Refuse { book_id } => send(
                Route::Required,
                LibraryEvent::BookOpenFailed { book_id },
                StorageAction::OpenRefused,
                StorageStage::OpenNext(open),
            ),
            OpenStep::StageBook { index, type_settings, portrait } => act(
                StorageAction::LoadActiveEntry { index },
                StorageStage::OpenEntry { open, type_settings, portrait },
            ),
            OpenStep::LoadSavedPosition { index } => act(
                StorageAction::LoadPlace { index },
                StorageStage::OpenPlace(open),
            ),
            OpenStep::LoadSection { index, chapter, page } => act(
                StorageAction::AskCovers { index, page },
                StorageStage::SectionCovered { open, index, chapter, page },
            ),
            OpenStep::StorePointer(state) => act(
                StorageAction::ReadIdentity { book_id: state.book_id },
                StorageStage::PointerIdentity { open, state },
            ),
            OpenStep::Announce { book_id, position } => {
                let ram_hit: bool = match open.section_loaded {
                    Some(ram_hit) => ram_hit,
                    None => false,
                };
                send(
                    Route::Loaded,
                    loaded(book_id, facts, position, !ram_hit),
                    StorageAction::OpenAnnounced,
                    StorageStage::OpenNext(open),
                )
            },
            OpenStep::Done => finish(),
        }
    }

    fn progress_lands(&mut self, record: AppStateRecord, write: bool) -> (step: StorageStep)
        ensures
            (*final(self), step) == model::progress_lands(*old(self), record, write),
    {
        if write {
            act(StorageAction::StoreAppState(record), StorageStage::ProgressWrite { record })
        } else {
            self.progress.coalesce(record);
            finish()
        }
    }

    fn advance_loan(&mut self, stage: StorageStage, reply: StorageReply, facts: &StoreFacts) -> (step: Option<StorageStep>)
        ensures
            match model::advance_loan(*old(self), stage, reply, *facts) {
                Some(next) => step == Some(next.1) && *final(self) == next.0,
                None => step is None && *final(self) == *old(self),
            },
    {
        match (stage, reply) {
            (StorageStage::LoanFlush, StorageReply::Stored(stored)) => {
                self.progress.flushed(stored, facts.now_ms);
                Some(
                    if stored {
                        act(StorageAction::TakeScratch, StorageStage::LoanScratch)
                    } else {
                        close(StorageAction::RefuseLoan)
                    },
                )
            },
            (StorageStage::LoanScratch, StorageReply::Scratch(taken)) => {
                if taken {
                    self.background_build = None;
                    Some(act(StorageAction::GrantLoan, StorageStage::LoanCredentials))
                } else {
                    Some(close(StorageAction::RefuseLoan))
                }
            },
            (StorageStage::LoanCredentials, StorageReply::Credentials(found)) => Some(
                if found {
                    act(StorageAction::ReadHint, StorageStage::LoanHint)
                } else {
                    act(
                        StorageAction::WriteListing,
                        StorageStage::LoanListing { with_network: false, with_hint: false },
                    )
                },
            ),
            (StorageStage::LoanHint, StorageReply::Hint(matched)) => Some(
                act(
                    StorageAction::WriteListing,
                    StorageStage::LoanListing { with_network: true, with_hint: matched },
                ),
            ),
            (StorageStage::LoanListing { with_network, with_hint }, StorageReply::Done) => Some(
                close(StorageAction::SendLoan { with_network, with_hint }),
            ),
            _ => None,
        }
    }

    fn advance_catalog(&mut self, stage: StorageStage, reply: StorageReply, facts: &StoreFacts) -> (step: Option<StorageStep>)
        ensures
            match model::advance_catalog(*old(self), stage, reply, *facts) {
                Some(next) => step == Some(next.1) && *final(self) == next.0,
                None => step is None && *final(self) == *old(self),
            },
    {
        match (stage, reply) {
            (StorageStage::CacheCredentials, StorageReply::Credentials(found)) => Some(
                if found {
                    act(StorageAction::AnnounceNetwork, StorageStage::CacheNamed)
                } else {
                    act(StorageAction::LoadFontManifest, StorageStage::CacheFont)
                },
            ),
            (StorageStage::CacheNamed, StorageReply::Done) => Some(
                act(StorageAction::LoadFontManifest, StorageStage::CacheFont),
            ),
            (StorageStage::CacheFont, StorageReply::Font { available }) => Some(
                send(
                    Route::ByEvent,
                    LibraryEvent::CustomFont { available },
                    StorageAction::LoadCatalog,
                    StorageStage::CacheCatalog,
                ),
            ),
            (StorageStage::CacheCatalog, StorageReply::Loaded(ok)) => Some(
                if ok {
                    self.restore(facts, None)
                } else {
                    close(StorageAction::QueueRefresh)
                },
            ),
            (StorageStage::RefreshFont, StorageReply::Font { available }) => Some(
                send(
                    Route::ByEvent,
                    LibraryEvent::CustomFont { available },
                    StorageAction::ScanBooks,
                    StorageStage::RefreshScan { request: None },
                ),
            ),
            (StorageStage::RefreshScan { request }, StorageReply::Done) => Some(
                self.restore(facts, request),
            ),
            (StorageStage::RestoreRecord { request }, StorageReply::AppState(found)) => Some(
                match found {
                    Some(record) => act(
                        StorageAction::FindByIdentity {
                            source_hash: record.source_hash,
                            source_size: record.source_size,
                            legacy: record.legacy_source_identity,
                        },
                        StorageStage::RestoreRow { request, record },
                    ),
                    None => relist(facts, request),
                },
            ),
            (StorageStage::RestoreRow { request, record }, StorageReply::Row(found)) => Some(
                match found {
                    Some(index) => act(
                        StorageAction::LoadActiveEntry { index },
                        StorageStage::RestoreEntry { request, record, index },
                    ),
                    None => relist(facts, request),
                },
            ),
            (StorageStage::RestoreEntry { request, record, index }, StorageReply::Done) => Some(
                act(
                    StorageAction::LoadPlace { index },
                    StorageStage::RestorePlace { request, record, index },
                ),
            ),
            (StorageStage::RestorePlace { request, record, index }, StorageReply::Place(place)) => {
                let position = book_position(place, &record);
                Some(
                    act(
                        StorageAction::LoadChapterTitle { index, chapter: position.chapter },
                        StorageStage::RestoreTitle {
                            request,
                            record,
                            index,
                            chapter: position.chapter,
                            screen: position.page,
                        },
                    ),
                )
            },
            (
                StorageStage::RestoreTitle { request, record, index, chapter, screen },
                StorageReply::Done,
            ) => Some(
                act(
                    StorageAction::ReadPageCount { index },
                    StorageStage::RestoreCount { request, record, chapter, screen },
                ),
            ),
            (
                StorageStage::RestoreCount { request, record, chapter, screen },
                StorageReply::PageCount { page_count, book_id },
            ) => Some(
                StorageStep {
                    first: Some(
                        Emission {
                            route: Route::Required,
                            event: restored(&record, book_id, chapter, screen, page_count),
                        },
                    ),
                    second: Some(Emission { route: Route::ByEvent, event: scanned(facts) }),
                    action: StorageAction::RelistRoot { portrait: facts.portrait },
                    stage: StorageStage::Relist { request },
                },
            ),
            (StorageStage::Relist { request }, StorageReply::Listed(listing)) => Some(
                match listing {
                    Some(listing) => relisted(request, listed(None, facts, listing)),
                    None => act(
                        StorageAction::MarkLibraryUnreadable,
                        StorageStage::Unreadable { request },
                    ),
                },
            ),
            (StorageStage::Unreadable { request }, StorageReply::Done) => Some(
                relisted(
                    request,
                    LibraryEvent::LibraryUnreadable { browse_epoch: facts.browse_epoch },
                ),
            ),
            _ => None,
        }
    }

    fn advance_open(&mut self, stage: StorageStage, reply: StorageReply, facts: &StoreFacts) -> (step: Option<StorageStep>)
        ensures
            match model::advance_open(*old(self), stage, reply, *facts) {
                Some(next) => step == Some(next.1) && *final(self) == next.0,
                None => step is None && *final(self) == *old(self),
            },
    {
        match (stage, reply) {
            (StorageStage::OpenBegin(open), StorageReply::Begun(begun)) => Some(
                if begun {
                    act(StorageAction::NextOpen, StorageStage::OpenNext(open))
                } else {
                    finish()
                },
            ),
            (StorageStage::OpenNext(open), StorageReply::Next(next)) => Some(
                self.open_step(open, next, facts),
            ),
            (StorageStage::OpenEntry { open, type_settings, portrait }, StorageReply::Done) => Some(
                act(
                    StorageAction::SetLayout { type_settings, portrait },
                    StorageStage::OpenLayout(open),
                ),
            ),
            (StorageStage::OpenLayout(open), StorageReply::Done) => Some(
                act(StorageAction::OpenStaged, StorageStage::OpenNext(open)),
            ),
            (StorageStage::DepartingFlush { open, previous }, StorageReply::Stored(stored)) => {
                self.progress.flushed(stored, facts.now_ms);
                Some(
                    if stored {
                        act(
                            StorageAction::ReadIdentity { book_id: previous.book_id },
                            StorageStage::DepartingIdentity { open, previous },
                        )
                    } else {
                        act(
                            StorageAction::OpenDeparting { stored: false },
                            StorageStage::OpenNext(open),
                        )
                    },
                )
            },
            (
                StorageStage::DepartingIdentity { open, previous },
                StorageReply::Identity { source, is_sd, is_loaded_index },
            ) => {
                let record = record_for_persisted(
                    previous,
                    source,
                    is_sd,
                    is_loaded_index,
                    facts.current_chapter,
                );
                Some(
                    act(
                        StorageAction::StoreBookPosition(record),
                        StorageStage::DepartingStore { open, record },
                    ),
                )
            },
            (StorageStage::DepartingStore { open, record }, StorageReply::Stored(stored)) => {
                self.progress.closed_out(record, stored);
                Some(act(StorageAction::OpenDeparting { stored }, StorageStage::OpenNext(open)))
            },
            (StorageStage::OpenPlace(open), StorageReply::Place(position)) => Some(
                act(
                    StorageAction::OpenPosition { position },
                    StorageStage::OpenNext(Opening { place_pending: position.is_some(), ..open }),
                ),
            ),
            (
                StorageStage::SectionCovered { open, index, chapter, page },
                StorageReply::Covered(covered),
            ) => {
                let open = Opening { section_loaded: Some(covered), ..open };
                Some(
                    if covered {
                        place_or_done(open, index, chapter)
                    } else {
                        act(
                            StorageAction::Build { index, chapter, page, show_loading: true },
                            StorageStage::SectionBuilt { open, index, chapter },
                        )
                    },
                )
            },
            (StorageStage::SectionBuilt { open, index, chapter }, StorageReply::Built(outcome)) => {
                apply_build_outcome(&mut self.background_build, outcome, open.book_id, facts.now_ms);
                Some(place_or_done(open, index, chapter))
            },
            (StorageStage::PlaceTarget(resolving), StorageReply::Target(target)) => Some(
                place_target(resolving, target),
            ),
            (
                StorageStage::PlaceCovered { resolving, page, again },
                StorageReply::Covered(covered),
            ) => Some(
                if covered {
                    place_settled(resolving, facts, page, again)
                } else {
                    act(
                        StorageAction::Build {
                            index: resolving.index,
                            chapter: resolving.chapter,
                            page,
                            show_loading: false,
                        },
                        StorageStage::PlaceBuilt {
                            resolving: Resolving {
                                open: Opening { section_loaded: Some(false), ..resolving.open },
                                ..resolving
                            },
                            page,
                            again,
                        },
                    )
                },
            ),
            (StorageStage::PlaceBuilt { resolving, page, again }, StorageReply::Built(outcome)) => {
                apply_build_outcome(
                    &mut self.background_build,
                    outcome,
                    resolving.open.book_id,
                    facts.now_ms,
                );
                Some(place_settled(resolving, facts, page, again))
            },
            (
                StorageStage::PointerIdentity { open, state },
                StorageReply::Identity { source, is_sd, is_loaded_index },
            ) => {
                let record = record_for_persisted(
                    state,
                    source,
                    is_sd,
                    is_loaded_index,
                    facts.current_chapter,
                );
                Some(
                    act(
                        StorageAction::StoreGlobalState(record),
                        StorageStage::PointerStore { open, record },
                    ),
                )
            },
            (StorageStage::PointerStore { open, record }, StorageReply::Stored(stored)) => {
                self.progress.written(record, stored, facts.now_ms);
                Some(act(StorageAction::OpenPointer { stored }, StorageStage::OpenNext(open)))
            },
            _ => None,
        }
    }

    fn advance_browse(&mut self, stage: StorageStage, reply: StorageReply, facts: &StoreFacts) -> (step: Option<StorageStep>)
        ensures
            match model::advance_browse(*old(self), stage, reply, *facts) {
                Some(next) => step == Some(next.1) && *final(self) == next.0,
                None => step is None && *final(self) == *old(self),
            },
    {
        match (stage, reply) {
            (StorageStage::ChaptersEntry { book_id, index }, StorageReply::Done) => Some(
                act(
                    StorageAction::LoadChapterList { index, around: facts.current_chapter },
                    StorageStage::Chapters { book_id },
                ),
            ),
            (
                StorageStage::JumpEntry { book_id, index, chapter, type_settings, portrait },
                StorageReply::Done,
            ) => Some(
                act(
                    StorageAction::SetLayout { type_settings, portrait },
                    StorageStage::JumpLayout { book_id, index, chapter, portrait },
                ),
            ),
            (
                StorageStage::JumpLayout { book_id, index, chapter, portrait },
                StorageReply::Done,
            ) => Some(
                act(
                    StorageAction::EnsureTocWindow { index, chapter, portrait },
                    StorageStage::JumpWindow { book_id, index, chapter },
                ),
            ),
            (StorageStage::JumpWindow { book_id, index, chapter }, StorageReply::Done) => Some(
                act(
                    StorageAction::ReadChapterPage { chapter },
                    StorageStage::JumpPage { book_id, index, chapter },
                ),
            ),
            (StorageStage::Chapters { book_id }, StorageReply::Done) => Some(
                answer(Route::Loaded, loaded(book_id, facts, None, true)),
            ),
            (StorageStage::JumpPage { book_id, index, chapter }, StorageReply::JumpPage(page)) => Some(
                act(
                    StorageAction::Build { index, chapter, page, show_loading: false },
                    StorageStage::JumpBuilt { book_id, page },
                ),
            ),
            (StorageStage::JumpBuilt { book_id, page }, StorageReply::Built(outcome)) => {
                apply_build_outcome(&mut self.background_build, outcome, book_id, facts.now_ms);
                Some(answer(Route::Loaded, loaded(book_id, facts, Some(page), true)))
            },
            (
                StorageStage::ClearResume { request_id, index, browse_epoch },
                StorageReply::Done,
            ) => Some(
                if browse_epoch == facts.browse_epoch {
                    act(StorageAction::ReadRowBook { index }, StorageStage::ClearRow { request_id })
                } else {
                    answer(Route::ByEvent, LibraryEvent::CacheCleared { request_id, ok: false })
                },
            ),
            (StorageStage::ClearRow { request_id }, StorageReply::RowBook(is_book)) => Some(
                if is_book {
                    act(StorageAction::FindByLocator, StorageStage::ClearLocated { request_id })
                } else {
                    answer(Route::ByEvent, LibraryEvent::CacheCleared { request_id, ok: false })
                },
            ),
            (StorageStage::ClearLocated { request_id }, StorageReply::Located(row)) => Some(
                match row {
                    CatalogRow::Found(row) => act(
                        StorageAction::ClearCache { row },
                        StorageStage::ClearDone { request_id },
                    ),
                    CatalogRow::Rebuild | CatalogRow::Unreadable => answer(
                        Route::ByEvent,
                        LibraryEvent::CacheCleared { request_id, ok: false },
                    ),
                },
            ),
            (StorageStage::ClearDone { request_id }, StorageReply::Cleared(ok)) => Some(
                answer(Route::ByEvent, LibraryEvent::CacheCleared { request_id, ok }),
            ),
            (StorageStage::Chosen { request_id }, StorageReply::Chosen(choice)) => Some(
                match choice {
                    RowChoice::Entered(listing) => answer(
                        Route::Required,
                        listed(Some(request_id), facts, listing),
                    ),
                    RowChoice::Book(index) => answer(
                        Route::Required,
                        LibraryEvent::RowIsBook {
                            request_id,
                            index,
                            catalog_epoch: facts.catalog_epoch,
                        },
                    ),
                    RowChoice::Failed => answer(
                        Route::Required,
                        LibraryEvent::RowFailed { request_id },
                    ),
                    RowChoice::Stale => act(
                        StorageAction::ScanBooks,
                        StorageStage::RefreshScan { request: Some(request_id) },
                    ),
                },
            ),
            (StorageStage::Left { request_id }, StorageReply::Listed(listing)) => Some(
                match listing {
                    Some(listing) => answer(
                        Route::Required,
                        listed(Some(request_id), facts, listing),
                    ),
                    None => answer(Route::Required, LibraryEvent::RowFailed { request_id }),
                },
            ),
            _ => None,
        }
    }

    fn advance_writes(&mut self, stage: StorageStage, reply: StorageReply, facts: &StoreFacts) -> (step: Option<StorageStep>)
        ensures
            match model::advance_writes(*old(self), stage, reply, *facts) {
                Some(next) => step == Some(next.1) && *final(self) == next.0,
                None => step is None && *final(self) == *old(self),
            },
    {
        match (stage, reply) {
            (StorageStage::CredentialsWritten, StorageReply::Written(written)) => Some(
                if written {
                    act(StorageAction::ReadBackCredentials, StorageStage::CredentialsReadBack)
                } else {
                    close(StorageAction::ReportCredentials { confirmed: false })
                },
            ),
            (StorageStage::CredentialsReadBack, StorageReply::ReadBack(confirmed)) => Some(
                close(StorageAction::ReportCredentials { confirmed }),
            ),
            (StorageStage::Closing, StorageReply::Done) => Some(finish()),
            (
                StorageStage::ProgressIdentity { state },
                StorageReply::Identity { source, is_sd, is_loaded_index },
            ) => {
                let record = record_for_persisted(
                    state,
                    source,
                    is_sd,
                    is_loaded_index,
                    facts.current_chapter,
                );
                let plan = self.progress.plan(&record, facts.now_ms);
                Some(
                    match plan.flush_first {
                        Some(owed) => act(
                            StorageAction::StoreAppState(owed),
                            StorageStage::ProgressFlush { record, write: plan.write },
                        ),
                        None => self.progress_lands(record, plan.write),
                    },
                )
            },
            (StorageStage::ProgressFlush { record, write }, StorageReply::Stored(stored)) => {
                self.progress.flushed(stored, facts.now_ms);
                Some(
                    if stored {
                        self.progress_lands(record, write)
                    } else {
                        finish()
                    },
                )
            },
            (StorageStage::ProgressWrite { record }, StorageReply::Stored(stored)) => {
                self.progress.written(record, stored, facts.now_ms);
                Some(finish())
            },
            _ => None,
        }
    }

    /// What the answer to the last action does. `None`, with nothing changed,
    /// when the stage is not waiting for that kind of answer.
    pub fn advance(&mut self, stage: StorageStage, reply: StorageReply, facts: &StoreFacts) -> (step: Option<StorageStep>)
        ensures
            match model::advance(*old(self), stage, reply, *facts) {
                Some(next) => step == Some(next.1) && *final(self) == next.0,
                None => step is None && *final(self) == *old(self),
            },
    {
        if let Some(step) = self.advance_open(stage, reply, facts) {
            return Some(step);
        }
        if let Some(step) = self.advance_catalog(stage, reply, facts) {
            return Some(step);
        }
        if let Some(step) = self.advance_browse(stage, reply, facts) {
            return Some(step);
        }
        if let Some(step) = self.advance_loan(stage, reply, facts) {
            return Some(step);
        }
        self.advance_writes(stage, reply, facts)
    }
}

/// Where the reader is in a book: its own stored place, or, only when that is
/// missing, the mirror in the global record.
pub fn book_position(place: Option<BookPosition>, mirror: &AppStateRecord) -> (position: BookPosition)
    ensures
        position == position_to_save(place, *mirror),
        position == match place {
            Some(position) => position,
            None => BookPosition { chapter: mirror.chapter, page: mirror.screen },
        },
{
    match place {
        Some(position) => position,
        None => BookPosition { chapter: mirror.chapter, page: mirror.screen },
    }
}

pub open spec fn position_to_save(place: Option<BookPosition>, mirror: AppStateRecord) -> BookPosition {
    match place {
        Some(position) => position,
        None => BookPosition { chapter: mirror.chapter, page: mirror.screen },
    }
}

/// A place that is known is where the book is; otherwise it is where the
/// mirror last saw it, in chapter and page.
pub proof fn law_known_place_is_the_position(position: BookPosition, mirror: AppStateRecord)
    ensures
        position_to_save(Some(position), mirror) == position,
        position_to_save(None, mirror).chapter == mirror.chapter,
        position_to_save(None, mirror).page == mirror.screen,
{
}

} // verus!
