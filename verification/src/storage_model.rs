//! The storage machine as a mathematical function: for each stage and answer,
//! what the task keeps, what it sends and what it does next.
use vstd::prelude::*;
use crate::background::handle_after_outcome;
use crate::messages::{
    record_of, AppStateRecord, BookPosition, FolderListing, LibraryEvent, PersistedState,
    SourceIdentity, StorageCommand,
};
use crate::progress::{other_books_record, progress_plan, Progress};
use crate::storage::{
    CatalogRow, Emission, OpenStep, Opening, PlaceTarget, Resolving, Route, RowChoice,
    StorageAction, StorageReply, StorageStage, StorageStep, StorageTask, StoreFacts,
    PLACE_RESOLVE_STEPS,
};

verus! {

/// A step that sends nothing.
pub open spec fn act(action: StorageAction, stage: StorageStage) -> StorageStep {
    StorageStep { first: None, second: None, action, stage }
}

/// A step that sends one event before it acts.
pub open spec fn send(route: Route, event: LibraryEvent, action: StorageAction, stage: StorageStage) -> StorageStep {
    StorageStep { first: Some(Emission { route, event }), second: None, action, stage }
}

pub open spec fn finish() -> StorageStep {
    act(StorageAction::Finish, StorageStage::Over)
}

/// A last event, and the command is over.
pub open spec fn answer(route: Route, event: LibraryEvent) -> StorageStep {
    send(route, event, StorageAction::Finish, StorageStage::Over)
}

/// A last action whose answer decides nothing.
pub open spec fn close(action: StorageAction) -> StorageStep {
    act(action, StorageStage::Closing)
}

pub open spec fn loaded(book_id: u32, facts: StoreFacts, position: Option<u32>, text_replaced: bool) -> LibraryEvent {
    LibraryEvent::Loaded {
        book_id,
        pages: facts.pages,
        chapters: facts.chapters,
        current_chapter: facts.current_chapter,
        chapter_pages: facts.chapter_pages,
        position,
        text_replaced,
    }
}

pub open spec fn listed(request_id: Option<u32>, facts: StoreFacts, listing: FolderListing) -> LibraryEvent {
    LibraryEvent::FolderListed {
        request_id,
        browse_epoch: facts.browse_epoch,
        depth: listing.depth,
        count: listing.count,
        books: listing.books,
        selection: listing.selection,
    }
}

pub open spec fn scanned(facts: StoreFacts) -> LibraryEvent {
    LibraryEvent::Scanned { count: facts.catalog_count, catalog_epoch: facts.catalog_epoch }
}

pub open spec fn restored(record: AppStateRecord, book_id: u32, chapter: u16, screen: u32, page_count: u32) -> LibraryEvent {
    LibraryEvent::Restored {
        book_id,
        chapter,
        page: screen,
        page_count,
        reading_orientation: record.reading_orientation,
        refresh_policy: record.refresh_policy,
        font_size: record.font_size,
        line_spacing: record.line_spacing,
        font_weight: record.font_weight,
        font_family: record.font_family,
        front_buttons: record.front_buttons,
    }
}

/// The record a persisted state becomes, from what the store says of its book.
pub open spec fn record_from(state: PersistedState, source: SourceIdentity, is_sd: bool, is_loaded_index: bool, facts: StoreFacts) -> AppStateRecord {
    record_of(
        state,
        source,
        if is_sd && is_loaded_index { Some(facts.current_chapter) } else { None },
    )
}

/// The slot after the record in it was written, or was not.
pub open spec fn after_flush(progress: Progress, stored: bool, now_ms: u64) -> Progress {
    if stored { Progress { pending: None, written_ms: Some(now_ms) } } else { progress }
}

/// The slot after `record` was written, or was not.
pub open spec fn after_write(progress: Progress, record: AppStateRecord, stored: bool, now_ms: u64) -> Progress {
    if stored {
        Progress { pending: None, written_ms: Some(now_ms) }
    } else {
        Progress { pending: Some(record), ..progress }
    }
}

/// The scan is over or was not needed: name the catalog and list the root.
pub open spec fn relist(facts: StoreFacts, request: Option<u32>) -> StorageStep {
    send(
        Route::ByEvent,
        scanned(facts),
        StorageAction::RelistRoot { portrait: facts.portrait },
        StorageStage::Relist { request },
    )
}

/// A catalog is resident: restore the saved state once per boot, and only
/// onto a catalog that holds something.
pub open spec fn restore(task: StorageTask, facts: StoreFacts, request: Option<u32>) -> (StorageTask, StorageStep) {
    if task.state_restored || facts.catalog_is_empty {
        (task, relist(facts, request))
    } else {
        (
            StorageTask { state_restored: true, ..task },
            act(StorageAction::LoadAppState, StorageStage::RestoreRecord { request }),
        )
    }
}

/// The tail of every rebuild: what the root listing came to, then the refusal
/// a stale row press is still owed.
pub open spec fn relisted(request: Option<u32>, event: LibraryEvent) -> StorageStep {
    StorageStep {
        first: Some(Emission { route: Route::Required, event }),
        second: match request {
            Some(request_id) => Some(
                Emission { route: Route::Required, event: LibraryEvent::RowFailed { request_id } },
            ),
            None => None,
        },
        action: StorageAction::Finish,
        stage: StorageStage::Over,
    }
}

/// A section is resident: a place that was read is now resolved against it.
pub open spec fn place_or_done(open: Opening, index: u16, chapter: u16) -> StorageStep {
    if open.place_pending {
        act(
            StorageAction::ResolvePlace { index },
            StorageStage::PlaceTarget(
                Resolving {
                    open: Opening { place_pending: false, ..open },
                    index,
                    chapter,
                    steps_left: PLACE_RESOLVE_STEPS,
                },
            ),
        )
    } else {
        section_done(open, None)
    }
}

pub open spec fn section_done(open: Opening, resolved: Option<u32>) -> StorageStep {
    act(StorageAction::OpenSectionLoaded { resolved }, StorageStage::OpenNext(open))
}

/// The page a place named is resident, or could not be made so. An exact page
/// ends the walk; a further one asks again while the index grew and steps
/// are left.
pub open spec fn place_settled(resolving: Resolving, facts: StoreFacts, page: u32, again: bool) -> StorageStep {
    if !again {
        section_done(resolving.open, Some(page))
    } else if facts.pages <= page || resolving.steps_left <= 1 {
        section_done(resolving.open, None)
    } else {
        act(
            StorageAction::ResolvePlace { index: resolving.index },
            StorageStage::PlaceTarget(
                Resolving { steps_left: (resolving.steps_left - 1) as u8, ..resolving },
            ),
        )
    }
}

pub open spec fn place_target(resolving: Resolving, target: PlaceTarget) -> StorageStep {
    match target {
        PlaceTarget::Keep => section_done(resolving.open, None),
        PlaceTarget::Page(page) => act(
            StorageAction::AskCovers { index: resolving.index, page },
            StorageStage::PlaceCovered { resolving, page, again: false },
        ),
        PlaceTarget::Extend(page) => act(
            StorageAction::AskCovers { index: resolving.index, page },
            StorageStage::PlaceCovered { resolving, page, again: true },
        ),
    }
}

/// The step the open transaction asked for.
pub open spec fn open_step(task: StorageTask, open: Opening, next: OpenStep, facts: StoreFacts) -> StorageStep {
    match next {
        OpenStep::CloseOutDeparting(previous) => match other_books_record(
            task.progress.pending,
            previous.book_id,
        ) {
            Some(owed) => act(
                StorageAction::StoreAppState(owed),
                StorageStage::DepartingFlush { open, previous },
            ),
            None => act(
                StorageAction::ReadIdentity { book_id: previous.book_id },
                StorageStage::DepartingIdentity { open, previous },
            ),
        },
        OpenStep::Refuse { book_id } => send(
            Route::Required,
            LibraryEvent::BookOpenFailed { book_id },
            StorageAction::OpenRefused,
            StorageStage::OpenNext(open),
        ),
        OpenStep::StageBook { index, type_settings, portrait } => act(
            StorageAction::LoadActiveEntry { index },
            StorageStage::OpenEntry { open, type_settings, portrait },
        ),
        OpenStep::LoadSavedPosition { index } => act(
            StorageAction::LoadPlace { index },
            StorageStage::OpenPlace(open),
        ),
        OpenStep::LoadSection { index, chapter, page } => act(
            StorageAction::AskCovers { index, page },
            StorageStage::SectionCovered { open, index, chapter, page },
        ),
        OpenStep::StorePointer(state) => act(
            StorageAction::ReadIdentity { book_id: state.book_id },
            StorageStage::PointerIdentity { open, state },
        ),
        OpenStep::Announce { book_id, position } => send(
            Route::Loaded,
            loaded(book_id, facts, position, open.section_loaded != Some(true)),
            StorageAction::OpenAnnounced,
            StorageStage::OpenNext(open),
        ),
        OpenStep::Done => finish(),
    }
}

/// A progress record is due on the card or joins the slot.
pub open spec fn progress_lands(task: StorageTask, record: AppStateRecord, write: bool) -> (StorageTask, StorageStep) {
    if write {
        (
            task,
            act(StorageAction::StoreAppState(record), StorageStage::ProgressWrite { record }),
        )
    } else {
        (
            StorageTask {
                progress: Progress { pending: Some(record), ..task.progress },
                ..task
            },
            finish(),
        )
    }
}

pub open spec fn opening(book_id: u32) -> Opening {
    Opening { book_id, section_loaded: None, place_pending: false }
}

/// An open begins with a transaction of its own, which is given the command,
/// the request id in force and the catalog there is.
pub open spec fn begin_open(command: StorageCommand, book_id: u32, latest_request_id: u32, facts: StoreFacts) -> StorageStep {
    act(
        StorageAction::BeginOpen {
            command,
            latest_request_id,
            catalog_epoch: facts.catalog_epoch,
        },
        StorageStage::OpenBegin(opening(book_id)),
    )
}

/// The first step of a command the session admits.
pub open spec fn begin(task: StorageTask, command: StorageCommand, latest_request_id: u32, facts: StoreFacts) -> (StorageTask, StorageStep) {
    match command {
        StorageCommand::LoanSyncMemory => (
            task,
            match task.progress.pending {
                Some(record) => act(StorageAction::StoreAppState(record), StorageStage::LoanFlush),
                None => act(StorageAction::TakeScratch, StorageStage::LoanScratch),
            },
        ),
        StorageCommand::LoadCatalogCache => (
            task,
            act(StorageAction::ReadCredentials, StorageStage::CacheCredentials),
        ),
        StorageCommand::RefreshCatalog => (
            task,
            act(StorageAction::LoadFontManifest, StorageStage::RefreshFont),
        ),
        StorageCommand::OpenBook { book_id, .. } => (
            task,
            begin_open(command, book_id, latest_request_id, facts),
        ),
        StorageCommand::ExtendSection { book_id, .. } => (
            task,
            begin_open(command, book_id, latest_request_id, facts),
        ),
        StorageCommand::LoadChapters { request_id, book_id, index } => (
            task,
            if request_id != latest_request_id {
                finish()
            } else {
                act(
                    StorageAction::LoadActiveEntry { index },
                    StorageStage::ChaptersEntry { book_id, index },
                )
            },
        ),
        StorageCommand::JumpChapter { request_id, book_id, index, chapter, type_settings, portrait } => (
            task,
            if request_id != latest_request_id {
                finish()
            } else {
                act(
                    StorageAction::LoadActiveEntry { index },
                    StorageStage::JumpEntry { book_id, index, chapter, type_settings, portrait },
                )
            },
        ),
        StorageCommand::ReceiveUpload => (task, finish()),
        StorageCommand::StoreWifiCredentials => (
            task,
            act(StorageAction::WriteCredentials, StorageStage::CredentialsWritten),
        ),
        StorageCommand::StoreWifiApHint => (task, close(StorageAction::WriteHint)),
        StorageCommand::ForgetWifiCredentials => (task, close(StorageAction::ForgetCredentials)),
        StorageCommand::ClearBookCache { request_id, index, browse_epoch } => (
            StorageTask { background_build: None, ..task },
            act(
                StorageAction::ClearBuildResume,
                StorageStage::ClearResume { request_id, index, browse_epoch },
            ),
        ),
        StorageCommand::ChooseLibraryRow { request_id, index, browse_epoch } => (
            task,
            if browse_epoch == facts.browse_epoch {
                act(
                    StorageAction::ChooseRow { index, portrait: facts.portrait },
                    StorageStage::Chosen { request_id },
                )
            } else {
                answer(Route::Required, LibraryEvent::RowFailed { request_id })
            },
        ),
        StorageCommand::LeaveLibraryFolder { request_id, browse_epoch } => (
            task,
            if browse_epoch == facts.browse_epoch {
                act(
                    StorageAction::LeaveFolder { portrait: facts.portrait },
                    StorageStage::Left { request_id },
                )
            } else {
                answer(Route::Required, LibraryEvent::RowFailed { request_id })
            },
        ),
        StorageCommand::StoreProgress(state) => (
            task,
            act(
                StorageAction::ReadIdentity { book_id: state.book_id },
                StorageStage::ProgressIdentity { state },
            ),
        ),
    }
}

/// The stages of the sync loan.
pub open spec fn advance_loan(task: StorageTask, stage: StorageStage, reply: StorageReply, facts: StoreFacts) -> Option<(StorageTask, StorageStep)> {
    match (stage, reply) {
        (StorageStage::LoanFlush, StorageReply::Stored(stored)) => Some(
            (
                StorageTask { progress: after_flush(task.progress, stored, facts.now_ms), ..task },
                if stored {
                    act(StorageAction::TakeScratch, StorageStage::LoanScratch)
                } else {
                    close(StorageAction::RefuseLoan)
                },
            ),
        ),
        (StorageStage::LoanScratch, StorageReply::Scratch(taken)) => Some(
            if taken {
                (
                    StorageTask { background_build: None, ..task },
                    act(StorageAction::GrantLoan, StorageStage::LoanCredentials),
                )
            } else {
                (task, close(StorageAction::RefuseLoan))
            },
        ),
        (StorageStage::LoanCredentials, StorageReply::Credentials(found)) => Some(
            (
                task,
                if found {
                    act(StorageAction::ReadHint, StorageStage::LoanHint)
                } else {
                    act(
                        StorageAction::WriteListing,
                        StorageStage::LoanListing { with_network: false, with_hint: false },
                    )
                },
            ),
        ),
        (StorageStage::LoanHint, StorageReply::Hint(matched)) => Some(
            (
                task,
                act(
                    StorageAction::WriteListing,
                    StorageStage::LoanListing { with_network: true, with_hint: matched },
                ),
            ),
        ),
        (StorageStage::LoanListing { with_network, with_hint }, StorageReply::Done) => Some(
            (task, close(StorageAction::SendLoan { with_network, with_hint })),
        ),
        _ => None,
    }
}

/// The stages of a catalog load or rebuild, and of the restore and listing
/// that follow either.
pub open spec fn advance_catalog(task: StorageTask, stage: StorageStage, reply: StorageReply, facts: StoreFacts) -> Option<(StorageTask, StorageStep)> {
    match (stage, reply) {
        (StorageStage::CacheCredentials, StorageReply::Credentials(found)) => Some(
            (
                task,
                if found {
                    act(StorageAction::AnnounceNetwork, StorageStage::CacheNamed)
                } else {
                    act(StorageAction::LoadFontManifest, StorageStage::CacheFont)
                },
            ),
        ),
        (StorageStage::CacheNamed, StorageReply::Done) => Some(
            (task, act(StorageAction::LoadFontManifest, StorageStage::CacheFont)),
        ),
        (StorageStage::CacheFont, StorageReply::Font { available }) => Some(
            (
                task,
                send(
                    Route::ByEvent,
                    LibraryEvent::CustomFont { available },
                    StorageAction::LoadCatalog,
                    StorageStage::CacheCatalog,
                ),
            ),
        ),
        (StorageStage::CacheCatalog, StorageReply::Loaded(ok)) => Some(
            if ok {
                restore(task, facts, None)
            } else {
                (task, close(StorageAction::QueueRefresh))
            },
        ),
        (StorageStage::RefreshFont, StorageReply::Font { available }) => Some(
            (
                task,
                send(
                    Route::ByEvent,
                    LibraryEvent::CustomFont { available },
                    StorageAction::ScanBooks,
                    StorageStage::RefreshScan { request: None },
                ),
            ),
        ),
        (StorageStage::RefreshScan { request }, StorageReply::Done) => Some(
            restore(task, facts, request),
        ),
        (StorageStage::RestoreRecord { request }, StorageReply::AppState(found)) => Some(
            (
                task,
                match found {
                    Some(record) => act(
                        StorageAction::FindByIdentity {
                            source_hash: record.source_hash,
                            source_size: record.source_size,
                            legacy: record.legacy_source_identity,
                        },
                        StorageStage::RestoreRow { request, record },
                    ),
                    None => relist(facts, request),
                },
            ),
        ),
        (StorageStage::RestoreRow { request, record }, StorageReply::Row(found)) => Some(
            (
                task,
                match found {
                    Some(index) => act(
                        StorageAction::LoadActiveEntry { index },
                        StorageStage::RestoreEntry { request, record, index },
                    ),
                    None => relist(facts, request),
                },
            ),
        ),
        (StorageStage::RestoreEntry { request, record, index }, StorageReply::Done) => Some(
            (
                task,
                act(
                    StorageAction::LoadPlace { index },
                    StorageStage::RestorePlace { request, record, index },
                ),
            ),
        ),
        (StorageStage::RestorePlace { request, record, index }, StorageReply::Place(place)) => {
            let position = match place {
                Some(position) => position,
                None => BookPosition { chapter: record.chapter, page: record.screen },
            };
            Some(
                (
                    task,
                    act(
                        StorageAction::LoadChapterTitle { index, chapter: position.chapter },
                        StorageStage::RestoreTitle {
                            request,
                            record,
                            index,
                            chapter: position.chapter,
                            screen: position.page,
                        },
                    ),
                ),
            )
        },
        (
            StorageStage::RestoreTitle { request, record, index, chapter, screen },
            StorageReply::Done,
        ) => Some(
            (
                task,
                act(
                    StorageAction::ReadPageCount { index },
                    StorageStage::RestoreCount { request, record, chapter, screen },
                ),
            ),
        ),
        (
            StorageStage::RestoreCount { request, record, chapter, screen },
            StorageReply::PageCount { page_count, book_id },
        ) => Some(
            (
                task,
                StorageStep {
                    first: Some(
                        Emission {
                            route: Route::Required,
                            event: restored(record, book_id, chapter, screen, page_count),
                        },
                    ),
                    second: Some(Emission { route: Route::ByEvent, event: scanned(facts) }),
                    action: StorageAction::RelistRoot { portrait: facts.portrait },
                    stage: StorageStage::Relist { request },
                },
            ),
        ),
        (StorageStage::Relist { request }, StorageReply::Listed(listing)) => Some(
            (
                task,
                match listing {
                    Some(listing) => relisted(request, listed(None, facts, listing)),
                    None => act(
                        StorageAction::MarkLibraryUnreadable,
                        StorageStage::Unreadable { request },
                    ),
                },
            ),
        ),
        (StorageStage::Unreadable { request }, StorageReply::Done) => Some(
            (
                task,
                relisted(
                    request,
                    LibraryEvent::LibraryUnreadable { browse_epoch: facts.browse_epoch },
                ),
            ),
        ),
        _ => None,
    }
}

/// The stages of an open or extend.
pub open spec fn advance_open(task: StorageTask, stage: StorageStage, reply: StorageReply, facts: StoreFacts) -> Option<(StorageTask, StorageStep)> {
    match (stage, reply) {
        (StorageStage::OpenBegin(open), StorageReply::Begun(begun)) => Some(
            (
                task,
                if begun {
                    act(StorageAction::NextOpen, StorageStage::OpenNext(open))
                } else {
                    finish()
                },
            ),
        ),
        (StorageStage::OpenNext(open), StorageReply::Next(next)) => Some(
            (task, open_step(task, open, next, facts)),
        ),
        (StorageStage::OpenEntry { open, type_settings, portrait }, StorageReply::Done) => Some(
            (
                task,
                act(
                    StorageAction::SetLayout { type_settings, portrait },
                    StorageStage::OpenLayout(open),
                ),
            ),
        ),
        (StorageStage::OpenLayout(open), StorageReply::Done) => Some(
            (task, act(StorageAction::OpenStaged, StorageStage::OpenNext(open))),
        ),
        (StorageStage::DepartingFlush { open, previous }, StorageReply::Stored(stored)) => Some(
            (
                StorageTask { progress: after_flush(task.progress, stored, facts.now_ms), ..task },
                if stored {
                    act(
                        StorageAction::ReadIdentity { book_id: previous.book_id },
                        StorageStage::DepartingIdentity { open, previous },
                    )
                } else {
                    act(
                        StorageAction::OpenDeparting { stored: false },
                        StorageStage::OpenNext(open),
                    )
                },
            ),
        ),
        (
            StorageStage::DepartingIdentity { open, previous },
            StorageReply::Identity { source, is_sd, is_loaded_index },
        ) => {
            let record = record_from(previous, source, is_sd, is_loaded_index, facts);
            Some(
                (
                    task,
                    act(
                        StorageAction::StoreBookPosition(record),
                        StorageStage::DepartingStore { open, record },
                    ),
                ),
            )
        },
        (StorageStage::DepartingStore { open, record }, StorageReply::Stored(stored)) => Some(
            (
                StorageTask {
                    progress: Progress {
                        pending: if stored { None } else { Some(record) },
                        ..task.progress
                    },
                    ..task
                },
                act(StorageAction::OpenDeparting { stored }, StorageStage::OpenNext(open)),
            ),
        ),
        (StorageStage::OpenPlace(open), StorageReply::Place(position)) => Some(
            (
                task,
                act(
                    StorageAction::OpenPosition { position },
                    StorageStage::OpenNext(Opening { place_pending: position is Some, ..open }),
                ),
            ),
        ),
        (
            StorageStage::SectionCovered { open, index, chapter, page },
            StorageReply::Covered(covered),
        ) => {
            let open = Opening { section_loaded: Some(covered), ..open };
            Some(
                (
                    task,
                    if covered {
                        place_or_done(open, index, chapter)
                    } else {
                        act(
                            StorageAction::Build { index, chapter, page, show_loading: true },
                            StorageStage::SectionBuilt { open, index, chapter },
                        )
                    },
                ),
            )
        },
        (StorageStage::SectionBuilt { open, index, chapter }, StorageReply::Built(outcome)) => Some(
            (
                StorageTask {
                    background_build: handle_after_outcome(
                        task.background_build,
                        outcome,
                        open.book_id,
                        facts.now_ms,
                    ),
                    ..task
                },
                place_or_done(open, index, chapter),
            ),
        ),
        (StorageStage::PlaceTarget(resolving), StorageReply::Target(target)) => Some(
            (task, place_target(resolving, target)),
        ),
        (
            StorageStage::PlaceCovered { resolving, page, again },
            StorageReply::Covered(covered),
        ) => Some(
            (
                task,
                if covered {
                    place_settled(resolving, facts, page, again)
                } else {
                    act(
                        StorageAction::Build {
                            index: resolving.index,
                            chapter: resolving.chapter,
                            page,
                            show_loading: false,
                        },
                        StorageStage::PlaceBuilt {
                            resolving: Resolving {
                                open: Opening { section_loaded: Some(false), ..resolving.open },
                                ..resolving
                            },
                            page,
                            again,
                        },
                    )
                },
            ),
        ),
        (StorageStage::PlaceBuilt { resolving, page, again }, StorageReply::Built(outcome)) => Some(
            (
                StorageTask {
                    background_build: handle_after_outcome(
                        task.background_build,
                        outcome,
                        resolving.open.book_id,
                        facts.now_ms,
                    ),
                    ..task
                },
                place_settled(resolving, facts, page, again),
            ),
        ),
        (
            StorageStage::PointerIdentity { open, state },
            StorageReply::Identity { source, is_sd, is_loaded_index },
        ) => {
            let record = record_from(state, source, is_sd, is_loaded_index, facts);
            Some(
                (
                    task,
                    act(
                        StorageAction::StoreGlobalState(record),
                        StorageStage::PointerStore { open, record },
                    ),
                ),
            )
        },
        (StorageStage::PointerStore { open, record }, StorageReply::Stored(stored)) => Some(
            (
                StorageTask {
                    progress: after_write(task.progress, record, stored, facts.now_ms),
                    ..task
                },
                act(StorageAction::OpenPointer { stored }, StorageStage::OpenNext(open)),
            ),
        ),
        _ => None,
    }
}

/// The stages of the commands that answer a press in Library or Chapters.
pub open spec fn advance_browse(task: StorageTask, stage: StorageStage, reply: StorageReply, facts: StoreFacts) -> Option<(StorageTask, StorageStep)> {
    match (stage, reply) {
        (StorageStage::ChaptersEntry { book_id, index }, StorageReply::Done) => Some(
            (
                task,
                act(
                    StorageAction::LoadChapterList { index, around: facts.current_chapter },
                    StorageStage::Chapters { book_id },
                ),
            ),
        ),
        (
            StorageStage::JumpEntry { book_id, index, chapter, type_settings, portrait },
            StorageReply::Done,
        ) => Some(
            (
                task,
                act(
                    StorageAction::SetLayout { type_settings, portrait },
                    StorageStage::JumpLayout { book_id, index, chapter, portrait },
                ),
            ),
        ),
        (
            StorageStage::JumpLayout { book_id, index, chapter, portrait },
            StorageReply::Done,
        ) => Some(
            (
                task,
                act(
                    StorageAction::EnsureTocWindow { index, chapter, portrait },
                    StorageStage::JumpWindow { book_id, index, chapter },
                ),
            ),
        ),
        (StorageStage::JumpWindow { book_id, index, chapter }, StorageReply::Done) => Some(
            (
                task,
                act(
                    StorageAction::ReadChapterPage { chapter },
                    StorageStage::JumpPage { book_id, index, chapter },
                ),
            ),
        ),
        (StorageStage::Chapters { book_id }, StorageReply::Done) => Some(
            (task, answer(Route::Loaded, loaded(book_id, facts, None, true))),
        ),
        (StorageStage::JumpPage { book_id, index, chapter }, StorageReply::JumpPage(page)) => Some(
            (
                task,
                act(
                    StorageAction::Build { index, chapter, page, show_loading: false },
                    StorageStage::JumpBuilt { book_id, page },
                ),
            ),
        ),
        (StorageStage::JumpBuilt { book_id, page }, StorageReply::Built(outcome)) => Some(
            (
                StorageTask {
                    background_build: handle_after_outcome(
                        task.background_build,
                        outcome,
                        book_id,
                        facts.now_ms,
                    ),
                    ..task
                },
                answer(Route::Loaded, loaded(book_id, facts, Some(page), true)),
            ),
        ),
        (
            StorageStage::ClearResume { request_id, index, browse_epoch },
            StorageReply::Done,
        ) => Some(
            (
                task,
                if browse_epoch == facts.browse_epoch {
                    act(StorageAction::ReadRowBook { index }, StorageStage::ClearRow { request_id })
                } else {
                    answer(Route::ByEvent, LibraryEvent::CacheCleared { request_id, ok: false })
                },
            ),
        ),
        (StorageStage::ClearRow { request_id }, StorageReply::RowBook(is_book)) => Some(
            (
                task,
                if is_book {
                    act(StorageAction::FindByLocator, StorageStage::ClearLocated { request_id })
                } else {
                    answer(Route::ByEvent, LibraryEvent::CacheCleared { request_id, ok: false })
                },
            ),
        ),
        (StorageStage::ClearLocated { request_id }, StorageReply::Located(row)) => Some(
            (
                task,
                match row {
                    CatalogRow::Found(row) => act(
                        StorageAction::ClearCache { row },
                        StorageStage::ClearDone { request_id },
                    ),
                    _ => answer(
                        Route::ByEvent,
                        LibraryEvent::CacheCleared { request_id, ok: false },
                    ),
                },
            ),
        ),
        (StorageStage::ClearDone { request_id }, StorageReply::Cleared(ok)) => Some(
            (task, answer(Route::ByEvent, LibraryEvent::CacheCleared { request_id, ok })),
        ),
        (StorageStage::Chosen { request_id }, StorageReply::Chosen(choice)) => Some(
            (
                task,
                match choice {
                    RowChoice::Entered(listing) => answer(
                        Route::Required,
                        listed(Some(request_id), facts, listing),
                    ),
                    RowChoice::Book(index) => answer(
                        Route::Required,
                        LibraryEvent::RowIsBook {
                            request_id,
                            index,
                            catalog_epoch: facts.catalog_epoch,
                        },
                    ),
                    RowChoice::Failed => answer(
                        Route::Required,
                        LibraryEvent::RowFailed { request_id },
                    ),
                    RowChoice::Stale => act(
                        StorageAction::ScanBooks,
                        StorageStage::RefreshScan { request: Some(request_id) },
                    ),
                },
            ),
        ),
        (StorageStage::Left { request_id }, StorageReply::Listed(listing)) => Some(
            (
                task,
                match listing {
                    Some(listing) => answer(
                        Route::Required,
                        listed(Some(request_id), facts, listing),
                    ),
                    None => answer(Route::Required, LibraryEvent::RowFailed { request_id }),
                },
            ),
        ),
        _ => None,
    }
}

/// The stages of the writes nobody browses by: progress and credentials.
pub open spec fn advance_writes(task: StorageTask, stage: StorageStage, reply: StorageReply, facts: StoreFacts) -> Option<(StorageTask, StorageStep)> {
    match (stage, reply) {
        (StorageStage::CredentialsWritten, StorageReply::Written(written)) => Some(
            (
                task,
                if written {
                    act(StorageAction::ReadBackCredentials, StorageStage::CredentialsReadBack)
                } else {
                    close(StorageAction::ReportCredentials { confirmed: false })
                },
            ),
        ),
        (StorageStage::CredentialsReadBack, StorageReply::ReadBack(confirmed)) => Some(
            (task, close(StorageAction::ReportCredentials { confirmed })),
        ),
        (StorageStage::Closing, StorageReply::Done) => Some((task, finish())),
        (
            StorageStage::ProgressIdentity { state },
            StorageReply::Identity { source, is_sd, is_loaded_index },
        ) => {
            let record = record_from(state, source, is_sd, is_loaded_index, facts);
            let plan = progress_plan(task.progress, record, facts.now_ms);
            Some(
                match plan.flush_first {
                    Some(owed) => (
                        task,
                        act(
                            StorageAction::StoreAppState(owed),
                            StorageStage::ProgressFlush { record, write: plan.write },
                        ),
                    ),
                    None => progress_lands(task, record, plan.write),
                },
            )
        },
        (StorageStage::ProgressFlush { record, write }, StorageReply::Stored(stored)) => {
            let task = StorageTask {
                progress: after_flush(task.progress, stored, facts.now_ms),
                ..task
            };
            Some(
                if stored {
                    progress_lands(task, record, write)
                } else {
                    (task, finish())
                },
            )
        },
        (StorageStage::ProgressWrite { record }, StorageReply::Stored(stored)) => Some(
            (
                StorageTask {
                    progress: after_write(task.progress, record, stored, facts.now_ms),
                    ..task
                },
                finish(),
            ),
        ),
        _ => None,
    }
}

/// The machine: what an answer does at a stage. `None` when the stage is not
/// waiting for that kind of answer.
pub open spec fn advance(task: StorageTask, stage: StorageStage, reply: StorageReply, facts: StoreFacts) -> Option<(StorageTask, StorageStep)> {
    if advance_open(task, stage, reply, facts) is Some {
        advance_open(task, stage, reply, facts)
    } else if advance_catalog(task, stage, reply, facts) is Some {
        advance_catalog(task, stage, reply, facts)
    } else if advance_browse(task, stage, reply, facts) is Some {
        advance_browse(task, stage, reply, facts)
    } else if advance_loan(task, stage, reply, facts) is Some {
        advance_loan(task, stage, reply, facts)
    } else {
        advance_writes(task, stage, reply, facts)
    }
}

} // verus!
