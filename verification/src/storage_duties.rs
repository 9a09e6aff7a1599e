//! What the storage task owes to each command besides an open: the loan to a
//! sync, the catalog, the clearing of a cache, the chapters, the saved
//! network and the reader's progress.
use vstd::prelude::*;
use crate::background::{handle_after_outcome, BookBuildOutcome};
use crate::messages::{AppStateRecord, FolderListing, LibraryEvent, PersistedState, SourceIdentity, StorageCommand};
use crate::storage::{
    CatalogRow, Emission, Opening, Route, StorageAction, StorageReply, StorageStage,
    StorageTask, StoreFacts,
};
use crate::storage_model::{advance, begin, record_from};

verus! {

/// A sync is lent the memory only once no position is owed and the scratch was
/// had: an owed position is written first, and a write that fails refuses the
/// loan and keeps the position. A loan that is granted ends the walk.
pub proof fn law_loan_waits_for_the_position(task: StorageTask, latest_request_id: u32, went: bool, facts: StoreFacts)
    ensures
        begin(task, StorageCommand::LoanSyncMemory, latest_request_id, facts).0 == task,
        begin(task, StorageCommand::LoanSyncMemory, latest_request_id, facts).1.action
            == match task.progress.pending {
            Some(owed) => StorageAction::StoreAppState(owed),
            None => StorageAction::TakeScratch,
        },
        advance(task, StorageStage::LoanFlush, StorageReply::Stored(went), facts) matches Some(next) && (
        if went {
            next.0.progress.pending is None && next.0.progress.written_ms == Some(facts.now_ms)
                && next.1.action is TakeScratch
        } else {
            next.0 == task && next.1.action is RefuseLoan
        }),
        advance(task, StorageStage::LoanScratch, StorageReply::Scratch(went), facts) matches Some(next) && (
        if went {
            next.0 == (StorageTask { background_build: None, ..task }) && next.1.action is GrantLoan
        } else {
            next.0 == task && next.1.action is RefuseLoan
        }),
{
}

/// A loan carries the network that is saved and the hint that fits it: the
/// hint is looked for only with a network, and goes along only if it matches.
pub proof fn law_loan_carries_the_saved_network(task: StorageTask, found: bool, matched: bool, with_network: bool, with_hint: bool, facts: StoreFacts)
    ensures
        advance(task, StorageStage::LoanCredentials, StorageReply::Credentials(found), facts) matches Some(
            next,
        ) && next.0 == task && (if found {
            next.1.action is ReadHint && next.1.stage is LoanHint
        } else {
            next.1.action is WriteListing && next.1.stage == (StorageStage::LoanListing {
                with_network: false,
                with_hint: false,
            })
        }),
        advance(task, StorageStage::LoanHint, StorageReply::Hint(matched), facts) matches Some(next)
            && next.0 == task && next.1.action is WriteListing && next.1.stage
            == (StorageStage::LoanListing { with_network: true, with_hint: matched }),
        advance(
            task,
            StorageStage::LoanListing { with_network, with_hint },
            StorageReply::Done,
            facts,
        ) matches Some(next) && next.1.action == (StorageAction::SendLoan { with_network, with_hint }),
{
}

/// A boot tells of the saved network if there is one and of the font on the
/// card, then reads the catalog; one that does not load asks for a scan. A
/// refresh tells of the font and scans.
pub proof fn law_catalog_is_read_or_rebuilt(task: StorageTask, latest_request_id: u32, found: bool, available: bool, facts: StoreFacts)
    ensures
        ({
            let told = Some(
                Emission { route: Route::ByEvent, event: LibraryEvent::CustomFont { available } },
            );
            let font = StorageReply::Font { available };
            let cached = begin(task, StorageCommand::LoadCatalogCache, latest_request_id, facts);
            let refreshed = begin(task, StorageCommand::RefreshCatalog, latest_request_id, facts);
            let asked = advance(
                task,
                StorageStage::CacheCredentials,
                StorageReply::Credentials(found),
                facts,
            );
            let named = advance(task, StorageStage::CacheNamed, StorageReply::Done, facts);
            let cache = advance(task, StorageStage::CacheFont, font, facts);
            let refresh = advance(task, StorageStage::RefreshFont, font, facts);
            let missed = advance(
                task,
                StorageStage::CacheCatalog,
                StorageReply::Loaded(false),
                facts,
            );
            &&& cached.0 == task && cached.1.action is ReadCredentials
            &&& refreshed.0 == task && refreshed.1.action is LoadFontManifest
            &&& asked matches Some(next) && (if found {
                next.1.action is AnnounceNetwork
            } else {
                next.1.action is LoadFontManifest
            })
            &&& named matches Some(next) && next.1.action is LoadFontManifest
            &&& cache matches Some(next) && next.1.first == told && next.1.action is LoadCatalog
            &&& refresh matches Some(next) && next.1.first == told && next.1.action is ScanBooks
            &&& missed matches Some(next) && next.0 == task && next.1.action is QueueRefresh
        }),
{
}

/// A catalog that is there is followed by the saved state, once in a boot and
/// only onto a catalog that holds something, and by its root otherwise; so is
/// a saved state that is not there or whose book is not.
pub proof fn law_saved_state_follows_the_catalog(task: StorageTask, request: Option<u32>, record: AppStateRecord, facts: StoreFacts)
    ensures
        ({
            let due = !task.state_restored && !facts.catalog_is_empty;
            let loaded = advance(
                task,
                StorageStage::CacheCatalog,
                StorageReply::Loaded(true),
                facts,
            );
            let scanned = advance(
                task,
                StorageStage::RefreshScan { request },
                StorageReply::Done,
                facts,
            );
            &&& loaded matches Some(next) && (if due {
                next.1.action is LoadAppState && next.0 == (StorageTask {
                    state_restored: true,
                    ..task
                })
            } else {
                next.1.action is RelistRoot && next.0 == task
            })
            &&& scanned matches Some(next) && (if due {
                next.1.action is LoadAppState && next.1.stage == (StorageStage::RestoreRecord {
                    request,
                })
            } else {
                next.1.action is RelistRoot && next.1.stage == (StorageStage::Relist { request })
            })
        }),
        advance(
            task,
            StorageStage::RestoreRecord { request },
            StorageReply::AppState(None),
            facts,
        ) matches Some(next) && next.1.action is RelistRoot && next.1.stage == (StorageStage::Relist {
            request,
        }),
        advance(
            task,
            StorageStage::RestoreRow { request, record },
            StorageReply::Row(None),
            facts,
        ) matches Some(next) && next.1.action is RelistRoot && next.1.stage == (StorageStage::Relist {
            request,
        }),
{
}

/// A root that was listed is told as it was listed, and one that could not be
/// is told as unreadable, under the listing in force. A press that waited for
/// it is then refused, and nothing else is.
pub proof fn law_root_is_told(task: StorageTask, request: Option<u32>, listing: FolderListing, facts: StoreFacts)
    ensures
        ({
            let refusal = match request {
                Some(request_id) => Some(
                    Emission {
                        route: Route::Required,
                        event: LibraryEvent::RowFailed { request_id },
                    },
                ),
                None => None,
            };
            let told = advance(
                task,
                StorageStage::Relist { request },
                StorageReply::Listed(Some(listing)),
                facts,
            );
            let failed = advance(
                task,
                StorageStage::Relist { request },
                StorageReply::Listed(None),
                facts,
            );
            let unreadable = advance(
                task,
                StorageStage::Unreadable { request },
                StorageReply::Done,
                facts,
            );
            &&& told matches Some(next) && next.1.second == refusal && next.1.action is Finish && (
            next.1.first matches Some(sent) && sent.route is Required && sent.event
                == (LibraryEvent::FolderListed {
                request_id: None,
                browse_epoch: facts.browse_epoch,
                depth: listing.depth,
                count: listing.count,
                books: listing.books,
                selection: listing.selection,
            }))
            &&& failed matches Some(next) && next.1.first is None && next.1.action
                is MarkLibraryUnreadable && next.1.stage == (StorageStage::Unreadable { request })
            &&& unreadable matches Some(next) && next.1.second == refusal && next.1.first == Some(
                Emission {
                    route: Route::Required,
                    event: LibraryEvent::LibraryUnreadable { browse_epoch: facts.browse_epoch },
                },
            )
        }),
{
}

/// A cache is cleared for the book of the row that was pressed, where the row
/// is of the listing in force, holds a book, and the book is in the catalog.
/// The press is told what became of it, and that nothing did otherwise.
pub proof fn law_cache_is_cleared_for_the_row_pressed(
    task: StorageTask,
    request_id: u32,
    index: u16,
    is_book: bool,
    row: CatalogRow,
    ok: bool,
    facts: StoreFacts,
)
    ensures
        ({
            let refused = Some(
                Emission {
                    route: Route::ByEvent,
                    event: LibraryEvent::CacheCleared { request_id, ok: false },
                },
            );
            let resumed = advance(
                task,
                StorageStage::ClearResume { request_id, index, browse_epoch: facts.browse_epoch },
                StorageReply::Done,
                facts,
            );
            let asked = advance(
                task,
                StorageStage::ClearRow { request_id },
                StorageReply::RowBook(is_book),
                facts,
            );
            let located = advance(
                task,
                StorageStage::ClearLocated { request_id },
                StorageReply::Located(row),
                facts,
            );
            let cleared = advance(
                task,
                StorageStage::ClearDone { request_id },
                StorageReply::Cleared(ok),
                facts,
            );
            &&& resumed matches Some(next) && next.1.action == (StorageAction::ReadRowBook { index })
            &&& asked matches Some(next) && (if is_book {
                next.1.action is FindByLocator && next.1.first is None
            } else {
                next.1.action is Finish && next.1.first == refused
            })
            &&& located matches Some(next) && (match row {
                CatalogRow::Found(found) => next.1.action == (StorageAction::ClearCache {
                    row: found,
                }) && next.1.first is None,
                _ => next.1.action is Finish && next.1.first == refused,
            })
            &&& cleared matches Some(next) && next.1.action is Finish && next.1.first == Some(
                Emission {
                    route: Route::ByEvent,
                    event: LibraryEvent::CacheCleared { request_id, ok },
                },
            )
        }),
{
}

/// A press on the listing in force is looked into under its own row and the
/// orientation in force.
pub proof fn law_press_is_looked_into(task: StorageTask, latest_request_id: u32, request_id: u32, index: u16, facts: StoreFacts)
    ensures
        ({
            let row = begin(
                task,
                StorageCommand::ChooseLibraryRow {
                    request_id,
                    index,
                    browse_epoch: facts.browse_epoch,
                },
                latest_request_id,
                facts,
            );
            let folder = begin(
                task,
                StorageCommand::LeaveLibraryFolder {
                    request_id,
                    browse_epoch: facts.browse_epoch,
                },
                latest_request_id,
                facts,
            );
            &&& row.0 == task && row.1.first is None && row.1.action == (StorageAction::ChooseRow {
                index,
                portrait: facts.portrait,
            })
            &&& folder.0 == task && folder.1.first is None && folder.1.action
                == (StorageAction::LeaveFolder { portrait: facts.portrait })
        }),
{
}

/// The chapters of a book are read around the one the reader is in, and told
/// of without moving the reader.
pub proof fn law_chapters_are_told_where_the_reader_is(task: StorageTask, book_id: u32, index: u16, facts: StoreFacts)
    ensures
        advance(
            task,
            StorageStage::ChaptersEntry { book_id, index },
            StorageReply::Done,
            facts,
        ) matches Some(next) && next.1.action == (StorageAction::LoadChapterList {
            index,
            around: facts.current_chapter,
        }) && next.1.stage == (StorageStage::Chapters { book_id }),
        advance(task, StorageStage::Chapters { book_id }, StorageReply::Done, facts) matches Some(next)
            && next.1.action is Finish && (next.1.first matches Some(sent) && sent.route is Loaded
            && (sent.event matches LibraryEvent::Loaded {
            book_id: of,
            pages,
            chapters,
            current_chapter,
            chapter_pages,
            position,
            ..
        } && of == book_id && pages == facts.pages && chapters == facts.chapters && current_chapter
            == facts.current_chapter && chapter_pages == facts.chapter_pages && position is None)),
{
}

/// Credentials are reported as confirmed exactly when they were written and
/// read back as they were sent.
pub proof fn law_credentials_are_confirmed_by_reading_back(task: StorageTask, latest_request_id: u32, went: bool, facts: StoreFacts)
    ensures
        begin(task, StorageCommand::StoreWifiCredentials, latest_request_id, facts).1.action
            is WriteCredentials,
        advance(task, StorageStage::CredentialsWritten, StorageReply::Written(went), facts) matches Some(
            next,
        ) && (if went {
            next.1.action is ReadBackCredentials
        } else {
            next.1.action == (StorageAction::ReportCredentials { confirmed: false })
        }),
        advance(task, StorageStage::CredentialsReadBack, StorageReply::ReadBack(went), facts) matches Some(
            next,
        ) && next.1.action == (StorageAction::ReportCredentials { confirmed: went }),
        begin(task, StorageCommand::StoreWifiApHint, latest_request_id, facts).1.action is WriteHint,
        begin(task, StorageCommand::ForgetWifiCredentials, latest_request_id, facts).1.action
            is ForgetCredentials,
{
}

/// Whether a record waits for its turn: the reader only turned the page, or is
/// the first to tell, and the last write is less than the interval ago.
pub open spec fn may_wait(task: StorageTask, record: AppStateRecord, facts: StoreFacts) -> bool {
    &&& task.progress.written_ms is Some && facts.now_ms < task.progress.written_ms->0 + 15_000
    &&& task.progress.pending matches Some(pending) ==> pending == (AppStateRecord {
        screen: pending.screen,
        ..record
    })
}

/// Progress that comes in is asked for its book's identity and is then of
/// that state and book. What another book is owed is written first; then the
/// record is written at once, or kept in the slot if it may wait.
pub proof fn law_progress_is_written_or_kept(
    task: StorageTask,
    latest_request_id: u32,
    state: PersistedState,
    source: SourceIdentity,
    is_sd: bool,
    is_loaded_index: bool,
    facts: StoreFacts,
)
    ensures
        begin(task, StorageCommand::StoreProgress(state), latest_request_id, facts).1.action
            == (StorageAction::ReadIdentity { book_id: state.book_id }),
        ({
            let record = record_from(state, source, is_sd, is_loaded_index, facts);
            advance(
                task,
                StorageStage::ProgressIdentity { state },
                StorageReply::Identity { source, is_sd, is_loaded_index },
                facts,
            ) matches Some(next) && {
                let foreign = task.progress.pending is Some && task.progress.pending->0.book_id
                    != state.book_id;
                &&& foreign ==> next.0 == task && next.1.action == StorageAction::StoreAppState(
                    task.progress.pending->0,
                ) && next.1.stage == (StorageStage::ProgressFlush { record, write: true })
                &&& !foreign && may_wait(task, record, facts) ==> next.1.action is Finish
                    && next.0.progress.pending == Some(record) && next.0.progress.written_ms
                    == task.progress.written_ms
                &&& !foreign && !may_wait(task, record, facts) ==> next.0 == task && next.1.action
                    == StorageAction::StoreAppState(record) && next.1.stage
                    == (StorageStage::ProgressWrite { record })
            }
        }),
{
}

/// A write that lands clears the slot and restarts the interval; one that
/// fails leaves its record owed, and what was owed to another book before it.
pub proof fn law_write_that_fails_is_owed(task: StorageTask, record: AppStateRecord, stored: bool, facts: StoreFacts)
    ensures
        advance(
            task,
            StorageStage::ProgressWrite { record },
            StorageReply::Stored(stored),
            facts,
        ) matches Some(next) && next.1.action is Finish && (if stored {
            next.0.progress.pending is None && next.0.progress.written_ms == Some(facts.now_ms)
        } else {
            next.0.progress.pending == Some(record) && next.0.progress.written_ms
                == task.progress.written_ms
        }),
        advance(
            task,
            StorageStage::ProgressFlush { record, write: true },
            StorageReply::Stored(stored),
            facts,
        ) matches Some(next) && (if stored {
            next.0.progress.pending is None && next.1.action == StorageAction::StoreAppState(record)
        } else {
            next.0 == task && next.1.action is Finish
        }),
{
}

/// A departing book's position goes to its own file, and one that fails is
/// owed without restarting the interval; the record of the book that is
/// entered is written like any other. Either way the transaction is told.
pub proof fn law_departing_position_is_owed_until_stored(
    task: StorageTask,
    open: Opening,
    previous: PersistedState,
    record: AppStateRecord,
    stored: bool,
    facts: StoreFacts,
)
    ensures
        advance(
            task,
            StorageStage::DepartingFlush { open, previous },
            StorageReply::Stored(stored),
            facts,
        ) matches Some(next) && (if stored {
            next.0.progress.pending is None && next.1.action == (StorageAction::ReadIdentity {
                book_id: previous.book_id,
            })
        } else {
            next.0 == task && next.1.action == (StorageAction::OpenDeparting { stored: false })
        }),
        advance(
            task,
            StorageStage::DepartingStore { open, record },
            StorageReply::Stored(stored),
            facts,
        ) matches Some(next) && next.1.action == (StorageAction::OpenDeparting { stored })
            && next.0.progress.written_ms == task.progress.written_ms && next.0.progress.pending == (
        if stored {
            None
        } else {
            Some(record)
        }),
        advance(
            task,
            StorageStage::PointerStore { open, record },
            StorageReply::Stored(stored),
            facts,
        ) matches Some(next) && next.1.action == (StorageAction::OpenPointer { stored }) && (if stored {
            next.0.progress.pending is None && next.0.progress.written_ms == Some(facts.now_ms)
        } else {
            next.0.progress.pending == Some(record) && next.0.progress.written_ms
                == task.progress.written_ms
        }),
{
}

/// An open is a transaction of its own, told of the request id and the catalog
/// in force; one that does not begin is over.
pub proof fn law_open_is_a_transaction(task: StorageTask, command: StorageCommand, latest_request_id: u32, open: Opening, begun: bool, facts: StoreFacts)
    requires
        command is OpenBook || command is ExtendSection,
    ensures
        begin(task, command, latest_request_id, facts).0 == task,
        begin(task, command, latest_request_id, facts).1.action == (StorageAction::BeginOpen {
            command,
            latest_request_id,
            catalog_epoch: facts.catalog_epoch,
        }),
        begin(task, command, latest_request_id, facts).1.stage matches StorageStage::OpenBegin(first) && (
        command matches StorageCommand::OpenBook { book_id, .. } ==> first.book_id == book_id) && (
        command matches StorageCommand::ExtendSection { book_id, .. } ==> first.book_id == book_id)
            && first.section_loaded is None && !first.place_pending,
        advance(task, StorageStage::OpenBegin(open), StorageReply::Begun(begun), facts) matches Some(next)
            && next.0 == task && (if begun {
            next.1.action is NextOpen && next.1.stage == StorageStage::OpenNext(open)
        } else {
            next.1.action is Finish
        }),
{
}

/// The walk behind the reader is that of the last build, under its own book.
pub proof fn law_walk_follows_the_build(
    task: StorageTask,
    open: Opening,
    index: u16,
    chapter: u16,
    book_id: u32,
    page: u32,
    outcome: BookBuildOutcome,
    facts: StoreFacts,
)
    ensures
        advance(
            task,
            StorageStage::SectionBuilt { open, index, chapter },
            StorageReply::Built(outcome),
            facts,
        ) matches Some(next) && next.0 == (StorageTask {
            background_build: handle_after_outcome(
                task.background_build,
                outcome,
                open.book_id,
                facts.now_ms,
            ),
            ..task
        }),
        advance(
            task,
            StorageStage::JumpBuilt { book_id, page },
            StorageReply::Built(outcome),
            facts,
        ) matches Some(next) && next.0 == (StorageTask {
            background_build: handle_after_outcome(
                task.background_build,
                outcome,
                book_id,
                facts.now_ms,
            ),
            ..task
        }),
{
}

} // verus!
