//! The app loop as a mathematical function: for each stage and answer, what
//! the loop keeps and what it does next.
use vstd::prelude::*;
use crate::app_loop::{
    AppAction, AppEvent, AppFacts, AppLoop, AppReply, AppStage, AppStep, Button, Cause, FoldFacts,
    OpenDispatch, SleepBlockers, StorageDispatch, SyncCommand, SyncStatus, ViewState,
    POST_OPEN_CONFIRM_BLOCK_MS,
};
use crate::messages::{AppView, LibraryEvent, PersistedState, RenderKind, StorageCommand};

verus! {

/// The next request id: never zero, and not the latest one.
pub open spec fn next_request_id(latest: u32) -> u32 {
    if latest == u32::MAX { 1 } else { (latest + 1) as u32 }
}

pub open spec fn opened_book(command: StorageCommand) -> Option<u32> {
    match command {
        StorageCommand::OpenBook { book_id, .. } => Some(book_id),
        _ => None,
    }
}

pub open spec fn loaded_book(event: LibraryEvent) -> Option<u32> {
    match event {
        LibraryEvent::Loaded { book_id, .. } => Some(book_id),
        _ => None,
    }
}

/// An open of a row that was looked up names the catalog it was looked up in.
pub open spec fn fenced(command: StorageCommand, fence: Option<u32>) -> StorageCommand {
    match (command, fence) {
        (
            StorageCommand::OpenBook {
                request_id,
                book_id,
                index,
                chapter,
                target_pages,
                type_settings,
                portrait,
                previous,
                catalog_epoch,
                resolve_place,
            },
            Some(epoch),
        ) => StorageCommand::OpenBook {
            request_id,
            book_id,
            index,
            chapter,
            target_pages,
            type_settings,
            portrait,
            previous,
            catalog_epoch: Some(epoch),
            resolve_place,
        },
        _ => command,
    }
}

/// Whether an open closes out the departing book itself.
pub open spec fn owns_the_switch(command: StorageCommand) -> bool {
    match command {
        StorageCommand::OpenBook { previous, .. } => previous is Some,
        _ => false,
    }
}

/// When a confirm press counts again after a book has opened.
pub open spec fn confirm_deadline(now_ms: u64) -> u64 {
    if now_ms + POST_OPEN_CONFIRM_BLOCK_MS <= u64::MAX {
        (now_ms + POST_OPEN_CONFIRM_BLOCK_MS) as u64
    } else {
        u64::MAX
    }
}

/// A deadline that has passed is forgotten.
pub open spec fn confirm_block_left(until: Option<u64>, now_ms: u64) -> Option<u64> {
    match until {
        Some(until) if now_ms < until => Some(until),
        _ => None,
    }
}

/// Whether the pages are laid out otherwise than before.
pub open spec fn layout_changed(before: ViewState, after: ViewState) -> bool {
    before.type_settings != after.type_settings || before.portrait != after.portrait
}

/// Whether an event changed what is on screen.
pub open spec fn affects_view(before: ViewState, after: ViewState, event: LibraryEvent, fold: FoldFacts) -> bool {
    match event {
        LibraryEvent::Scanned { count, catalog_epoch } => before.view == AppView::Library && (
        before.library_count != count || before.catalog_epoch != catalog_epoch),
        LibraryEvent::Loaded { book_id, .. } => before.book_id == book_id && fold.load_repaints,
        LibraryEvent::ChapterPage { book_id, page, .. } => before.book_id == book_id && (
        match fold.stored_chapter_page {
            Some(stored) => stored != if page <= u16::MAX { page as u16 } else { u16::MAX },
            None => false,
        }),
        LibraryEvent::CustomFont { .. } => before.view == AppView::Settings,
        LibraryEvent::CacheCleared { request_id, .. } => before.view == AppView::Library
            && before.library_busy == Some(request_id),
        LibraryEvent::FolderListed { .. }
        | LibraryEvent::RowIsBook { .. }
        | LibraryEvent::RowFailed { .. } => {
            ||| after.view != before.view
            ||| after.library_depth != before.library_depth
            ||| after.library_count != before.library_count
            ||| after.library_books != before.library_books
            ||| after.selection != before.selection
            ||| after.library_browse != before.library_browse
        },
        LibraryEvent::BookOpenFailed { .. }
        | LibraryEvent::Restored { .. }
        | LibraryEvent::LibraryUnreadable { .. } => true,
    }
}

/// Before the first frame only a resolved catalog may paint.
pub open spec fn owes_render(app: AppLoop, before: ViewState, after: ViewState, event: LibraryEvent, fold: FoldFacts) -> bool {
    if app.boot_render_pending {
        event is Restored || event is Scanned
    } else {
        affects_view(before, after, event, fold)
    }
}

/// Whether confirming a pending forget deletes the saved network.
pub open spec fn forgets(previous: ViewState, next: ViewState) -> bool {
    previous.sync_status == SyncStatus::ForgetPending && next.sync_status
        == SyncStatus::NotConfigured && next.view == AppView::Wireless
}

pub open spec fn sync_command(previous: ViewState, next: ViewState) -> Option<SyncCommand> {
    if previous.sync_status != SyncStatus::Starting && next.sync_status == SyncStatus::Starting {
        Some(SyncCommand::Start)
    } else if previous.view == AppView::Wireless && next.view != AppView::Wireless && (
    previous.sync_status == SyncStatus::Starting || previous.sync_status == SyncStatus::Running) {
        Some(SyncCommand::Exit)
    } else {
        None
    }
}

pub open spec fn blockers(app: AppLoop, facts: AppFacts) -> SleepBlockers {
    SleepBlockers {
        open_unresolved: app.opening_book is Some,
        parked_storage: !facts.parked_is_empty,
        awaiting_open_frame: app.suppress_input_until_open_settled,
    }
}

pub open spec fn to(action: AppAction, stage: AppStage) -> AppStep {
    AppStep { action, stage }
}

pub open spec fn wait() -> AppStep {
    to(AppAction::Wait, AppStage::Idle)
}

/// A frame goes out if none is in flight; otherwise it is remembered.
pub open spec fn render(app: AppLoop, kind: RenderKind, stage: AppStage) -> (AppLoop, AppStep) {
    if app.rendering {
        (AppLoop { render_pending: true, ..app }, wait())
    } else {
        (
            AppLoop { rendering: true, render_pending: false, ..app },
            to(AppAction::SendRender(kind), stage),
        )
    }
}

/// The frame a library event owes: the first one after boot initialises the
/// panel.
pub open spec fn render_library(app: AppLoop) -> (AppLoop, AppStep) {
    if app.rendering {
        render(app, RenderKind::Page, AppStage::Ending)
    } else {
        render(
            AppLoop { boot_render_pending: false, ..app },
            if app.boot_render_pending { RenderKind::Boot } else { RenderKind::Page },
            AppStage::Ending,
        )
    }
}

/// An open the storage task took owns the input lock until its frame settles.
pub open spec fn accepted(app: AppLoop, command: StorageCommand) -> AppLoop {
    match opened_book(command) {
        Some(book_id) => AppLoop {
            opening_book: Some(book_id),
            suppress_input_until_open_settled: true,
            ..app
        },
        None => app,
    }
}

pub open spec fn transition(app: AppLoop, cause: Cause) -> AppStep {
    let request_id = next_request_id(app.latest_request_id);
    to(AppAction::TransitionCommand { request_id }, AppStage::Owed { cause, request_id })
}

pub open spec fn fence_of(cause: Cause) -> Option<u32> {
    match cause {
        Cause::Library { catalog_fence, .. } => catalog_fence,
        Cause::Press { .. } => None,
    }
}

pub open spec fn dispatching(cause: Cause, request_id: u32, command: StorageCommand) -> AppStep {
    let command = fenced(command, fence_of(cause));
    to(AppAction::Dispatch(command), AppStage::Sending { cause, request_id, command })
}

pub open spec fn nothing_dispatched() -> OpenDispatch {
    OpenDispatch { switch_dispatched: false, awaiting_chapter_list: false }
}

/// What was persisted of the reader when a transition began.
pub open spec fn persisted_before(cause: Cause) -> PersistedState {
    match cause {
        Cause::Library { before, .. } => before,
        Cause::Press { previous } => previous.persisted,
    }
}

/// Progress is stored if it changed, unless the open carries the departing
/// book's place.
pub open spec fn persist(app: AppLoop, cause: Cause, dispatch: OpenDispatch, facts: AppFacts) -> (AppLoop, AppStep) {
    if persisted_before(cause) != facts.view.persisted && !dispatch.switch_dispatched {
        (
            app,
            to(
                AppAction::Dispatch(StorageCommand::StoreProgress(facts.view.persisted)),
                AppStage::ProgressSent { cause, dispatch },
            ),
        )
    } else {
        after_progress(app, cause, dispatch, facts)
    }
}

pub open spec fn after_progress(app: AppLoop, cause: Cause, dispatch: OpenDispatch, facts: AppFacts) -> (AppLoop, AppStep) {
    match cause {
        Cause::Library { .. } => render_library(app),
        Cause::Press { previous } => (
            app,
            if forgets(previous, facts.view) {
                to(
                    AppAction::Dispatch(StorageCommand::ForgetWifiCredentials),
                    AppStage::ForgetSent { previous, dispatch },
                )
            } else {
                to(AppAction::BrowseCommand, AppStage::Browsing { previous, dispatch })
            },
        ),
    }
}

pub open spec fn press_render(app: AppLoop, dispatch: OpenDispatch) -> (AppLoop, AppStep) {
    if dispatch.awaiting_chapter_list {
        (AppLoop { render_pending: false, ..app }, wait())
    } else {
        render(app, RenderKind::Page, AppStage::Ending)
    }
}

pub open spec fn after_actions(app: AppLoop, previous: ViewState, dispatch: OpenDispatch, facts: AppFacts) -> (AppLoop, AppStep) {
    match sync_command(previous, facts.view) {
        Some(command) => (app, to(AppAction::SendSync(command), AppStage::SyncSent { dispatch })),
        None => press_render(app, dispatch),
    }
}

pub open spec fn ask_gate(app: AppLoop, rendering: bool, stage: AppStage) -> AppStep {
    to(
        AppAction::AskGate {
            suppressed: app.suppress_input_until_open_settled,
            opening: app.opening_book is Some,
            rendering,
        },
        stage,
    )
}

/// The input lock lifts, and a confirm that opened the book is kept off the page.
pub open spec fn gate_lifted(app: AppLoop, now_ms: u64) -> AppLoop {
    AppLoop {
        suppress_input_until_open_settled: false,
        block_confirm_until_ms: Some(confirm_deadline(now_ms)),
        ..app
    }
}

/// What the load rule is asked about a book that was loaded: the frame on
/// screen, the text and the page. It is asked of the book the reader is on,
/// once there is a frame.
pub open spec fn load_question(app: AppLoop, before: ViewState, after: ViewState, event: LibraryEvent) -> Option<AppAction> {
    match event {
        LibraryEvent::Loaded { book_id, text_replaced, .. } => if !app.boot_render_pending
            && before.book_id == book_id {
            Some(
                AppAction::AskLoadRepaints {
                    reading: before.view == AppView::Reading,
                    text_replaced,
                    page_moved: after.page != before.page,
                },
            )
        } else {
            None
        },
        _ => None,
    }
}

/// A folded event that owes a repaint is a transition; after any other the
/// input lock is looked at.
pub open spec fn folded(app: AppLoop, before: ViewState, after: ViewState, event: LibraryEvent, fold: FoldFacts) -> AppStep {
    if owes_render(app, before, after, event, fold) {
        transition(
            app,
            Cause::Library {
                before: before.persisted,
                catalog_fence: match event {
                    LibraryEvent::RowIsBook { catalog_epoch, .. } => Some(catalog_epoch),
                    _ => None,
                },
            },
        )
    } else {
        ask_gate(app, app.rendering, AppStage::QuietGate)
    }
}

pub open spec fn releasing(app: AppLoop, facts: AppFacts) -> AppStep {
    to(AppAction::ReleaseSleep(blockers(app, facts)), AppStage::Releasing)
}

/// The parked commands are offered; the cycle ends with a frame or with the input lock.
pub open spec fn drained(app: AppLoop, failed: bool) -> (AppLoop, AppStep) {
    if failed {
        (app, to(AppAction::RetryFailed, AppStage::RetryAsked))
    } else if app.render_pending {
        (
            AppLoop { rendering: true, render_pending: false, ..app },
            to(AppAction::SendRender(RenderKind::Page), AppStage::CycleRendered),
        )
    } else {
        (app, ask_gate(app, false, AppStage::CycleGate))
    }
}

pub open spec fn settle(app: AppLoop) -> (AppLoop, AppStep) {
    (AppLoop { rendering: false, ..app }, to(AppAction::RetrySettled, AppStage::RetryNoted))
}

pub open spec fn offering(failed: bool) -> AppStep {
    to(AppAction::OfferParked, AppStage::Draining { failed })
}

pub open spec fn press(app: AppLoop, button: Button, facts: AppFacts) -> (AppLoop, AppStep) {
    let reading = facts.view.view == AppView::Reading;
    let left = confirm_block_left(app.block_confirm_until_ms, facts.now_ms);
    let app = AppLoop {
        block_confirm_until_ms: if reading { left } else { app.block_confirm_until_ms },
        ..app
    };
    if (reading && left is Some && button == Button::Confirm) || app.opening_book is Some
        || app.suppress_input_until_open_settled {
        (app, wait())
    } else {
        (app, to(AppAction::FoldInput, AppStage::InputFolded { previous: facts.view }))
    }
}

pub open spec fn library(app: AppLoop, event: LibraryEvent, facts: AppFacts) -> (AppLoop, AppStep) {
    match event {
        LibraryEvent::BookOpenFailed { book_id } => {
            let app = AppLoop {
                opening_book: if app.opening_book == Some(book_id) {
                    None
                } else {
                    app.opening_book
                },
                ..app
            };
            if app.rollback_held {
                (
                    AppLoop { rollback_held: false, ..app },
                    to(
                        AppAction::RestoreRollback,
                        AppStage::LibraryRestored { persisted: facts.view.persisted },
                    ),
                )
            } else {
                (
                    app,
                    transition(
                        app,
                        Cause::Library { before: facts.view.persisted, catalog_fence: None },
                    ),
                )
            }
        },
        _ => (
            if loaded_book(event) is Some && app.opening_book == loaded_book(event) {
                AppLoop { opening_book: None, rollback_held: false, ..app }
            } else {
                app
            },
            to(
                AppAction::FoldLibrary(event),
                AppStage::LibraryFolded { before: facts.view, event },
            ),
        ),
    }
}

/// The first step of a turn.
pub open spec fn begin(app: AppLoop, event: AppEvent, facts: AppFacts) -> (AppLoop, AppStep) {
    match event {
        AppEvent::Input { button } => match button {
            None => (app, to(AppAction::FoldBattery, AppStage::Ending)),
            Some(Button::Power) => (
                app,
                to(AppAction::PressSleep(blockers(app, facts)), AppStage::PowerPressed),
            ),
            Some(button) => press(app, button, facts),
        },
        AppEvent::Settled { chapter_cursor } => match chapter_cursor {
            Some(cursor) => (app, to(AppAction::ApplyCursor(cursor), AppStage::CursorApplied)),
            None => settle(app),
        },
        AppEvent::Asleep => (app, wait()),
        AppEvent::SleepFailed => (app, wait()),
        AppEvent::RefreshFailed => (
            AppLoop { rendering: false, render_pending: false, ..app },
            offering(true),
        ),
        AppEvent::Library(event) => library(app, event, facts),
        AppEvent::Sync => (app, to(AppAction::FoldSync, AppStage::SyncFolded)),
        AppEvent::ParkedTaken(command) => (accepted(app, command), wait()),
    }
}

/// The stages of a transition that may owe the storage task work.
pub open spec fn advance_transition(app: AppLoop, stage: AppStage, reply: AppReply, facts: AppFacts) -> Option<(AppLoop, AppStep)> {
    match (stage, reply) {
        (AppStage::InputFolded { previous }, AppReply::Done) => {
            let app = AppLoop {
                reader_relayout_pending: app.reader_relayout_pending || layout_changed(
                    previous,
                    facts.view,
                ),
                ..app
            };
            Some((app, transition(app, Cause::Press { previous })))
        },
        (AppStage::Owed { cause, request_id }, AppReply::Command(command)) => Some(
            match command {
                Some(command) => (app, dispatching(cause, request_id, command)),
                None => if cause is Press && app.reader_relayout_pending && facts.view.view
                    == AppView::Reading {
                    (
                        app,
                        to(
                            AppAction::RelayoutCommand { request_id },
                            AppStage::Relayout { cause, request_id },
                        ),
                    )
                } else {
                    persist(app, cause, nothing_dispatched(), facts)
                },
            },
        ),
        (AppStage::Relayout { cause, request_id }, AppReply::Command(command)) => Some(
            match command {
                Some(command) => (app, dispatching(cause, request_id, command)),
                None => persist(app, cause, nothing_dispatched(), facts),
            },
        ),
        (AppStage::Sending { cause, request_id, command }, AppReply::Dispatched(outcome)) => Some(
            if outcome == StorageDispatch::Rejected {
                if opened_book(command) is Some {
                    (app, to(AppAction::RestorePrevious, AppStage::RolledBack { cause }))
                } else {
                    persist(app, cause, nothing_dispatched(), facts)
                }
            } else {
                (
                    AppLoop {
                        reader_relayout_pending: false,
                        latest_request_id: request_id,
                        ..app
                    },
                    to(
                        AppAction::OpenHold(command),
                        AppStage::Holding {
                            cause,
                            dispatch: OpenDispatch {
                                switch_dispatched: owns_the_switch(command),
                                awaiting_chapter_list: outcome == StorageDispatch::Sent && command
                                    is LoadChapters,
                            },
                        },
                    ),
                )
            },
        ),
        (
            AppStage::Holding { cause, dispatch },
            AppReply::Hold { opening_book, rollback },
        ) => Some(
            persist(
                match opening_book {
                    Some(book_id) => AppLoop {
                        opening_book: Some(book_id),
                        suppress_input_until_open_settled: true,
                        rollback_held: rollback,
                        ..app
                    },
                    None => app,
                },
                cause,
                dispatch,
                facts,
            ),
        ),
        (AppStage::RolledBack { cause }, AppReply::Done) => Some(
            persist(app, cause, nothing_dispatched(), facts),
        ),
        (AppStage::ProgressSent { cause, dispatch }, AppReply::Dispatched(_)) => Some(
            after_progress(app, cause, dispatch, facts),
        ),
        _ => None,
    }
}

/// The stages of a press that follow its transition.
pub open spec fn advance_press(app: AppLoop, stage: AppStage, reply: AppReply, facts: AppFacts) -> Option<(AppLoop, AppStep)> {
    match (stage, reply) {
        (AppStage::PowerPressed, AppReply::Allowed(allowed)) => Some(
            (
                app,
                if allowed { to(AppAction::SendSleepNow, AppStage::Ending) } else { wait() },
            ),
        ),
        (AppStage::ForgetSent { previous, dispatch }, AppReply::Dispatched(_)) => Some(
            (app, to(AppAction::BrowseCommand, AppStage::Browsing { previous, dispatch })),
        ),
        (AppStage::Browsing { previous, dispatch }, AppReply::Command(command)) => Some(
            (
                app,
                match command {
                    Some(command) => to(
                        AppAction::Dispatch(command),
                        AppStage::BrowseSent { previous, dispatch },
                    ),
                    None => to(AppAction::ActionCommand, AppStage::Acting { previous, dispatch }),
                },
            ),
        ),
        (AppStage::BrowseSent { previous, dispatch }, AppReply::Dispatched(outcome)) => Some(
            (
                app,
                if outcome == StorageDispatch::Rejected {
                    to(AppAction::BrowseRejected, AppStage::BrowseSettled { previous, dispatch })
                } else {
                    to(AppAction::ActionCommand, AppStage::Acting { previous, dispatch })
                },
            ),
        ),
        (AppStage::BrowseSettled { previous, dispatch }, AppReply::Done) => Some(
            (app, to(AppAction::ActionCommand, AppStage::Acting { previous, dispatch })),
        ),
        (AppStage::Acting { previous, dispatch }, AppReply::Command(command)) => Some(
            match command {
                Some(command) => (
                    app,
                    to(AppAction::Dispatch(command), AppStage::ActionSent { previous, dispatch }),
                ),
                None => after_actions(app, previous, dispatch, facts),
            },
        ),
        (AppStage::ActionSent { previous, dispatch }, AppReply::Dispatched(outcome)) => Some(
            if outcome == StorageDispatch::Rejected {
                (
                    app,
                    to(AppAction::ActionRejected, AppStage::ActionSettled { previous, dispatch }),
                )
            } else {
                after_actions(app, previous, dispatch, facts)
            },
        ),
        (AppStage::ActionSettled { previous, dispatch }, AppReply::Done) => Some(
            after_actions(app, previous, dispatch, facts),
        ),
        (AppStage::SyncSent { dispatch }, AppReply::Done) => Some(press_render(app, dispatch)),
        _ => None,
    }
}

/// The stages of a library or sync event before its transition.
pub open spec fn advance_event(app: AppLoop, stage: AppStage, reply: AppReply, facts: AppFacts) -> Option<(AppLoop, AppStep)> {
    match (stage, reply) {
        (
            AppStage::LibraryFolded { before, event },
            AppReply::FoldedLibrary { stored_chapter_page },
        ) => Some(
            (
                app,
                match load_question(app, before, facts.view, event) {
                    Some(action) => to(action, AppStage::LoadJudged { before, event }),
                    None => folded(
                        app,
                        before,
                        facts.view,
                        event,
                        FoldFacts { load_repaints: false, stored_chapter_page },
                    ),
                },
            ),
        ),
        (AppStage::LoadJudged { before, event }, AppReply::Allowed(load_repaints)) => Some(
            (
                app,
                folded(
                    app,
                    before,
                    facts.view,
                    event,
                    FoldFacts { load_repaints, stored_chapter_page: None },
                ),
            ),
        ),
        (AppStage::LibraryRestored { persisted }, AppReply::Done) => Some(
            (app, transition(app, Cause::Library { before: persisted, catalog_fence: None })),
        ),
        (AppStage::QuietGate, AppReply::Allowed(allowed)) => Some(
            if allowed {
                let app = gate_lifted(app, facts.now_ms);
                (app, releasing(app, facts))
            } else {
                (app, wait())
            },
        ),
        (AppStage::SyncFolded, AppReply::Done) => Some(
            if facts.view.view == AppView::Wireless {
                render(app, RenderKind::Page, AppStage::Ending)
            } else {
                (app, wait())
            },
        ),
        _ => None,
    }
}

/// The stages that end a display cycle.
pub open spec fn advance_cycle(app: AppLoop, stage: AppStage, reply: AppReply, facts: AppFacts) -> Option<(AppLoop, AppStep)> {
    match (stage, reply) {
        (AppStage::CursorApplied, AppReply::Done) => Some(settle(app)),
        (AppStage::RetryNoted, AppReply::Done) => Some(
            if app.catalog_refresh_requested {
                (app, offering(false))
            } else {
                (
                    AppLoop { catalog_refresh_requested: true, ..app },
                    to(AppAction::SendLoadCatalog, AppStage::CatalogAsked),
                )
            },
        ),
        (AppStage::CatalogAsked, AppReply::Done) => Some((app, offering(false))),
        (AppStage::Draining { failed }, AppReply::Parked(offer)) => Some(
            match offer {
                Some(offer) => if offer.taken {
                    (accepted(app, offer.command), offering(failed))
                } else {
                    drained(app, failed)
                },
                None => drained(app, failed),
            },
        ),
        (AppStage::RetryAsked, AppReply::Allowed(allowed)) => Some(
            if allowed {
                (
                    AppLoop { rendering: true, ..app },
                    to(AppAction::SendRender(RenderKind::Page), AppStage::CycleRendered),
                )
            } else {
                (app, ask_gate(app, false, AppStage::CycleGate))
            },
        ),
        (AppStage::CycleRendered, AppReply::Done) => Some((app, releasing(app, facts))),
        (AppStage::CycleGate, AppReply::Allowed(allowed)) => {
            let app = if allowed { gate_lifted(app, facts.now_ms) } else { app };
            Some((app, releasing(app, facts)))
        },
        (AppStage::Releasing, AppReply::Allowed(allowed)) => Some(
            (
                app,
                if allowed { to(AppAction::SendSleepNow, AppStage::Ending) } else { wait() },
            ),
        ),
        (AppStage::Ending, AppReply::Done) => Some((app, wait())),
        _ => None,
    }
}

/// The machine: what an answer does at a stage. `None` when the stage is not
/// waiting for that kind of answer.
pub open spec fn advance(app: AppLoop, stage: AppStage, reply: AppReply, facts: AppFacts) -> Option<(AppLoop, AppStep)> {
    if advance_transition(app, stage, reply, facts) is Some {
        advance_transition(app, stage, reply, facts)
    } else if advance_press(app, stage, reply, facts) is Some {
        advance_press(app, stage, reply, facts)
    } else if advance_event(app, stage, reply, facts) is Some {
        advance_event(app, stage, reply, facts)
    } else {
        advance_cycle(app, stage, reply, facts)
    }
}

} // verus!
