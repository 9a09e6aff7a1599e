//! What each kind of turn of the app loop comes to: a press, a library event,
//! a frame that settled, a command that was taken.
use vstd::prelude::*;
use crate::app_loop::{
    AppAction, AppEvent, AppFacts, AppLoop, AppReply, AppStage, Cause, Offer, OpenDispatch,
    StorageDispatch, SyncCommand, SyncStatus, ViewState,
};
use crate::app_model::{advance, begin, next_request_id, persisted_before};
use crate::messages::{AppView, LibraryEvent, PersistedState, RenderKind, StorageCommand};

verus! {

/// Request ids count up from one and start over after the last: no id comes
/// again before all others have been used.
pub proof fn law_request_ids_count_up(latest: u32)
    ensures
        latest < u32::MAX ==> next_request_id(latest) == latest + 1,
        latest == u32::MAX ==> next_request_id(latest) == 1,
{
}

/// Whether the reader's place changed over a press and still has to be told.
pub open spec fn place_moved(previous: ViewState, dispatch: OpenDispatch, facts: AppFacts) -> bool {
    previous.persisted != facts.view.persisted && !dispatch.switch_dispatched
}

/// A press that was folded is followed by all that it owes, one behind the
/// other: the transition's command; a new layout of the page, where one is due
/// and the page is shown; the reader's place, where it moved and no open takes
/// it along.
pub proof fn law_press_is_followed_up(app: AppLoop, previous: ViewState, request_id: u32, facts: AppFacts)
    ensures
        advance(app, AppStage::InputFolded { previous }, AppReply::Done, facts) matches Some(next) && {
            let id = next_request_id(app.latest_request_id);
            &&& next.1.action == (AppAction::TransitionCommand { request_id: id })
            &&& next.1.stage == (AppStage::Owed {
                cause: Cause::Press { previous },
                request_id: id,
            })
        },
        ({
            let cause = Cause::Press { previous };
            let nothing = OpenDispatch { switch_dispatched: false, awaiting_chapter_list: false };
            let owed = advance(
                app,
                AppStage::Owed { cause, request_id },
                AppReply::Command(None),
                facts,
            );
            let laid = advance(
                app,
                AppStage::Relayout { cause, request_id },
                AppReply::Command(None),
                facts,
            );
            &&& owed matches Some(next) && next.0 == app && (if app.reader_relayout_pending
                && facts.view.view == AppView::Reading {
                next.1.action == (AppAction::RelayoutCommand { request_id }) && next.1.stage
                    == (AppStage::Relayout { cause, request_id })
            } else {
                next == laid->0
            })
            &&& laid matches Some(next) && (next.1.action == AppAction::Dispatch(
                StorageCommand::StoreProgress(facts.view.persisted),
            ) <==> place_moved(previous, nothing, facts))
        }),
{
}

/// Behind the reader's place come the forgetting of a network that was
/// confirmed, then what the Library asks for, then what its actions ask for;
/// a command that was turned away is told as such before the next is asked
/// for. Nothing is asked for twice.
pub proof fn law_press_asks_for_everything_once(
    app: AppLoop,
    previous: ViewState,
    dispatch: OpenDispatch,
    outcome: StorageDispatch,
    command: StorageCommand,
    facts: AppFacts,
)
    ensures
        ({
            let cause = Cause::Press { previous };
            let forgetting = previous.sync_status == SyncStatus::ForgetPending && facts.view.sync_status
                == SyncStatus::NotConfigured && facts.view.view == AppView::Wireless;
            let placed = advance(
                app,
                AppStage::ProgressSent { cause, dispatch },
                AppReply::Dispatched(outcome),
                facts,
            );
            placed matches Some(next) && next.0 == app && (if forgetting {
                next.1.action == AppAction::Dispatch(StorageCommand::ForgetWifiCredentials)
                    && next.1.stage == (AppStage::ForgetSent { previous, dispatch })
            } else {
                next.1.action is BrowseCommand && next.1.stage == (AppStage::Browsing {
                    previous,
                    dispatch,
                })
            })
        }),
        advance(
            app,
            AppStage::ForgetSent { previous, dispatch },
            AppReply::Dispatched(outcome),
            facts,
        ) matches Some(next) && next.0 == app && next.1.action is BrowseCommand,
        advance(
            app,
            AppStage::Browsing { previous, dispatch },
            AppReply::Command(Some(command)),
            facts,
        ) matches Some(next) && next.0 == app && next.1.action == AppAction::Dispatch(command),
        advance(app, AppStage::Browsing { previous, dispatch }, AppReply::Command(None), facts) matches Some(
            next,
        ) && next.0 == app && next.1.action is ActionCommand,
        advance(
            app,
            AppStage::BrowseSent { previous, dispatch },
            AppReply::Dispatched(outcome),
            facts,
        ) matches Some(next) && next.0 == app && (if outcome == StorageDispatch::Rejected {
            next.1.action is BrowseRejected
        } else {
            next.1.action is ActionCommand
        }),
        advance(app, AppStage::BrowseSettled { previous, dispatch }, AppReply::Done, facts) matches Some(
            next,
        ) && next.0 == app && next.1.action is ActionCommand,
        advance(
            app,
            AppStage::Acting { previous, dispatch },
            AppReply::Command(Some(command)),
            facts,
        ) matches Some(next) && next.0 == app && next.1.action == AppAction::Dispatch(command),
        advance(
            app,
            AppStage::ActionSent { previous, dispatch },
            AppReply::Dispatched(StorageDispatch::Rejected),
            facts,
        ) matches Some(next) && next.0 == app && next.1.action is ActionRejected,
{
}

/// A press ends with the wireless task being told what it has to do, if it
/// has, and with a frame: not while one is in flight, which it then follows,
/// and not where the chapters that were sent for will bring their own.
pub proof fn law_press_ends_in_its_frame(app: AppLoop, previous: ViewState, dispatch: OpenDispatch, outcome: StorageDispatch, facts: AppFacts)
    requires
        outcome != StorageDispatch::Rejected,
    ensures
        ({
            let acted = advance(
                app,
                AppStage::Acting { previous, dispatch },
                AppReply::Command(None),
                facts,
            );
            let told = advance(app, AppStage::SyncSent { dispatch }, AppReply::Done, facts);
            let starts = facts.view.sync_status == SyncStatus::Starting && previous.sync_status
                != SyncStatus::Starting;
            let exits = !starts && previous.view == AppView::Wireless && facts.view.view
                != AppView::Wireless && (previous.sync_status == SyncStatus::Starting
                || previous.sync_status == SyncStatus::Running);
            &&& acted == advance(
                app,
                AppStage::ActionSent { previous, dispatch },
                AppReply::Dispatched(outcome),
                facts,
            )
            &&& acted == advance(
                app,
                AppStage::ActionSettled { previous, dispatch },
                AppReply::Done,
                facts,
            )
            &&& acted matches Some(next) && (if starts {
                next.0 == app && next.1.action == AppAction::SendSync(SyncCommand::Start)
            } else if exits {
                next.0 == app && next.1.action == AppAction::SendSync(SyncCommand::Exit)
            } else {
                acted == told
            })
            &&& told matches Some(next) && (if dispatch.awaiting_chapter_list {
                next.0 == (AppLoop { render_pending: false, ..app }) && next.1.action is Wait
            } else if app.rendering {
                next.0 == (AppLoop { render_pending: true, ..app }) && next.1.action is Wait
            } else {
                next.0 == (AppLoop { rendering: true, render_pending: false, ..app })
                    && next.1.action == AppAction::SendRender(RenderKind::Page)
            })
        }),
{
}

/// A command that was taken makes its request id the latest and settles a new
/// layout. An open that carries the departing book's place is known to; and
/// the chapters are awaited exactly if they were sent for at once.
pub proof fn law_taken_command_is_noted(app: AppLoop, cause: Cause, request_id: u32, command: StorageCommand, outcome: StorageDispatch, facts: AppFacts)
    requires
        outcome != StorageDispatch::Rejected,
    ensures
        advance(
            app,
            AppStage::Sending { cause, request_id, command },
            AppReply::Dispatched(outcome),
            facts,
        ) matches Some(next) && {
            &&& next.0 == (AppLoop {
                reader_relayout_pending: false,
                latest_request_id: request_id,
                ..app
            })
            &&& next.1.action == AppAction::OpenHold(command)
            &&& next.1.stage matches AppStage::Holding { cause: of, dispatch } && of == cause && (
            dispatch.switch_dispatched <==> (command matches StorageCommand::OpenBook { previous, .. }
                && previous is Some)) && (dispatch.awaiting_chapter_list <==> outcome
                == StorageDispatch::Sent && command is LoadChapters)
        },
{
}

/// An open that is held locks the input until its frame has settled, under
/// its own book and with what it would be rolled back to. So does one that
/// was parked and is taken later.
pub proof fn law_open_locks_the_input(app: AppLoop, cause: Cause, dispatch: OpenDispatch, book_id: u32, rollback: bool, command: StorageCommand, failed: bool, facts: AppFacts)
    ensures
        advance(
            app,
            AppStage::Holding { cause, dispatch },
            AppReply::Hold { opening_book: Some(book_id), rollback },
            facts,
        ) matches Some(next) && next.0.opening_book == Some(book_id)
            && next.0.suppress_input_until_open_settled && next.0.rollback_held == rollback,
        ({
            let taken = begin(app, AppEvent::ParkedTaken(command), facts);
            let drained = advance(
                app,
                AppStage::Draining { failed },
                AppReply::Parked(Some(Offer { command, taken: true })),
                facts,
            );
            &&& taken.1.action is Wait
            &&& drained matches Some(next) && next.0 == taken.0 && next.1.action is OfferParked
                && next.1.stage == (AppStage::Draining { failed })
            &&& (command matches StorageCommand::OpenBook { book_id: of, .. } ==> taken.0 == (AppLoop {
                opening_book: Some(of),
                suppress_input_until_open_settled: true,
                ..app
            }))
            &&& !(command is OpenBook) ==> taken.0 == app
        }),
{
}

/// An open that failed is taken back where it can be, and is shown either way;
/// a book that was loaded is no longer opening and will not be taken back.
pub proof fn law_failed_open_is_taken_back(app: AppLoop, book_id: u32, persisted: PersistedState, event: LibraryEvent, facts: AppFacts)
    ensures
        ({
            let failed = begin(
                app,
                AppEvent::Library(LibraryEvent::BookOpenFailed { book_id }),
                facts,
            );
            &&& app.rollback_held ==> failed.1.action is RestoreRollback && !failed.0.rollback_held
                && failed.1.stage == (AppStage::LibraryRestored { persisted: facts.view.persisted })
            &&& !app.rollback_held ==> failed.1.action is TransitionCommand && failed.1.stage
                == (AppStage::Owed {
                cause: Cause::Library { before: facts.view.persisted, catalog_fence: None },
                request_id: next_request_id(app.latest_request_id),
            })
        }),
        advance(app, AppStage::LibraryRestored { persisted }, AppReply::Done, facts) matches Some(next)
            && next.1.action is TransitionCommand && next.1.stage == (AppStage::Owed {
            cause: Cause::Library { before: persisted, catalog_fence: None },
            request_id: next_request_id(app.latest_request_id),
        }),
        !(event is BookOpenFailed) ==> ({
            let next = begin(app, AppEvent::Library(event), facts);
            let done = app.opening_book is Some && event is Loaded && event->Loaded_book_id
                == app.opening_book->0;
            &&& next.1.action == AppAction::FoldLibrary(event)
            &&& next.1.stage == (AppStage::LibraryFolded { before: facts.view, event })
            &&& done ==> next.0 == (AppLoop { opening_book: None, rollback_held: false, ..app })
            &&& !done ==> next.0 == app
        }),
{
}

/// A frame that settled is no longer in flight, whatever chapter it told of.
/// The first one asks for the catalog, once; then what was parked is offered.
pub proof fn law_settled_frame_goes_on(app: AppLoop, facts: AppFacts)
    ensures
        ({
            let settled = begin(app, AppEvent::Settled { chapter_cursor: None }, facts);
            &&& settled.0 == (AppLoop { rendering: false, ..app }) && settled.1.action is RetrySettled
            &&& advance(app, AppStage::CursorApplied, AppReply::Done, facts) == Some(settled)
        }),
        advance(app, AppStage::RetryNoted, AppReply::Done, facts) matches Some(next) && (
        if app.catalog_refresh_requested {
            next.0 == app && next.1.action is OfferParked
        } else {
            next.0 == (AppLoop { catalog_refresh_requested: true, ..app }) && next.1.action
                is SendLoadCatalog
        }),
        advance(app, AppStage::CatalogAsked, AppReply::Done, facts) matches Some(next) && next.0 == app
            && next.1.action is OfferParked,
{
}

/// A frame that failed is no longer in flight and takes no other with it. It
/// is tried again where that is allowed, behind what was parked.
pub proof fn law_failed_frame_is_tried_again(app: AppLoop, allowed: bool, facts: AppFacts)
    ensures
        ({
            let failed = begin(app, AppEvent::RefreshFailed, facts);
            &&& failed.0 == (AppLoop { rendering: false, render_pending: false, ..app })
            &&& failed.1.action is OfferParked && failed.1.stage == (AppStage::Draining {
                failed: true,
            })
        }),
        advance(app, AppStage::Draining { failed: true }, AppReply::Parked(None), facts) matches Some(next)
            && next.0 == app && next.1.action is RetryFailed,
        advance(app, AppStage::RetryAsked, AppReply::Allowed(allowed), facts) matches Some(next) && (
        if allowed {
            next.0 == (AppLoop { rendering: true, ..app }) && next.1.action
                == AppAction::SendRender(RenderKind::Page)
        } else {
            next.0 == app && next.1.action is AskGate
        }),
{
}

/// The lock on the input lifts exactly when its rule allows it, and then keeps
/// a confirm off the page that just came, for 700 milliseconds.
pub proof fn law_lock_lifts_by_its_rule(app: AppLoop, allowed: bool, facts: AppFacts)
    requires
        facts.now_ms + 700 <= u64::MAX,
    ensures
        ({
            let cycle = advance(app, AppStage::CycleGate, AppReply::Allowed(allowed), facts);
            let quiet = advance(app, AppStage::QuietGate, AppReply::Allowed(allowed), facts);
            &&& cycle matches Some(next) && next.1.action is ReleaseSleep
            &&& quiet matches Some(next) && (next.1.action is ReleaseSleep <==> allowed)
            &&& !allowed ==> (cycle->0).0 == app && (quiet->0).0 == app && (quiet->0).1.action is Wait
            &&& allowed ==> (cycle->0).0 == (quiet->0).0
            &&& allowed ==> !(cycle->0).0.suppress_input_until_open_settled
                && (cycle->0).0.block_confirm_until_ms == Some((facts.now_ms + 700) as u64)
            &&& (cycle->0).0.opening_book == app.opening_book && (cycle->0).0.rendering == app.rendering
        }),
{
}

/// What the lock's rule is asked about is the loop as it stands.
pub proof fn law_lock_is_asked_about_as_it_is(app: AppLoop, facts: AppFacts)
    requires
        !app.render_pending,
    ensures
        advance(app, AppStage::Draining { failed: false }, AppReply::Parked(None), facts) matches Some(
            next,
        ) && next.0 == app && next.1.action == (AppAction::AskGate {
            suppressed: app.suppress_input_until_open_settled,
            opening: app.opening_book is Some,
            rendering: false,
        }),
{
}

/// The wireless screen is drawn anew when the wireless task tells something,
/// and no other is.
pub proof fn law_wireless_news_is_shown_where_it_belongs(app: AppLoop, facts: AppFacts)
    ensures
        begin(app, AppEvent::Sync, facts).1.action is FoldSync,
        advance(app, AppStage::SyncFolded, AppReply::Done, facts) matches Some(next) && (
        if facts.view.view != AppView::Wireless {
            next.0 == app && next.1.action is Wait
        } else if app.rendering {
            next.0 == (AppLoop { render_pending: true, ..app }) && next.1.action is Wait
        } else {
            next.0.rendering && next.1.action == AppAction::SendRender(RenderKind::Page)
        }),
{
}

/// A turn that sends nothing, or is refused, owes the card its progress: where
/// the persisted state has moved it is stored, and no switch or list of
/// chapters is waited for.
pub proof fn law_unsent_turn_stores_its_progress(app: AppLoop, cause: Cause, request_id: u32, facts: AppFacts)
    requires
        persisted_before(cause) != facts.view.persisted,
    ensures
        advance(app, AppStage::Relayout { cause, request_id }, AppReply::Command(None), facts) matches Some(
            next,
        ) && next.0 == app && next.1.action == AppAction::Dispatch(
            StorageCommand::StoreProgress(facts.view.persisted),
        ) && (next.1.stage matches AppStage::ProgressSent { cause: of, dispatch } && of == cause
            && !dispatch.switch_dispatched && !dispatch.awaiting_chapter_list),
{
}

/// A catalog is asked for behind a retry exactly if none was asked for yet, and
/// what was parked is offered then, as after a frame that came through.
pub proof fn law_catalog_is_asked_for_once(app: AppLoop, facts: AppFacts)
    ensures
        advance(app, AppStage::RetryNoted, AppReply::Done, facts) matches Some(next)
            && next.0.catalog_refresh_requested && (next.1.action is SendLoadCatalog
            <==> !app.catalog_refresh_requested) && (app.catalog_refresh_requested ==> next.0 == app
            && next.1.action is OfferParked && next.1.stage == (AppStage::Draining { failed: false })),
        advance(app, AppStage::CatalogAsked, AppReply::Done, facts) matches Some(next) && next.0
            == app && next.1.action is OfferParked && next.1.stage == (AppStage::Draining {
            failed: false,
        }),
{
}

} // verus!
