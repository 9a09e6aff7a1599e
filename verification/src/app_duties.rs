//! What the app owes the screen and the storage task: which events are worth
//! a frame, which presses count, and which command goes out for them.
use vstd::prelude::*;
use crate::app_loop::{
    AppAction, AppEvent, AppFacts, AppLoop, AppReply, AppStage, Button, Cause, StorageDispatch,
    SyncCommand, ViewState,
};
use crate::app_model::{
    advance, advance_cycle, advance_event, advance_press, advance_transition, begin, fenced,
    forgets, next_request_id, sync_command,
};
use crate::messages::{AppView, LibraryEvent, PersistedState, RenderKind, StorageCommand};

verus! {

/// What the Library screen shows is as it was.
pub open spec fn library_looks_the_same(before: ViewState, after: ViewState) -> bool {
    &&& before.view == after.view
    &&& before.library_depth == after.library_depth
    &&& before.library_count == after.library_count
    &&& before.library_books == after.library_books
    &&& before.selection == after.selection
    &&& before.library_browse == after.library_browse
}

/// Whether an event leaves a reader who looks at `before` with nothing new to
/// see, `after` being the state it was folded into.
pub open spec fn shows_nothing_new(before: ViewState, after: ViewState, event: LibraryEvent, stored_page: Option<u16>) -> bool {
    match event {
        // The rows may be others, even where there are as many.
        LibraryEvent::Scanned { count, catalog_epoch } => before.view != AppView::Library || (count
            == before.library_count && catalog_epoch == before.catalog_epoch),
        LibraryEvent::Loaded { book_id, .. } => book_id != before.book_id,
        LibraryEvent::ChapterPage { book_id, page, .. } => book_id != before.book_id || (
        match stored_page {
            Some(stored) => stored == page || (stored == u16::MAX && page > u16::MAX),
            None => true,
        }),
        LibraryEvent::CustomFont { .. } => before.view != AppView::Settings,
        LibraryEvent::CacheCleared { request_id, .. } => before.view != AppView::Library
            || before.library_busy != Some(request_id),
        LibraryEvent::FolderListed { .. } => library_looks_the_same(before, after),
        LibraryEvent::RowIsBook { .. } => library_looks_the_same(before, after),
        LibraryEvent::RowFailed { .. } => library_looks_the_same(before, after),
        // The book to go back to, the place that was saved and the state of
        // the card are not in the view.
        LibraryEvent::BookOpenFailed { .. }
        | LibraryEvent::Restored { .. }
        | LibraryEvent::LibraryUnreadable { .. } => false,
    }
}

/// Once there is a frame, an event is passed over exactly when it shows
/// nothing new, and is otherwise taken up as a transition; of a load of the
/// book on screen the load rule is asked.
pub proof fn law_events_repaint_exactly_what_changed(app: AppLoop, before: ViewState, event: LibraryEvent, stored_page: Option<u16>, facts: AppFacts)
    requires
        !app.boot_render_pending,
    ensures
        advance(
            app,
            AppStage::LibraryFolded { before, event },
            AppReply::FoldedLibrary { stored_chapter_page: stored_page },
            facts,
        ) matches Some(next) && {
            &&& next.0 == app
            &&& next.1.action is TransitionCommand || next.1.action is AskGate || next.1.action
                is AskLoadRepaints
            &&& next.1.action is AskLoadRepaints <==> event is Loaded && !shows_nothing_new(
                before,
                facts.view,
                event,
                stored_page,
            )
            &&& next.1.action is AskGate <==> shows_nothing_new(
                before,
                facts.view,
                event,
                stored_page,
            )
        },
{
}

/// The load rule is asked about the load as it is: whether its page is on
/// screen, whether its text is new and whether the reader was moved. What it
/// says is done.
pub proof fn law_load_rule_is_followed(app: AppLoop, before: ViewState, event: LibraryEvent, stored_page: Option<u16>, repaints: bool, facts: AppFacts)
    requires
        !app.boot_render_pending,
        event matches LibraryEvent::Loaded { book_id, .. } && book_id == before.book_id,
    ensures
        advance(
            app,
            AppStage::LibraryFolded { before, event },
            AppReply::FoldedLibrary { stored_chapter_page: stored_page },
            facts,
        ) matches Some(asked) && {
            &&& asked.1.action == AppAction::AskLoadRepaints {
                reading: before.view is Reading,
                text_replaced: event->text_replaced,
                page_moved: before.page != facts.view.page,
            }
            &&& asked.1.stage == AppStage::LoadJudged { before, event }
        },
        advance(
            app,
            AppStage::LoadJudged { before, event },
            AppReply::Allowed(repaints),
            facts,
        ) matches Some(judged) && (if repaints {
            judged.1.action is TransitionCommand
        } else {
            judged.1.action is AskGate
        }),
{
}

/// Before the first frame an event is a transition exactly when it resolves
/// what the frame waits for: the state that was saved, or the catalog.
pub proof fn law_first_frame_waits_for_the_catalog(app: AppLoop, before: ViewState, event: LibraryEvent, stored_page: Option<u16>, facts: AppFacts)
    requires
        app.boot_render_pending,
    ensures
        advance(
            app,
            AppStage::LibraryFolded { before, event },
            AppReply::FoldedLibrary { stored_chapter_page: stored_page },
            facts,
        ) matches Some(next) && (if event is Restored || event is Scanned {
            next.1.action is TransitionCommand
        } else {
            next.1.action is AskGate
        }),
{
}

/// The library event a stage is a transition for, by what was persisted
/// before it.
pub open spec fn library_transition(stage: AppStage) -> Option<PersistedState> {
    match stage {
        AppStage::Owed { cause: Cause::Library { before, .. }, .. } => Some(before),
        AppStage::Sending { cause: Cause::Library { before, .. }, .. } => Some(before),
        AppStage::Holding { cause: Cause::Library { before, .. }, .. } => Some(before),
        AppStage::RolledBack { cause: Cause::Library { before, .. } } => Some(before),
        AppStage::ProgressSent { cause: Cause::Library { before, .. }, .. } => Some(before),
        _ => None,
    }
}

/// A transition that a library event began ends in its frame: with every
/// answer it goes on, or the frame is sent, or, while another is on its way
/// to the panel, the loop remembers that one is due.
pub proof fn law_library_transition_ends_in_its_frame(app: AppLoop, stage: AppStage, reply: AppReply, facts: AppFacts)
    requires
        library_transition(stage) is Some,
    ensures
        advance(app, stage, reply, facts) matches Some(next) ==> {
            ||| library_transition(next.1.stage) == library_transition(stage)
            ||| next.1.action is SendRender && next.0.rendering
            ||| next.1.action is Wait && next.0.rendering && next.0.render_pending
        },
{
    assert(advance_transition(app, stage, reply, facts) matches Some(next) ==> {
        ||| library_transition(next.1.stage) == library_transition(stage)
        ||| next.1.action is SendRender && next.0.rendering
        ||| next.1.action is Wait && next.0.rendering && next.0.render_pending
    });
    assert(advance_press(app, stage, reply, facts) is None);
    assert(advance_event(app, stage, reply, facts) is None);
    assert(advance_cycle(app, stage, reply, facts) is None);
}

/// A frame that is due is sent as soon as the one before it has settled: with
/// the queue of parked commands gone through, nothing else comes first.
pub proof fn law_due_frame_is_sent(app: AppLoop, facts: AppFacts)
    requires
        app.render_pending,
    ensures
        advance(app, AppStage::Draining { failed: false }, AppReply::Parked(None), facts) matches Some(
            next,
        ) && next.1.action == AppAction::SendRender(RenderKind::Page) && next.0.rendering
            && !next.0.render_pending,
{
}

/// A press is folded exactly when nothing holds the buttons: no open is on
/// its way, its frame has settled, and it is not the confirm that opened the
/// book. A press on the way is passed over and changes nothing but a deadline
/// that ran out.
pub proof fn law_presses_are_folded_unless_held(app: AppLoop, button: Button, facts: AppFacts)
    requires
        button != Button::Power,
    ensures
        ({
            let next = begin(app, AppEvent::Input { button: Some(button) }, facts);
            let confirm_held = facts.view.view is Reading && button is Confirm
                && app.block_confirm_until_ms is Some && facts.now_ms
                < app.block_confirm_until_ms->0;
            let held = confirm_held || app.opening_book is Some
                || app.suppress_input_until_open_settled;
            &&& held ==> next.1.action is Wait
            &&& !held ==> next.1.action is FoldInput && next.1.stage == AppStage::InputFolded {
                previous: facts.view,
            }
            &&& next.0 == AppLoop { block_confirm_until_ms: next.0.block_confirm_until_ms, ..app }
            &&& next.0.block_confirm_until_ms != app.block_confirm_until_ms
                ==> next.0.block_confirm_until_ms is None && facts.now_ms
                >= app.block_confirm_until_ms->0
        }),
{
}

/// A fold that lays the text out anew is remembered until a command went out
/// that carries the new layout; nothing else forgets it.
pub proof fn law_new_layout_is_remembered(app: AppLoop, stage: AppStage, reply: AppReply, facts: AppFacts)
    ensures
        stage matches AppStage::InputFolded { previous } ==> (advance(
            app,
            stage,
            AppReply::Done,
            facts,
        ) matches Some(next) && (next.0.reader_relayout_pending <==> app.reader_relayout_pending
            || previous.type_settings != facts.view.type_settings || previous.portrait
            != facts.view.portrait)),
        advance(app, stage, reply, facts) matches Some(next) ==> (app.reader_relayout_pending
            && !next.0.reader_relayout_pending ==> stage is Sending && reply is Dispatched && reply
            != AppReply::Dispatched(StorageDispatch::Rejected)),
{
    assert(advance_transition(app, stage, reply, facts) matches Some(next) ==> (
    app.reader_relayout_pending && !next.0.reader_relayout_pending ==> stage is Sending && reply
        is Dispatched && reply != AppReply::Dispatched(StorageDispatch::Rejected)));
    assert(advance_press(app, stage, reply, facts) matches Some(next)
        ==> next.0.reader_relayout_pending == app.reader_relayout_pending);
    assert(advance_event(app, stage, reply, facts) matches Some(next)
        ==> next.0.reader_relayout_pending == app.reader_relayout_pending);
    assert(advance_cycle(app, stage, reply, facts) matches Some(next)
        ==> next.0.reader_relayout_pending == app.reader_relayout_pending);
}

/// An open that is sent names the catalog its row was looked up in; in
/// everything else, and every other command, it goes out as it was made.
pub proof fn law_open_is_fenced_to_its_catalog(command: StorageCommand, fence: Option<u32>)
    ensures
        fence is None || !(command is OpenBook) ==> fenced(command, fence) == command,
        fence is Some && command is OpenBook ==> {
            &&& fenced(command, fence) is OpenBook
            &&& fenced(command, fence)->OpenBook_catalog_epoch == fence
            &&& fenced(command, fence)->OpenBook_request_id == command->OpenBook_request_id
            &&& fenced(command, fence)->OpenBook_book_id == command->OpenBook_book_id
            &&& fenced(command, fence)->OpenBook_index == command->OpenBook_index
            &&& fenced(command, fence)->OpenBook_chapter == command->OpenBook_chapter
            &&& fenced(command, fence)->OpenBook_target_pages == command->OpenBook_target_pages
            &&& fenced(command, fence)->OpenBook_type_settings == command->OpenBook_type_settings
            &&& fenced(command, fence)->OpenBook_portrait == command->OpenBook_portrait
            &&& fenced(command, fence)->OpenBook_previous == command->OpenBook_previous
            &&& fenced(command, fence)->OpenBook_resolve_place == command->OpenBook_resolve_place
        },
{
}

/// The command a transition gives is the one that is sent, fenced to the
/// catalog of the row it came from and to no other.
pub proof fn law_transition_command_is_sent(app: AppLoop, cause: Cause, request_id: u32, command: StorageCommand, facts: AppFacts)
    ensures
        advance(
            app,
            AppStage::Owed { cause, request_id },
            AppReply::Command(Some(command)),
            facts,
        ) matches Some(next) && next.0 == app && next.1.action == AppAction::Dispatch(
            match cause {
                Cause::Library { catalog_fence, .. } => fenced(command, catalog_fence),
                Cause::Press { .. } => command,
            },
        ) && next.1.stage is Sending && next.1.stage->Sending_request_id == request_id,
{
}

/// A row that turned out to be a book is opened in the catalog it was found
/// in; no other event fences an open.
pub proof fn law_only_found_rows_are_fenced(app: AppLoop, before: ViewState, event: LibraryEvent, stored_page: Option<u16>, facts: AppFacts)
    ensures
        advance(
            app,
            AppStage::LibraryFolded { before, event },
            AppReply::FoldedLibrary { stored_chapter_page: stored_page },
            facts,
        ) matches Some(next) ==> (next.1.stage matches AppStage::Owed {
            cause: Cause::Library { catalog_fence, before: persisted },
            request_id,
        } ==> {
            &&& persisted == before.persisted
            &&& request_id == next_request_id(app.latest_request_id)
            &&& catalog_fence == match event {
                LibraryEvent::RowIsBook { catalog_epoch, .. } => Some(catalog_epoch),
                _ => None,
            }
        }),
{
}

/// The radio is started when the screen asks for it, and left when the screen
/// is left after it ran; a forget that was confirmed deletes the network.
pub proof fn law_wireless_commands(previous: ViewState, next: ViewState)
    ensures
        sync_command(previous, next) == Some(SyncCommand::Start) <==> next.sync_status is Starting
            && !(previous.sync_status is Starting),
        sync_command(previous, next) == Some(SyncCommand::Exit) <==> {
            &&& previous.view is Wireless
            &&& !(next.view is Wireless)
            &&& previous.sync_status is Starting || previous.sync_status is Running
            &&& !(next.sync_status is Starting && !(previous.sync_status is Starting))
        },
        forgets(previous, next) <==> previous.sync_status is ForgetPending && next.sync_status
            is NotConfigured && next.view is Wireless,
{
}

} // verus!
