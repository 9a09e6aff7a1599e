use reader_fw::app_loop::{
    commit_reader_request_id, first_render_kind, forget_command_for_transition,
    library_event_affects_view, library_event_allows_first_render, loaded_book_id, open_book_id,
    peek_reader_request_id, should_block_post_open_confirm, sync_command_for_transition,
    AppAction, AppEvent, AppFacts, AppLoop, AppReply, AppStage, AppStep, Button, FoldFacts, Offer,
    SleepBlockers, StorageDispatch, SyncCommand, SyncStatus, ViewState,
};
use reader_fw::delivery::{
    continue_delivery, continue_display_event, hold_library_event, send_display_event,
    send_library_event, send_loaded_library_event, send_required_library_event, AckAction,
    AckReply, AckStage, ChapterCursor, DeliveryAction, DeliveryReply, DeliveryStage, EvictionStep,
    HoldOutcome,
};
use reader_fw::messages::{
    AppView, ChapterPages, LibraryEvent, PersistedState, RenderKind, StorageCommand, TypeSettings,
    CHAPTER_CAP,
};

const SETTINGS: TypeSettings = TypeSettings { size: 2, spacing: 1, weight: 0, family: 0 };

const PERSISTED: PersistedState = PersistedState {
    book_id: 8,
    chapter: 1,
    screen: 2,
    shell_orientation: 0,
    reading_orientation: 1,
    refresh_policy: 2,
    font_size: 2,
    line_spacing: 1,
    font_weight: 0,
    font_family: 0,
    front_buttons: 1,
};

fn view(view: AppView) -> ViewState {
    ViewState {
        view,
        book_id: 7,
        page: 4,
        library_count: 12,
        catalog_epoch: 3,
        library_depth: 0,
        library_books: 11,
        selection: 2,
        library_browse: None,
        library_busy: None,
        sync_status: SyncStatus::Idle,
        type_settings: SETTINGS,
        portrait: true,
        persisted: PERSISTED,
    }
}

/// The facts after a fold that moved the reader on by a page.
fn moved(shown: AppView) -> AppFacts {
    let mut facts = facts(shown);
    facts.view.persisted.screen += 1;
    facts
}

fn facts(shown: AppView) -> AppFacts {
    AppFacts { now_ms: 1_000, view: view(shown), parked_is_empty: true }
}

fn open(previous: Option<PersistedState>) -> StorageCommand {
    StorageCommand::OpenBook {
        request_id: 1,
        book_id: 8,
        index: 6,
        chapter: 0,
        target_pages: 5,
        type_settings: SETTINGS,
        portrait: true,
        previous,
        catalog_epoch: None,
        resolve_place: true,
    }
}

fn loaded(book_id: u32) -> LibraryEvent {
    LibraryEvent::Loaded {
        book_id, pages: 50, chapters: 6, current_chapter: 3,
        chapter_pages: ChapterPages { pages: [0; CHAPTER_CAP] }, position: None,
        text_replaced: true,
    }
}

const FOLDED: AppReply = AppReply::FoldedLibrary { stored_chapter_page: None };

const FOLD: FoldFacts = FoldFacts { load_repaints: false, stored_chapter_page: None };

/// A loop whose first frame has been sent and shown.
fn running() -> AppLoop {
    AppLoop { boot_render_pending: false, ..AppLoop::new() }
}

/// Feeds the answers and gives back the actions, the first included.
fn turn(app: &mut AppLoop, event: AppEvent, facts: &AppFacts, replies: &[AppReply]) -> Vec<AppAction> {
    turn_to(app, event, facts, facts, replies)
}

/// The same, with other facts once the event was folded.
fn turn_to(
    app: &mut AppLoop,
    event: AppEvent,
    before: &AppFacts,
    after: &AppFacts,
    replies: &[AppReply],
) -> Vec<AppAction> {
    let mut step = app.begin(event, before);
    let mut actions = vec![step.action];
    for reply in replies {
        step = match app.advance(step.stage, *reply, after) {
            Some(step) => step,
            None => panic!("{:?} does not take {:?}", step.stage, reply),
        };
        actions.push(step.action);
    }
    actions
}

#[test]
fn request_ids_are_never_zero_and_never_repeat_at_once() {
    assert_eq!(peek_reader_request_id(0), 1);
    assert_eq!(peek_reader_request_id(41), 42);
    assert_eq!(peek_reader_request_id(u32::MAX), 1);
    let mut latest = 7;
    commit_reader_request_id(&mut latest, 9);
    assert_eq!(latest, 9);
}

#[test]
fn commands_and_events_name_their_book() {
    assert_eq!(open_book_id(&open(None)), Some(8));
    assert_eq!(open_book_id(&StorageCommand::RefreshCatalog), None);
    assert_eq!(loaded_book_id(&loaded(9)), Some(9));
    assert_eq!(loaded_book_id(&LibraryEvent::RowFailed { request_id: 9 }), None);
}

#[test]
fn the_boot_frame_is_sent_once() {
    let mut pending = true;
    assert_eq!(first_render_kind(&mut pending), RenderKind::Boot);
    assert_eq!(first_render_kind(&mut pending), RenderKind::Page);
    let mut app = AppLoop::new();
    let home = facts(AppView::Home);
    // The font event may not paint before the catalog is known.
    let quiet = turn(&mut app, AppEvent::Library(LibraryEvent::CustomFont { available: true }),
        &home, &[FOLDED, AppReply::Allowed(false)]);
    assert_eq!(
        quiet[1],
        AppAction::AskGate { suppressed: false, opening: false, rendering: false }
    );
    assert_eq!(quiet[2], AppAction::Wait);
    let scanned = AppEvent::Library(LibraryEvent::Scanned { count: 12, catalog_epoch: 3 });
    let answers = [
        FOLDED,
        AppReply::Command(None),
    ];
    assert_eq!(
        *turn(&mut app, scanned, &home, &answers).last().unwrap(),
        AppAction::SendRender(RenderKind::Boot)
    );
    assert!(app.rendering && !app.boot_render_pending);
    // The next frame waits for this one.
    let failed = AppEvent::Library(LibraryEvent::LibraryUnreadable { browse_epoch: 1 });
    assert_eq!(*turn(&mut app, failed, &home, &answers).last().unwrap(), AppAction::Wait);
    assert!(app.render_pending);
    let settled = AppEvent::Settled { chapter_cursor: None };
    let cycle = turn(&mut app, settled, &home, &[AppReply::Done, AppReply::Parked(None)]);
    assert_eq!(
        cycle,
        vec![
            AppAction::RetrySettled,
            AppAction::OfferParked,
            AppAction::SendRender(RenderKind::Page),
        ]
    );
    assert!(library_event_allows_first_render(&LibraryEvent::Scanned { count: 0, catalog_epoch: 0 }));
    assert!(!library_event_allows_first_render(&loaded(7)));
}

#[test]
fn an_open_locks_the_buttons_until_its_frame_settles() {
    let mut app = running();
    let shown = facts(AppView::Library);
    let confirm = AppEvent::Input { button: Some(Button::Confirm) };
    let opened = moved(AppView::Library);
    let actions = turn_to(&mut app, confirm, &shown, &opened, &[
        AppReply::Done,
        AppReply::Command(Some(open(Some(PERSISTED)))),
        AppReply::Dispatched(StorageDispatch::Sent),
        AppReply::Hold { opening_book: Some(8), rollback: true },
        AppReply::Command(None),
        AppReply::Command(None),
    ]);
    assert_eq!(actions[1], AppAction::TransitionCommand { request_id: 1 });
    assert_eq!(actions[2], AppAction::Dispatch(open(Some(PERSISTED))));
    // The open carries the departing book's place, so it is not stored twice.
    assert_eq!(actions[4], AppAction::BrowseCommand);
    assert_eq!(actions[6], AppAction::SendRender(RenderKind::Page));
    assert_eq!((app.opening_book, app.latest_request_id), (Some(8), 1));
    assert!(app.suppress_input_until_open_settled && app.rollback_held);
    assert_eq!(
        app.sleep_blockers(&shown),
        SleepBlockers { open_unresolved: true, parked_storage: false, awaiting_open_frame: true }
    );
    assert_eq!(turn(&mut app, confirm, &shown, &[]), vec![AppAction::Wait]);
    // Another book's load does not end the wait.
    turn(&mut app, AppEvent::Library(loaded(9)), &shown, &[FOLDED]);
    assert_eq!(app.opening_book, Some(8));
    turn(&mut app, AppEvent::Library(loaded(8)), &shown, &[FOLDED]);
    assert_eq!((app.opening_book, app.rollback_held), (None, false));
    assert_eq!(turn(&mut app, confirm, &shown, &[]), vec![AppAction::Wait]);
    let end = turn(&mut app, AppEvent::Settled { chapter_cursor: None }, &shown, &[
        AppReply::Done,
        AppReply::Parked(None),
        AppReply::Allowed(true),
        AppReply::Allowed(false),
    ]);
    assert_eq!(
        end[2],
        AppAction::AskGate { suppressed: true, opening: false, rendering: false }
    );
    assert!(!app.suppress_input_until_open_settled);
    assert_eq!(app.block_confirm_until_ms, Some(1_700));
    // On the page the confirm that opened the book is kept off, until its time.
    let page = facts(AppView::Reading);
    assert_eq!(turn(&mut app, confirm, &page, &[]), vec![AppAction::Wait]);
    let other = AppEvent::Input { button: Some(Button::Other) };
    assert_eq!(turn(&mut app, other, &page, &[]), vec![AppAction::FoldInput]);
    let later = AppFacts { now_ms: 1_700, ..page };
    assert_eq!(turn(&mut app, confirm, &later, &[]), vec![AppAction::FoldInput]);
    assert_eq!(app.block_confirm_until_ms, None);
}

#[test]
fn a_rejected_open_rolls_back() {
    let mut app = running();
    let mut turned = facts(AppView::Library);
    turned.view.portrait = false;
    let actions = turn_to(&mut app, AppEvent::Input { button: Some(Button::Confirm) },
        &facts(AppView::Library), &turned, &[
        AppReply::Done,
        AppReply::Command(Some(open(None))),
        AppReply::Dispatched(StorageDispatch::Rejected),
        AppReply::Done,
    ]);
    assert_eq!(actions[3], AppAction::RestorePrevious);
    // Back where it was, the reader has nothing to store.
    assert_eq!(actions[4], AppAction::BrowseCommand);
    assert_eq!((app.latest_request_id, app.opening_book), (0, None));
    assert!(app.reader_relayout_pending);
}

#[test]
fn a_failed_open_goes_back_the_way_it_came() {
    let mut app = AppLoop { opening_book: Some(8), rollback_held: true, ..running() };
    let failed = AppEvent::Library(LibraryEvent::BookOpenFailed { book_id: 8 });
    let actions = turn(&mut app, failed, &facts(AppView::Library), &[AppReply::Done]);
    assert_eq!(
        actions,
        vec![AppAction::RestoreRollback, AppAction::TransitionCommand { request_id: 1 }]
    );
    assert_eq!((app.opening_book, app.rollback_held), (None, false));
    let other = AppEvent::Library(LibraryEvent::BookOpenFailed { book_id: 9 });
    let mut app = AppLoop { opening_book: Some(8), ..running() };
    assert_eq!(
        turn(&mut app, other, &facts(AppView::Library), &[]),
        vec![AppAction::TransitionCommand { request_id: 1 }]
    );
    assert_eq!(app.opening_book, Some(8));
}

#[test]
fn a_switch_without_a_carried_place_is_recorded() {
    let mut app = running();
    let after = moved(AppView::Reading);
    let actions = turn_to(&mut app, AppEvent::Input { button: Some(Button::Other) },
        &facts(AppView::Reading), &after, &[
        AppReply::Done,
        AppReply::Command(None),
        AppReply::Dispatched(StorageDispatch::Parked),
    ]);
    let next = PersistedState { screen: 3, ..PERSISTED };
    assert_eq!(actions[2], AppAction::Dispatch(StorageCommand::StoreProgress(next)));
    assert_eq!(actions[3], AppAction::BrowseCommand);
    // A library event that moves the reader is recorded too.
    let mut app = running();
    let restored = LibraryEvent::LibraryUnreadable { browse_epoch: 1 };
    let actions = turn_to(&mut app, AppEvent::Library(restored), &facts(AppView::Reading), &after,
        &[FOLDED, AppReply::Command(None), AppReply::Dispatched(StorageDispatch::Sent)]);
    assert_eq!(actions[2..], [
        AppAction::Dispatch(StorageCommand::StoreProgress(next)),
        AppAction::SendRender(RenderKind::Page),
    ]);
}

#[test]
fn a_new_layout_is_extended_on_the_way_into_the_page() {
    let mut app = AppLoop { reader_relayout_pending: true, ..running() };
    let extend = StorageCommand::ExtendSection {
        request_id: 1, book_id: 7, index: 5, chapter: 2, target_pages: 9, type_settings: SETTINGS,
        portrait: true,
    };
    let actions = turn(&mut app, AppEvent::Input { button: Some(Button::Other) },
        &facts(AppView::Reading), &[
        AppReply::Done,
        AppReply::Command(None),
        AppReply::Command(Some(extend)),
        AppReply::Dispatched(StorageDispatch::Sent),
    ]);
    assert_eq!(actions[2], AppAction::RelayoutCommand { request_id: 1 });
    assert_eq!(actions[4], AppAction::OpenHold(extend));
    assert!(!app.reader_relayout_pending);
}

#[test]
fn a_press_that_lays_the_text_out_anew_is_remembered() {
    let event = AppEvent::Input { button: Some(Button::Other) };
    let shown = facts(AppView::Settings);
    let mut turned = shown;
    turned.view.portrait = false;
    let mut larger = shown;
    larger.view.type_settings.size = 3;
    for (after, owed) in [(shown, false), (turned, true), (larger, true)] {
        let mut app = running();
        turn_to(&mut app, event, &shown, &after, &[AppReply::Done]);
        assert_eq!(app.reader_relayout_pending, owed);
    }
}

#[test]
fn a_load_asks_whether_it_is_worth_a_repaint() {
    let mut after = facts(AppView::Reading);
    after.view.page = 5;
    let mut app = running();
    let actions = turn_to(&mut app, AppEvent::Library(loaded(7)), &facts(AppView::Reading), &after,
        &[FOLDED, AppReply::Allowed(true)]);
    assert_eq!(actions[1..], [
        AppAction::AskLoadRepaints { reading: true, text_replaced: true, page_moved: true },
        AppAction::TransitionCommand { request_id: 1 },
    ]);
    let mut app = running();
    let home = facts(AppView::Home);
    let actions = turn(&mut app, AppEvent::Library(loaded(7)), &home,
        &[FOLDED, AppReply::Allowed(false)]);
    assert_eq!(actions[1..], [
        AppAction::AskLoadRepaints { reading: false, text_replaced: true, page_moved: false },
        AppAction::AskGate { suppressed: false, opening: false, rendering: false },
    ]);
    // Another book's load changes nothing on screen, and before the first
    // frame no load does.
    for (mut app, book_id) in [(running(), 8), (AppLoop::new(), 7)] {
        let actions = turn(&mut app, AppEvent::Library(loaded(book_id)), &home, &[FOLDED]);
        assert_eq!(
            actions[1],
            AppAction::AskGate { suppressed: false, opening: false, rendering: false }
        );
    }
}

#[test]
fn a_chapter_list_in_flight_keeps_the_frame() {
    let mut app = running();
    let chapters = StorageCommand::LoadChapters { request_id: 1, book_id: 7, index: 5 };
    let replies = |outcome| {
        vec![
            AppReply::Done,
            AppReply::Command(Some(chapters)),
            AppReply::Dispatched(outcome),
            AppReply::Hold { opening_book: None, rollback: false },
            AppReply::Command(None),
            AppReply::Command(None),
        ]
    };
    let event = AppEvent::Input { button: Some(Button::Other) };
    let sent = turn(&mut app, event, &facts(AppView::Reading), &replies(StorageDispatch::Sent));
    assert_eq!(*sent.last().unwrap(), AppAction::Wait);
    let parked = turn(&mut app, event, &facts(AppView::Reading), &replies(StorageDispatch::Parked));
    assert_eq!(*parked.last().unwrap(), AppAction::SendRender(RenderKind::Page));
}

#[test]
fn a_row_that_is_a_book_is_opened_in_the_catalog_it_was_found_in() {
    let mut app = running();
    let row = LibraryEvent::RowIsBook { request_id: 3, index: 6, catalog_epoch: 77 };
    let mut shown = facts(AppView::Library);
    let step = app.begin(AppEvent::Library(row), &shown);
    shown.view.view = AppView::Reading;
    let step = app.advance(step.stage, FOLDED, &shown).unwrap();
    let step = app.advance(step.stage, AppReply::Command(Some(open(None))), &shown).unwrap();
    match step.action {
        AppAction::Dispatch(StorageCommand::OpenBook { catalog_epoch, book_id, .. }) => {
            assert_eq!((catalog_epoch, book_id), (Some(77), 8));
        }
        other => panic!("{:?}", other),
    }
}

#[test]
fn only_a_parked_command_that_was_taken_counts() {
    let mut app = AppLoop { catalog_refresh_requested: false, ..running() };
    let shown = facts(AppView::Home);
    let cursor = ChapterCursor { book_id: 7, page: 4, current_chapter: 2 };
    let actions = turn(&mut app, AppEvent::Settled { chapter_cursor: Some(cursor) }, &shown, &[
        AppReply::Done,
        AppReply::Done,
        AppReply::Done,
        AppReply::Parked(Some(Offer { command: open(None), taken: false })),
    ]);
    assert_eq!(
        actions[..4],
        [
            AppAction::ApplyCursor(cursor),
            AppAction::RetrySettled,
            AppAction::SendLoadCatalog,
            AppAction::OfferParked,
        ]
    );
    assert_eq!(app.opening_book, None);
    turn(&mut app, AppEvent::Settled { chapter_cursor: None }, &shown, &[
        AppReply::Done,
        AppReply::Parked(Some(Offer { command: open(None), taken: true })),
    ]);
    assert_eq!(app.opening_book, Some(8));
    let mut app = running();
    assert_eq!(turn(&mut app, AppEvent::ParkedTaken(open(None)), &shown, &[]), vec![AppAction::Wait]);
    assert!(app.suppress_input_until_open_settled);
    let mut app = running();
    app.accept_parked_storage(&StorageCommand::RefreshCatalog);
    assert_eq!(app, running());
}

#[test]
fn a_failed_frame_gets_one_repaint() {
    let mut app = AppLoop { rendering: true, render_pending: true, ..running() };
    let actions = turn(&mut app, AppEvent::RefreshFailed, &facts(AppView::Home), &[
        AppReply::Parked(None),
        AppReply::Allowed(true),
        AppReply::Done,
        AppReply::Allowed(true),
        AppReply::Done,
    ]);
    assert_eq!(
        actions,
        vec![
            AppAction::OfferParked,
            AppAction::RetryFailed,
            AppAction::SendRender(RenderKind::Page),
            AppAction::ReleaseSleep(SleepBlockers {
                open_unresolved: false, parked_storage: false, awaiting_open_frame: false,
            }),
            AppAction::SendSleepNow,
            AppAction::Wait,
        ]
    );
    assert!(app.rendering);
}

#[test]
fn a_confirmed_forget_deletes_the_network() {
    let pending = ViewState { sync_status: SyncStatus::ForgetPending, ..view(AppView::Wireless) };
    let gone = ViewState { sync_status: SyncStatus::NotConfigured, ..view(AppView::Wireless) };
    let left = ViewState { view: AppView::Home, ..gone };
    assert_eq!(
        forget_command_for_transition(&pending, &gone),
        Some(StorageCommand::ForgetWifiCredentials)
    );
    assert_eq!(forget_command_for_transition(&pending, &left), None);
    assert_eq!(forget_command_for_transition(&gone, &gone), None);
}

#[test]
fn sync_starts_and_is_left() {
    let idle = view(AppView::Wireless);
    let starting = ViewState { sync_status: SyncStatus::Starting, ..idle };
    let running = ViewState { sync_status: SyncStatus::Running, ..idle };
    let home = view(AppView::Home);
    assert_eq!(sync_command_for_transition(&idle, &starting), Some(SyncCommand::Start));
    assert_eq!(sync_command_for_transition(&starting, &starting), None);
    assert_eq!(sync_command_for_transition(&running, &home), Some(SyncCommand::Exit));
    assert_eq!(sync_command_for_transition(&idle, &home), None);
    let mut app = self::running();
    let step: AppStep = app.begin(AppEvent::Sync, &facts(AppView::Wireless));
    assert_eq!(step.stage, AppStage::SyncFolded);
    let next = app.advance(step.stage, AppReply::Done, &facts(AppView::Wireless)).unwrap();
    assert_eq!(next.action, AppAction::SendRender(RenderKind::Page));
}

#[test]
fn the_power_button_asks_before_it_sleeps() {
    let mut app = running();
    let power = AppEvent::Input { button: Some(Button::Power) };
    let actions = turn(&mut app, power, &facts(AppView::Home), &[
        AppReply::Allowed(true),
        AppReply::Done,
    ]);
    assert_eq!(actions[1..], [AppAction::SendSleepNow, AppAction::Wait]);
    let actions = turn(&mut app, power, &facts(AppView::Home), &[AppReply::Allowed(false)]);
    assert_eq!(actions[1], AppAction::Wait);
    let battery = turn(&mut app, AppEvent::Input { button: None }, &facts(AppView::Home), &[]);
    assert_eq!(battery, vec![AppAction::FoldBattery]);
}

#[test]
fn a_confirm_is_blocked_only_until_its_deadline() {
    let mut until = Some(500);
    assert!(should_block_post_open_confirm(Button::Confirm, &mut until, 499));
    assert!(!should_block_post_open_confirm(Button::Other, &mut until, 499));
    assert_eq!(until, Some(500));
    assert!(!should_block_post_open_confirm(Button::Confirm, &mut until, 500));
    assert_eq!(until, None);
}

#[test]
fn events_repaint_what_they_changed() {
    let home = view(AppView::Home);
    let library = view(AppView::Library);
    let scanned = LibraryEvent::Scanned { count: 13, catalog_epoch: 3 };
    assert!(library_event_affects_view(&library, &library, &scanned, &FOLD));
    assert!(!library_event_affects_view(&home, &home, &scanned, &FOLD));
    let page = |page| LibraryEvent::ChapterPage { book_id: 7, chapter: 1, page };
    let held = FoldFacts { stored_chapter_page: Some(u16::MAX), ..FOLD };
    assert!(library_event_affects_view(&home, &home, &page(3), &held));
    assert!(!library_event_affects_view(&home, &home, &page(70_000), &held));
    assert!(!library_event_affects_view(&home, &home, &page(3), &FOLD));
    let repaints = FoldFacts { load_repaints: true, ..FOLD };
    assert!(library_event_affects_view(&home, &home, &loaded(7), &repaints));
    assert!(!library_event_affects_view(&home, &home, &loaded(8), &repaints));
    let row = LibraryEvent::RowFailed { request_id: 3 };
    assert!(!library_event_affects_view(&library, &library, &row, &FOLD));
    let moved = ViewState { selection: 3, ..library };
    assert!(library_event_affects_view(&library, &moved, &row, &FOLD));
    let cleared = LibraryEvent::CacheCleared { request_id: 3, ok: true };
    let busy = ViewState { library_busy: Some(3), ..library };
    assert!(library_event_affects_view(&busy, &busy, &cleared, &FOLD));
    assert!(!library_event_affects_view(&library, &library, &cleared, &FOLD));
}

#[test]
fn a_required_event_is_dropped_last() {
    let event = LibraryEvent::RowFailed { request_id: 3 };
    let head = LibraryEvent::Scanned { count: 1, catalog_epoch: 1 };
    let step = send_library_event(event, true);
    assert_eq!(step, send_required_library_event(event));
    let step = continue_delivery(event, step.stage, DeliveryReply::Sent(false)).unwrap();
    assert_eq!(step.action, DeliveryAction::BeginWalk);
    let step = continue_delivery(event, step.stage, DeliveryReply::Begun).unwrap();
    let step = continue_delivery(event, step.stage, DeliveryReply::Exhausted(false)).unwrap();
    assert_eq!(step.action, DeliveryAction::TryReceive);
    let step = continue_delivery(event, step.stage, DeliveryReply::Head(Some(head))).unwrap();
    let back =
        continue_delivery(event, step.stage, DeliveryReply::Verdict(EvictionStep::Requeue)).unwrap();
    assert_eq!(back.action, DeliveryAction::PutBack(head));
    let spent =
        continue_delivery(event, step.stage, DeliveryReply::Verdict(EvictionStep::Discard)).unwrap();
    assert_eq!(spent.action, DeliveryAction::TrySend(event));
    let step = continue_delivery(event, back.stage, DeliveryReply::Sent(true)).unwrap();
    let step = continue_delivery(event, step.stage, DeliveryReply::Exhausted(true)).unwrap();
    assert_eq!(step, hold_library_event(event));
    let held =
        continue_delivery(event, step.stage, DeliveryReply::Hold(HoldOutcome::Held)).unwrap();
    assert_eq!(held.action, DeliveryAction::Delivered);
    let step =
        continue_delivery(event, step.stage, DeliveryReply::Hold(HoldOutcome::Occupied)).unwrap();
    assert_eq!(step.stage, DeliveryStage::LastTry);
    let step = continue_delivery(event, step.stage, DeliveryReply::Sent(false)).unwrap();
    assert_eq!(step.action, DeliveryAction::Dropped);
    assert_eq!(continue_delivery(event, step.stage, DeliveryReply::Sent(true)), None);
}

#[test]
fn a_lossy_event_has_one_try_on_each_channel() {
    let event = LibraryEvent::CustomFont { available: true };
    let step = send_loaded_library_event(event, false);
    assert_eq!(step.action, DeliveryAction::TrySendDisplay(event));
    let step = continue_delivery(event, step.stage, DeliveryReply::Sent(false)).unwrap();
    assert_eq!(step.action, DeliveryAction::TrySend(event));
    let step = continue_delivery(event, step.stage, DeliveryReply::Sent(false)).unwrap();
    assert_eq!(step.action, DeliveryAction::Dropped);
}

#[test]
fn an_acknowledgement_is_held_when_the_channel_is_full() {
    let (action, stage) = send_display_event(true);
    assert_eq!(action, AckAction::TrySend);
    let (action, next) = continue_display_event(stage, AckReply::Sent(false)).unwrap();
    assert_eq!(action, AckAction::Hold);
    let stage = next.unwrap();
    assert_eq!(
        continue_display_event(stage, AckReply::Hold(HoldOutcome::Held)),
        Some((AckAction::Delivered, None))
    );
    let (action, next) =
        continue_display_event(stage, AckReply::Hold(HoldOutcome::NotSettling)).unwrap();
    assert_eq!((action, next), (AckAction::TrySend, Some(AckStage::LastTry)));
    assert_eq!(
        continue_display_event(AckStage::LastTry, AckReply::Sent(false)),
        Some((AckAction::Dropped, None))
    );
    let (_, stage) = send_display_event(false);
    assert_eq!(
        continue_display_event(stage, AckReply::Sent(false)),
        Some((AckAction::Dropped, None))
    );
}
