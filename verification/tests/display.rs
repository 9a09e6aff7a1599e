use reader_fw::delivery::ChapterCursor;
use reader_fw::display_loop::{
    background_step_due, background_wait_ms, last_portrait, open_loading_plate_request, park_ends,
    reader_page, DisplayAction, DisplayFacts, DisplayLoop, DisplayReply, DisplayStage, DisplayStep,
    Drained, LoopArm, ParkEvent, RenderRequest, ResidentPage, SleepAction, SleepRefusal, SliceGates,
    ABANDONED_HANDSHAKE_CEILING_SECS,
};
use reader_fw::messages::{AppView, StorageCommand, TypeSettings};

const SETTINGS: TypeSettings = TypeSettings { size: 2, spacing: 1, weight: 0, family: 0 };

fn request(view: AppView) -> RenderRequest {
    RenderRequest { view, book_id: 7, page: 12, selection: 3, portrait: false, type_settings: SETTINGS }
}

fn facts(last_request: Option<RenderRequest>) -> DisplayFacts {
    DisplayFacts {
        session_active: false,
        screen_on: last_request.is_some(),
        last_request,
        is_sd: true,
        book_index: Some(5),
        text_holds_toc: true,
        custom_family: false,
        builtin_custom: false,
        card_font: true,
    }
}

fn run(
    display: &mut DisplayLoop,
    first: DisplayStep,
    facts: &DisplayFacts,
    replies: &[DisplayReply],
) -> Vec<DisplayAction> {
    let mut step = first;
    let mut actions = vec![step.action];
    for reply in replies {
        step = match display.advance(step.stage, *reply, facts) {
            Some(step) => step,
            None => panic!("{:?} does not take {:?}", step.stage, reply),
        };
        actions.push(step.action);
    }
    actions
}

fn open() -> StorageCommand {
    StorageCommand::ExtendSection {
        request_id: 1, book_id: 8, index: 6, chapter: 2, target_pages: 9,
        type_settings: TypeSettings { size: 4, ..SETTINGS }, portrait: true,
    }
}

#[test]
fn the_first_frame_brings_the_panel_up() {
    let mut display = DisplayLoop { prev_prestaged: true };
    let at = facts(None);
    let first = display.begin_render(request(AppView::Reading), &at);
    let actions = run(&mut display, first, &at, &[
        DisplayReply::Done,
        DisplayReply::Done,
        DisplayReply::Went(true),
        DisplayReply::Went(true),
        DisplayReply::Done,
        DisplayReply::Chapter(Some(4)),
        DisplayReply::Done,
        DisplayReply::Went(true),
    ]);
    assert_eq!(
        actions,
        vec![
            DisplayAction::LoadActiveEntry { index: 5 },
            DisplayAction::Paint(request(AppView::Reading)),
            DisplayAction::InitPanel,
            DisplayAction::Flush { request: request(AppView::Reading), prestaged: false },
            DisplayAction::RecordRender(request(AppView::Reading)),
            DisplayAction::TrackChapter { page: 12 },
            DisplayAction::Acknowledge {
                settled: true,
                cursor: Some(ChapterCursor { book_id: 7, page: 12, current_chapter: 4 }),
            },
            DisplayAction::Prestage,
            DisplayAction::Wait,
        ]
    );
    assert!(display.prev_prestaged);
}

#[test]
fn a_later_frame_is_sent_against_the_staged_plane() {
    let mut display = DisplayLoop { prev_prestaged: true };
    let at = facts(Some(request(AppView::Reading)));
    let first = display.begin_render(request(AppView::Reading), &at);
    assert_eq!(first.action, DisplayAction::Paint(request(AppView::Reading)));
    let actions = run(&mut display, first, &at, &[DisplayReply::Done, DisplayReply::Went(false),
        DisplayReply::Done]);
    let sent = request(AppView::Reading);
    assert_eq!(actions[1], DisplayAction::Flush { request: sent, prestaged: true });
    assert_eq!(actions[2], DisplayAction::RecordFailure);
    assert_eq!(actions[3], DisplayAction::Acknowledge { settled: false, cursor: None });
    assert!(!display.prev_prestaged);
}

#[test]
fn a_panel_that_does_not_come_up_is_a_failed_frame() {
    let mut display = DisplayLoop::new();
    let at = DisplayFacts { is_sd: false, ..facts(None) };
    let first = display.begin_render(request(AppView::Home), &at);
    let actions = run(&mut display, first, &at, &[DisplayReply::Done, DisplayReply::Went(false)]);
    assert_eq!(actions[2], DisplayAction::Acknowledge { settled: false, cursor: None });
}

#[test]
fn views_read_what_they_show() {
    let display = DisplayLoop::new();
    let shown = facts(Some(request(AppView::Reading)));
    assert_eq!(
        display.begin_render(request(AppView::Library), &shown).action,
        DisplayAction::EnsureFolderPage { selection: 3, portrait: false }
    );
    let chapters = facts(Some(request(AppView::Chapters)));
    assert_eq!(
        display.begin_render(request(AppView::Chapters), &chapters).action,
        DisplayAction::EnsureTocWindow { index: 5, selection: 3, portrait: false }
    );
    let busy = DisplayFacts { session_active: true, ..shown };
    assert_eq!(
        display.begin_render(request(AppView::Library), &busy).action,
        DisplayAction::Paint(request(AppView::Library))
    );
}

#[test]
fn a_font_that_does_not_draw_falls_back() {
    let mut display = DisplayLoop::new();
    let at = DisplayFacts { custom_family: true, ..facts(Some(request(AppView::Reading))) };
    let first = display.begin_render(request(AppView::Reading), &at);
    assert_eq!(first.action, DisplayAction::PaintCustom(request(AppView::Reading)));
    for other in [
        DisplayFacts { builtin_custom: true, ..at },
        DisplayFacts { card_font: false, ..at },
        DisplayFacts { is_sd: false, ..at },
    ] {
        let step = display.begin_render(request(AppView::Reading), &other);
        assert_eq!(step.action, DisplayAction::Paint(request(AppView::Reading)));
    }
    assert_eq!(
        run(&mut display, first, &at, &[DisplayReply::Went(false)])[1],
        DisplayAction::Paint(request(AppView::Reading))
    );
    assert_eq!(
        run(&mut display, first, &at, &[DisplayReply::Went(true)])[1],
        DisplayAction::Flush { request: request(AppView::Reading), prestaged: false }
    );
}

#[test]
fn sleep_drains_the_queue_and_parks() {
    let mut display = DisplayLoop { prev_prestaged: true };
    let at = facts(Some(request(AppView::Home)));
    let first = display.begin_sleep(3, 4);
    let actions = run(&mut display, first, &at, &[
        DisplayReply::Done,
        DisplayReply::Went(true),
        DisplayReply::Sleep(SleepAction::TakeQueued),
        DisplayReply::Taken(Some(open())),
        DisplayReply::Drained(Drained::Apply),
        DisplayReply::Done,
        DisplayReply::Done,
        DisplayReply::Went(true),
        DisplayReply::Sleep(SleepAction::TakeQueued),
        DisplayReply::Taken(None),
        DisplayReply::Done,
        DisplayReply::Sleep(SleepAction::FlushProgress),
        DisplayReply::Went(true),
        DisplayReply::Done,
        DisplayReply::Sleep(SleepAction::Proceed),
        DisplayReply::Went(true),
        DisplayReply::Done,
        DisplayReply::Went(true),
        DisplayReply::Went(true),
        DisplayReply::Done,
        DisplayReply::Done,
    ]);
    assert_eq!(actions[..16], [
        DisplayAction::BeginSequence { queue_capacity: 4 },
        DisplayAction::AskMayProceed,
        DisplayAction::NextSleep,
        DisplayAction::TakeQueued,
        DisplayAction::AskDrained(open()),
        DisplayAction::Apply(open()),
        DisplayAction::ReportApplied,
        DisplayAction::AskMayProceed,
        DisplayAction::NextSleep,
        DisplayAction::TakeQueued,
        DisplayAction::ReportEmpty,
        DisplayAction::NextSleep,
        DisplayAction::FlushProgress,
        DisplayAction::ReportFlushed { stored: true },
        DisplayAction::NextSleep,
        DisplayAction::AskMayProceed,
    ]);
    assert_eq!(actions[16..], [
        DisplayAction::PaintSleep { shown: Some(request(AppView::Home)) },
        DisplayAction::FlushSleep { prestaged: true },
        DisplayAction::SleepPanel,
        DisplayAction::RecordSleep { frame_settled: true },
        DisplayAction::ParkAsleep { generation: 3 },
        DisplayAction::Wait,
    ]);
    assert!(!display.prev_prestaged);
}

#[test]
fn a_held_event_refuses_the_sleep() {
    let mut display = DisplayLoop::new();
    let at = facts(None);
    let first = display.begin_sleep(3, 4);
    let actions = run(&mut display, first, &at, &[DisplayReply::Done, DisplayReply::Went(false)]);
    assert_eq!(actions[2], DisplayAction::RefuseSleep { generation: 3, refusal: None });
    let actions = run(&mut display, first, &at, &[
        DisplayReply::Done,
        DisplayReply::Went(true),
        DisplayReply::Sleep(SleepAction::Proceed),
        DisplayReply::Went(false),
    ]);
    assert_eq!(actions[4], DisplayAction::RefuseSleep { generation: 3, refusal: None });
    for refusal in [
        SleepRefusal::UploadQueued, SleepRefusal::UploadLost, SleepRefusal::ProgressUnwritten,
    ] {
        let actions = run(&mut display, first, &at, &[
            DisplayReply::Done,
            DisplayReply::Went(true),
            DisplayReply::Sleep(SleepAction::Refuse(refusal)),
        ]);
        assert_eq!(
            actions[3],
            DisplayAction::RefuseSleep { generation: 3, refusal: Some(refusal) }
        );
    }
    // Progress that would not write is told to the sequence as it is.
    let actions = run(&mut display, first, &at, &[
        DisplayReply::Done,
        DisplayReply::Went(true),
        DisplayReply::Sleep(SleepAction::FlushProgress),
        DisplayReply::Went(false),
        DisplayReply::Done,
    ]);
    assert_eq!(actions[4..], [
        DisplayAction::ReportFlushed { stored: false },
        DisplayAction::NextSleep,
    ]);
    // A command the sequence will not run goes back to the queue.
    let actions = run(&mut display, first, &at, &[
        DisplayReply::Done,
        DisplayReply::Went(true),
        DisplayReply::Sleep(SleepAction::TakeQueued),
        DisplayReply::Taken(Some(StorageCommand::ReceiveUpload)),
        DisplayReply::Drained(Drained::RequeueAndRefuse),
        DisplayReply::Went(false),
        DisplayReply::Done,
    ]);
    assert_eq!(actions[5..], [
        DisplayAction::Requeue(StorageCommand::ReceiveUpload),
        DisplayAction::ReportRequeued { kept: false },
        DisplayAction::NextSleep,
    ]);
}

#[test]
fn a_panel_that_does_not_sleep_is_reported() {
    let mut display = DisplayLoop::new();
    let step = DisplayStep {
        action: DisplayAction::SleepPanel,
        stage: DisplayStage::PanelSlept { generation: 3, frame_settled: false },
    };
    let at = facts(None);
    let actions = run(&mut display, step, &at, &[DisplayReply::Went(false)]);
    assert_eq!(actions[1], DisplayAction::FailSleep { generation: 3 });
}

#[test]
fn a_plate_never_costs_the_command() {
    let mut display = DisplayLoop { prev_prestaged: true };
    let at = facts(Some(request(AppView::Library)));
    let first = display.begin_storage(open(), LoopArm::Apply, 11, 12);
    assert_eq!(
        first.action,
        DisplayAction::AskWillStage { command: open(), latest_request_id: 11, catalog_epoch: 12 }
    );
    let plate = RenderRequest {
        view: AppView::Reading, book_id: 8, page: 9,
        type_settings: TypeSettings { size: 4, ..SETTINGS }, ..request(AppView::Library)
    };
    let absent = ResidentPage {
        on_card: true, type_settings: TypeSettings { size: 4, ..SETTINGS }, portrait: true,
        covers: false,
    };
    let resident = ResidentPage { covers: true, ..absent };
    let actions = run(&mut display, first, &at, &[
        DisplayReply::Went(true),
        DisplayReply::Resident(absent),
        DisplayReply::Done,
        DisplayReply::Went(false),
        DisplayReply::Done,
        DisplayReply::Done,
    ]);
    assert_eq!(actions[2..], [
        DisplayAction::PaintPlate(plate),
        DisplayAction::FlushPlate { request: plate, prestaged: true },
        DisplayAction::RecordFailure,
        DisplayAction::Apply(open()),
        DisplayAction::Wait,
    ]);
    let shown_plate = run(&mut display, first, &at, &[
        DisplayReply::Went(true),
        DisplayReply::Resident(absent),
        DisplayReply::Done,
        DisplayReply::Went(true),
    ]);
    assert_eq!(shown_plate[3..], [
        DisplayAction::FlushPlate { request: plate, prestaged: false },
        DisplayAction::RecordRender(plate),
    ]);
    for replies in [
        vec![DisplayReply::Went(false)],
        vec![DisplayReply::Went(true), DisplayReply::Resident(resident)],
    ] {
        let actions = run(&mut display, first, &at, &replies);
        assert_eq!(*actions.last().unwrap(), DisplayAction::Apply(open()));
    }
    let shown = Some(request(AppView::Library));
    let asked = |resident| open_loading_plate_request(&open(), &resident, shown);
    assert_eq!(asked(absent), Some(plate));
    assert_eq!(asked(resident), None);
    // A page that is there in another layout still has to be built.
    assert_eq!(asked(ResidentPage { portrait: false, ..resident }), Some(plate));
    assert_eq!(asked(ResidentPage { type_settings: SETTINGS, ..resident }), Some(plate));
    assert_eq!(asked(ResidentPage { on_card: false, ..absent }), None);
    assert_eq!(open_loading_plate_request(&open(), &absent, None), None);
    assert_eq!(open_loading_plate_request(&StorageCommand::RefreshCatalog, &absent, shown), None);
}

#[test]
fn uploads_have_an_arm_of_their_own() {
    let display = DisplayLoop::new();
    assert_eq!(
        display.begin_storage(StorageCommand::ReceiveUpload, LoopArm::UploadSession, 0, 0).action,
        DisplayAction::ServeUploads
    );
    assert_eq!(
        display.begin_storage(StorageCommand::ReceiveUpload, LoopArm::RefusedUpload, 0, 0).action,
        DisplayAction::Wait
    );
}

#[test]
fn a_slice_waits_for_the_card_and_the_arena() {
    let due = SliceGates {
        build_pending: true, evidence_pending: false, evidence_unsettled: false,
        session_active: false, storage_may_run: true, text_holds_toc: false,
    };
    assert!(background_step_due(&due));
    assert!(!background_step_due(&SliceGates { build_pending: false, ..due }));
    assert!(background_step_due(&SliceGates {
        build_pending: false, evidence_unsettled: true, ..due
    }));
    assert!(!background_step_due(&SliceGates { session_active: true, ..due }));
    assert!(!background_step_due(&SliceGates { storage_may_run: false, ..due }));
    assert!(!background_step_due(&SliceGates { text_holds_toc: true, ..due }));
    assert_eq!(background_wait_ms(0, 900, 40), 40);
    assert_eq!(background_wait_ms(1, 900, 40), 900);
}

#[test]
fn the_last_frame_says_where_the_reader_is() {
    assert!(last_portrait(&None));
    assert!(!last_portrait(&Some(request(AppView::Home))));
    assert_eq!(reader_page(&Some(request(AppView::Reading)), 7), 12);
    assert_eq!(reader_page(&Some(request(AppView::Reading)), 8), 0);
    assert_eq!(reader_page(&Some(request(AppView::Library)), 7), 0);
    assert_eq!(reader_page(&None, 7), 0);
}

#[test]
fn a_parked_task_ignores_another_sleep_s_resume() {
    assert!(park_ends(3, ParkEvent::Resumed { generation: 3 }));
    assert!(!park_ends(3, ParkEvent::Resumed { generation: 2 }));
    assert!(park_ends(3, ParkEvent::Deadline));
    assert_eq!(ABANDONED_HANDSHAKE_CEILING_SECS, 5);
}
