use reader_fw::background::{
    announcement, apply_background_step, apply_build_outcome, Announcement, BackgroundBuild,
    BackgroundStep, BookBuildOutcome,
};
use reader_fw::messages::{
    record_for_persisted, AppStateRecord, BookPosition, ChapterPages, FolderListing, LibraryEvent,
    PersistedState, SourceIdentity, StorageCommand, TypeSettings, CHAPTER_CAP,
};
use reader_fw::progress::{Progress, ProgressPlan};
use reader_fw::sleep_frame::{
    continue_sleep_frame, sleep_request_from_saved_state, SleepFrameAction, SleepFrameReply,
    SleepFrameStage,
};
use reader_fw::slice::{
    begin_slice, continue_slice, BookFacts, SliceAction, SliceReply, SliceStage,
};
use reader_fw::storage::{
    book_position, CatalogRow, Emission, OpenStep, PlaceTarget, Route, RowChoice, StorageAction,
    StorageReply, StorageStage, StorageStep, StorageTask, StoreFacts,
};
use reader_fw::wifi::{credentials_confirmed, hint_applies, WifiCredentials};

const SETTINGS: TypeSettings = TypeSettings { size: 2, spacing: 1, weight: 0, family: 0 };

fn facts() -> StoreFacts {
    StoreFacts {
        now_ms: 100_000,
        portrait: true,
        catalog_epoch: 4,
        browse_epoch: 9,
        catalog_count: 12,
        catalog_is_empty: false,
        pages: 50,
        chapters: 6,
        current_chapter: 3,
        chapter_pages: chapter_pages(),
    }
}

/// Chapter n begins on page 10 n.
fn chapter_pages() -> ChapterPages {
    let mut pages = [0; CHAPTER_CAP];
    for (chapter, page) in pages.iter_mut().enumerate() {
        *page = 10 * chapter as u16;
    }
    ChapterPages { pages }
}

fn state(book_id: u32, screen: u32) -> PersistedState {
    PersistedState {
        book_id,
        chapter: 1,
        screen,
        shell_orientation: 0,
        reading_orientation: 1,
        refresh_policy: 2,
        font_size: 2,
        line_spacing: 1,
        font_weight: 0,
        font_family: 0,
        front_buttons: 1,
    }
}

const SOURCE: SourceIdentity = SourceIdentity { hash: 0xabcd, size: 1234 };

fn record(book_id: u32, screen: u32) -> AppStateRecord {
    record_for_persisted(state(book_id, screen), SOURCE, true, true, 3)
}

fn identity() -> StorageReply {
    StorageReply::Identity { source: SOURCE, is_sd: true, is_loaded_index: true }
}

/// Feeds the answers and gives back every step, the first included.
fn run(
    task: &mut StorageTask,
    command: StorageCommand,
    latest: u32,
    replies: &[StorageReply],
) -> Vec<StorageStep> {
    let mut steps = vec![task.begin(command, true, latest, &facts())];
    for reply in replies {
        let stage = steps.last().unwrap().stage;
        match task.advance(stage, *reply, &facts()) {
            Some(step) => steps.push(step),
            None => panic!("{:?} does not take {:?}", stage, reply),
        }
    }
    steps
}

fn events(steps: &[StorageStep]) -> Vec<Emission> {
    steps.iter().flat_map(|step| [step.first, step.second]).flatten().collect()
}

#[test]
fn a_record_names_the_true_chapter_of_the_loaded_book() {
    assert_eq!(record(7, 20).chapter, 3);
    assert_eq!(record_for_persisted(state(7, 20), SOURCE, true, false, 3).chapter, 1);
    assert_eq!(record_for_persisted(state(7, 20), SOURCE, false, true, 3).chapter, 1);
    let r = record(7, 20);
    assert_eq!((r.source_hash, r.source_size, r.legacy_source_identity), (0xabcd, 1234, false));
    assert_eq!((r.screen, r.reading_orientation, r.front_buttons), (20, 1, 1));
}

#[test]
fn page_turns_are_coalesced_inside_the_interval() {
    let mut progress = Progress::new();
    assert_eq!(progress.plan(&record(7, 1), 0), ProgressPlan { flush_first: None, write: true });
    progress.written(record(7, 1), true, 1_000);
    let plan = progress.plan(&record(7, 2), 15_999);
    assert_eq!(plan, ProgressPlan { flush_first: None, write: false });
    progress.coalesce(record(7, 2));
    assert!(!progress.plan(&record(7, 3), 15_999).write);
    assert!(progress.plan(&record(7, 3), 16_000).write);
    let turned = AppStateRecord { font_size: 9, ..record(7, 3) };
    assert!(progress.plan(&turned, 2_000).write);
    assert_eq!(
        progress.plan(&record(8, 3), 2_000),
        ProgressPlan { flush_first: Some(record(7, 2)), write: true }
    );
}

#[test]
fn progress_stays_owed_until_it_lands() {
    let mut progress = Progress::new();
    progress.coalesce(record(7, 2));
    progress.flushed(false, 5);
    assert_eq!(progress.pending, Some(record(7, 2)));
    assert!(!progress.end_flush(false, 6));
    assert_eq!(progress.pending, Some(record(7, 2)));
    let mut written = progress;
    assert!(written.end_flush(true, 7));
    assert_eq!((written.pending, written.written_ms), (None, Some(7)));
    // With nothing owed there is nothing to write.
    assert!(written.end_flush(false, 9));
    assert_eq!((written.pending, written.written_ms), (None, Some(7)));
    assert_eq!(progress.owed_to_another(7), None);
    assert_eq!(progress.owed_to_another(8), Some(record(7, 2)));
    progress.closed_out(record(7, 4), false);
    assert_eq!(progress.pending, Some(record(7, 4)));
    progress.closed_out(record(7, 4), true);
    assert_eq!((progress.pending, progress.written_ms), (None, None));
    progress.coalesce(record(7, 2));
    progress.flushed(true, 9);
    assert_eq!((progress.pending, progress.written_ms), (None, Some(9)));
}

#[test]
fn a_refused_command_does_nothing() {
    let mut task = StorageTask::new();
    let step = task.begin(StorageCommand::RefreshCatalog, false, 0, &facts());
    assert_eq!(step.action, StorageAction::Finish);
    assert_eq!(task, StorageTask::new());
}

#[test]
fn a_first_progress_record_is_written_at_once() {
    let mut task = StorageTask::new();
    let steps = run(
        &mut task,
        StorageCommand::StoreProgress(state(7, 20)),
        0,
        &[identity(), StorageReply::Stored(true)],
    );
    assert_eq!(steps[0].action, StorageAction::ReadIdentity { book_id: 7 });
    assert_eq!(steps[1].action, StorageAction::StoreAppState(record(7, 20)));
    assert_eq!(steps[2].action, StorageAction::Finish);
    assert_eq!(task.progress.written_ms, Some(100_000));
}

#[test]
fn another_books_position_is_not_dropped() {
    let mut task = StorageTask::new();
    task.progress.coalesce(record(7, 20));
    let steps = run(
        &mut task,
        StorageCommand::StoreProgress(state(8, 1)),
        0,
        &[identity(), StorageReply::Stored(false)],
    );
    assert_eq!(steps[1].action, StorageAction::StoreAppState(record(7, 20)));
    assert_eq!(steps[2].action, StorageAction::Finish);
    assert_eq!(task.progress.pending, Some(record(7, 20)));
}

#[test]
fn a_loan_needs_the_position_written() {
    let mut task = StorageTask::new();
    let handle = BackgroundBuild { book_id: 7, started_ms: 1, attempts: 2 };
    task.background_build = Some(handle);
    task.progress.coalesce(record(7, 20));
    let steps = run(&mut task, StorageCommand::LoanSyncMemory, 0, &[
        StorageReply::Stored(false),
        StorageReply::Done,
    ]);
    assert_eq!(steps[1].action, StorageAction::RefuseLoan);
    assert_eq!(task.background_build, Some(handle));
    let steps = run(&mut task, StorageCommand::LoanSyncMemory, 0, &[
        StorageReply::Stored(true),
        StorageReply::Scratch(true),
        StorageReply::Credentials(true),
        StorageReply::Hint(true),
        StorageReply::Done,
        StorageReply::Done,
    ]);
    assert_eq!(steps[5].action, StorageAction::SendLoan { with_network: true, with_hint: true });
    assert_eq!(steps[6].stage, StorageStage::Over);
    assert_eq!(task.background_build, None);
}

#[test]
fn a_loan_without_a_network_carries_no_hint() {
    let mut task = StorageTask::new();
    let steps = run(&mut task, StorageCommand::LoanSyncMemory, 0, &[
        StorageReply::Scratch(true),
        StorageReply::Credentials(false),
        StorageReply::Done,
    ]);
    assert_eq!(steps[3].action, StorageAction::SendLoan { with_network: false, with_hint: false });
    let steps = run(&mut task, StorageCommand::LoanSyncMemory, 0, &[StorageReply::Scratch(false)]);
    assert_eq!(steps[1].action, StorageAction::RefuseLoan);
}

#[test]
fn a_boot_restores_the_saved_book_once() {
    let mut task = StorageTask::new();
    let restore = [
        StorageReply::Credentials(true),
        StorageReply::Done,
        StorageReply::Font { available: true },
        StorageReply::Loaded(true),
        StorageReply::AppState(Some(record(7, 20))),
        StorageReply::Row(Some(5)),
        StorageReply::Done,
        StorageReply::Place(None),
        StorageReply::Done,
        StorageReply::PageCount { page_count: 321, book_id: 1005 },
        StorageReply::Listed(Some(FolderListing { depth: 0, count: 12, books: 11, selection: 2 })),
    ];
    let steps = run(&mut task, StorageCommand::LoadCatalogCache, 0, &restore);
    let sent = events(&steps);
    assert_eq!(sent[0].event, LibraryEvent::CustomFont { available: true });
    assert_eq!(sent[1].route, Route::Required);
    match sent[1].event {
        LibraryEvent::Restored { book_id, chapter, page, page_count, .. } => {
            assert_eq!((book_id, chapter, page, page_count), (1005, 3, 20, 321));
        }
        other => panic!("{:?}", other),
    }
    assert_eq!(sent[2].event, LibraryEvent::Scanned { count: 12, catalog_epoch: 4 });
    assert_eq!(
        sent[3].event,
        LibraryEvent::FolderListed {
            request_id: None, browse_epoch: 9, depth: 0, count: 12, books: 11, selection: 2,
        }
    );
    assert_eq!(sent.len(), 4);
    assert!(task.state_restored);
    // The second time nothing is read back.
    let steps = run(&mut task, StorageCommand::RefreshCatalog, 0, &[
        StorageReply::Font { available: false },
        StorageReply::Done,
        StorageReply::Listed(None),
        StorageReply::Done,
    ]);
    assert_eq!(steps[2].action, StorageAction::RelistRoot { portrait: true });
    assert_eq!(steps[3].action, StorageAction::MarkLibraryUnreadable);
    assert_eq!(
        events(&steps).last().unwrap().event,
        LibraryEvent::LibraryUnreadable { browse_epoch: 9 }
    );
}

#[test]
fn a_catalog_that_does_not_load_is_scanned() {
    let mut task = StorageTask::new();
    let steps = run(&mut task, StorageCommand::LoadCatalogCache, 0, &[
        StorageReply::Credentials(false),
        StorageReply::Font { available: false },
        StorageReply::Loaded(false),
        StorageReply::Done,
    ]);
    assert_eq!(steps[3].action, StorageAction::QueueRefresh);
    assert!(!task.state_restored);
}

fn open_command() -> StorageCommand {
    StorageCommand::OpenBook {
        request_id: 2,
        book_id: 8,
        index: 6,
        chapter: 0,
        target_pages: 0,
        type_settings: SETTINGS,
        portrait: true,
        previous: Some(state(7, 20)),
        catalog_epoch: None,
        resolve_place: true,
    }
}

#[test]
fn an_open_closes_out_the_departing_book_first() {
    let mut task = StorageTask::new();
    task.progress.coalesce(record(5, 3));
    let steps = run(&mut task, open_command(), 2, &[
        StorageReply::Begun(true),
        StorageReply::Next(OpenStep::CloseOutDeparting(state(7, 20))),
        StorageReply::Stored(true),
        identity(),
        StorageReply::Stored(true),
    ]);
    assert_eq!(steps[2].action, StorageAction::StoreAppState(record(5, 3)));
    assert_eq!(steps[3].action, StorageAction::ReadIdentity { book_id: 7 });
    assert_eq!(steps[4].action, StorageAction::StoreBookPosition(record(7, 20)));
    assert_eq!(steps[5].action, StorageAction::OpenDeparting { stored: true });
    assert_eq!(task.progress.pending, None);
}

#[test]
fn an_open_that_cannot_close_out_is_refused() {
    let mut task = StorageTask::new();
    let steps = run(&mut task, open_command(), 2, &[
        StorageReply::Begun(true),
        StorageReply::Next(OpenStep::CloseOutDeparting(state(7, 20))),
        identity(),
        StorageReply::Stored(false),
        StorageReply::Next(OpenStep::Refuse { book_id: 8 }),
        StorageReply::Next(OpenStep::Done),
    ]);
    assert_eq!(steps[4].action, StorageAction::OpenDeparting { stored: false });
    assert_eq!(task.progress.pending, Some(record(7, 20)));
    assert_eq!(
        events(&steps),
        vec![Emission {
            route: Route::Required,
            event: LibraryEvent::BookOpenFailed { book_id: 8 },
        }]
    );
    assert_eq!(steps[6].stage, StorageStage::Over);
}

#[test]
fn an_open_is_begun_with_what_may_refuse_it() {
    let extend = StorageCommand::ExtendSection {
        request_id: 2, book_id: 8, index: 6, chapter: 4, target_pages: 9, type_settings: SETTINGS,
        portrait: true,
    };
    for command in [open_command(), extend] {
        let mut task = StorageTask::new();
        let steps = run(&mut task, command, 5, &[StorageReply::Begun(false)]);
        assert_eq!(
            steps[0].action,
            StorageAction::BeginOpen { command, latest_request_id: 5, catalog_epoch: 4 }
        );
        assert_eq!(steps[1].action, StorageAction::Finish);
        assert_eq!(events(&steps), vec![]);
    }
}

#[test]
fn a_place_is_resolved_and_built_to() {
    let mut task = StorageTask::new();
    let steps = run(&mut task, open_command(), 2, &[
        StorageReply::Begun(true),
        StorageReply::Next(OpenStep::LoadSavedPosition { index: 6 }),
        StorageReply::Place(Some(BookPosition { chapter: 4, page: 0 })),
        StorageReply::Next(OpenStep::LoadSection { index: 6, chapter: 4, page: 0 }),
        StorageReply::Covered(false),
        StorageReply::Built(BookBuildOutcome::Started),
        StorageReply::Target(PlaceTarget::Page(17)),
        StorageReply::Covered(true),
        StorageReply::Next(OpenStep::Announce { book_id: 8, position: Some(17) }),
        StorageReply::Next(OpenStep::Done),
    ]);
    assert_eq!(
        steps[3].action,
        StorageAction::OpenPosition { position: Some(BookPosition { chapter: 4, page: 0 }) }
    );
    assert_eq!(
        steps[5].action,
        StorageAction::Build { index: 6, chapter: 4, page: 0, show_loading: true }
    );
    assert_eq!(steps[6].action, StorageAction::ResolvePlace { index: 6 });
    assert_eq!(steps[8].action, StorageAction::OpenSectionLoaded { resolved: Some(17) });
    assert_eq!(
        task.background_build,
        Some(BackgroundBuild { book_id: 8, started_ms: 100_000, attempts: 0 })
    );
    match events(&steps)[0].event {
        LibraryEvent::Loaded { text_replaced, position, pages, chapter_pages, .. } => {
            assert!(text_replaced);
            assert_eq!((position, pages), (Some(17), 50));
            assert_eq!(chapter_pages.pages[4], 40);
        }
        other => panic!("{:?}", other),
    }
}

#[test]
fn a_place_past_the_index_is_chased_a_bounded_number_of_times() {
    let mut task = StorageTask::new();
    let mut replies = vec![
        StorageReply::Begun(true),
        StorageReply::Next(OpenStep::LoadSavedPosition { index: 6 }),
        StorageReply::Place(Some(BookPosition { chapter: 4, page: 0 })),
        StorageReply::Next(OpenStep::LoadSection { index: 6, chapter: 4, page: 0 }),
        StorageReply::Covered(true),
    ];
    for _ in 0..8 {
        replies.push(StorageReply::Target(PlaceTarget::Extend(20)));
        replies.push(StorageReply::Covered(false));
        replies.push(StorageReply::Built(BookBuildOutcome::Carried));
    }
    let steps = run(&mut task, open_command(), 2, &replies);
    assert_eq!(steps.last().unwrap().action, StorageAction::OpenSectionLoaded { resolved: None });
    // An index that did not grow ends it at once.
    let steps = run(&mut task, open_command(), 2, &[
        StorageReply::Begun(true),
        StorageReply::Next(OpenStep::LoadSavedPosition { index: 6 }),
        StorageReply::Place(Some(BookPosition { chapter: 4, page: 0 })),
        StorageReply::Next(OpenStep::LoadSection { index: 6, chapter: 4, page: 0 }),
        StorageReply::Covered(true),
        StorageReply::Target(PlaceTarget::Extend(50)),
        StorageReply::Covered(true),
    ]);
    assert_eq!(steps.last().unwrap().action, StorageAction::OpenSectionLoaded { resolved: None });
}

#[test]
fn a_section_from_memory_replaces_no_text() {
    let mut task = StorageTask::new();
    let steps = run(&mut task, open_command(), 2, &[
        StorageReply::Begun(true),
        StorageReply::Next(OpenStep::LoadSection { index: 6, chapter: 4, page: 0 }),
        StorageReply::Covered(true),
        StorageReply::Next(OpenStep::Announce { book_id: 8, position: None }),
    ]);
    match events(&steps)[0].event {
        LibraryEvent::Loaded { text_replaced, .. } => assert!(!text_replaced),
        other => panic!("{:?}", other),
    }
}

#[test]
fn a_pointer_that_does_not_land_stays_owed() {
    let mut task = StorageTask::new();
    let steps = run(&mut task, open_command(), 2, &[
        StorageReply::Begun(true),
        StorageReply::Next(OpenStep::StorePointer(state(8, 1))),
        identity(),
        StorageReply::Stored(false),
    ]);
    assert_eq!(steps[3].action, StorageAction::StoreGlobalState(record(8, 1)));
    assert_eq!(steps[4].action, StorageAction::OpenPointer { stored: false });
    assert_eq!(task.progress.pending, Some(record(8, 1)));
}

#[test]
fn stale_requests_are_dropped() {
    let mut task = StorageTask::new();
    let chapters = StorageCommand::LoadChapters { request_id: 4, book_id: 8, index: 6 };
    assert_eq!(run(&mut task, chapters, 5, &[])[0].action, StorageAction::Finish);
    let steps = run(&mut task, chapters, 4, &[StorageReply::Done, StorageReply::Done]);
    assert_eq!(steps[0].action, StorageAction::LoadActiveEntry { index: 6 });
    assert_eq!(steps[1].action, StorageAction::LoadChapterList { index: 6, around: 3 });
    assert!(matches!(
        events(&steps)[0].event,
        LibraryEvent::Loaded { book_id: 8, position: None, text_replaced: true, .. }
    ));
    let jump = StorageCommand::JumpChapter {
        request_id: 4, book_id: 8, index: 6, chapter: 2, type_settings: SETTINGS, portrait: false,
    };
    assert_eq!(run(&mut task, jump, 5, &[])[0].action, StorageAction::Finish);
    let steps = run(&mut task, jump, 4, &[
        StorageReply::Done,
        StorageReply::Done,
        StorageReply::Done,
        StorageReply::JumpPage(40),
        StorageReply::Built(BookBuildOutcome::Settled),
    ]);
    assert!(matches!(
        events(&steps)[0].event,
        LibraryEvent::Loaded { book_id: 8, position: Some(40), text_replaced: true, .. }
    ));
    let actions: Vec<StorageAction> = steps.iter().map(|step| step.action).collect();
    assert_eq!(actions[..5], [
        StorageAction::LoadActiveEntry { index: 6 },
        StorageAction::SetLayout { type_settings: SETTINGS, portrait: false },
        StorageAction::EnsureTocWindow { index: 6, chapter: 2, portrait: false },
        StorageAction::ReadChapterPage { chapter: 2 },
        StorageAction::Build { index: 6, chapter: 2, page: 40, show_loading: false },
    ]);
    assert_eq!(run(&mut task, open_command(), 9, &[StorageReply::Begun(false)])[1].action,
        StorageAction::Finish);
}

#[test]
fn credentials_are_confirmed_by_reading_them_back() {
    let mut task = StorageTask::new();
    let report = |task: &mut StorageTask, replies: &[StorageReply]| {
        run(task, StorageCommand::StoreWifiCredentials, 0, replies).last().unwrap().action
    };
    assert_eq!(
        report(&mut task, &[StorageReply::Written(false)]),
        StorageAction::ReportCredentials { confirmed: false }
    );
    assert_eq!(
        report(&mut task, &[StorageReply::Written(true), StorageReply::ReadBack(true)]),
        StorageAction::ReportCredentials { confirmed: true }
    );
    let sent = WifiCredentials {
        ssid: vec![b'n'; 32], ssid_len: 3, password: vec![b'p'; 64], password_len: 8,
    };
    let same = WifiCredentials {
        ssid: vec![b'n'; 32], ssid_len: 3, password: vec![b'p'; 64], password_len: 8,
    };
    let other = WifiCredentials {
        ssid: vec![b'n'; 32], ssid_len: 3, password: vec![b'q'; 64], password_len: 8,
    };
    assert_eq!(sent.ssid(), b"nnn");
    assert!(credentials_confirmed(true, &sent, &Some(same)));
    assert!(!credentials_confirmed(true, &sent, &Some(other)));
    assert!(!credentials_confirmed(true, &sent, &None));
    assert!(hint_applies(true, Some(true)));
    assert!(!hint_applies(true, Some(false)));
    assert!(!hint_applies(false, Some(true)));
    assert_eq!(
        run(&mut task, StorageCommand::StoreWifiApHint, 0, &[StorageReply::Done])[0].action,
        StorageAction::WriteHint
    );
    assert_eq!(
        run(&mut task, StorageCommand::ForgetWifiCredentials, 0, &[StorageReply::Done])[0].action,
        StorageAction::ForgetCredentials
    );
    assert_eq!(run(&mut task, StorageCommand::ReceiveUpload, 0, &[])[0].action, StorageAction::Finish);
}

#[test]
fn every_press_gets_one_answer() {
    let mut task = StorageTask::new();
    let clear = |epoch| StorageCommand::ClearBookCache { request_id: 3, index: 1, browse_epoch: epoch };
    let steps = run(&mut task, clear(8), 0, &[StorageReply::Done]);
    assert_eq!(steps[0].action, StorageAction::ClearBuildResume);
    assert_eq!(events(&steps)[0].event, LibraryEvent::CacheCleared { request_id: 3, ok: false });
    let steps = run(&mut task, clear(9), 0, &[
        StorageReply::Done,
        StorageReply::RowBook(true),
        StorageReply::Located(CatalogRow::Found(6)),
        StorageReply::Cleared(true),
    ]);
    assert_eq!(steps[3].action, StorageAction::ClearCache { row: 6 });
    assert_eq!(events(&steps)[0].event, LibraryEvent::CacheCleared { request_id: 3, ok: true });
    for row in [CatalogRow::Rebuild, CatalogRow::Unreadable] {
        let steps = run(&mut task, clear(9), 0, &[
            StorageReply::Done,
            StorageReply::RowBook(true),
            StorageReply::Located(row),
        ]);
        assert_eq!(events(&steps)[0].event, LibraryEvent::CacheCleared { request_id: 3, ok: false });
    }
    let choose = |epoch| StorageCommand::ChooseLibraryRow { request_id: 3, index: 1, browse_epoch: epoch };
    let failed = LibraryEvent::RowFailed { request_id: 3 };
    assert_eq!(events(&run(&mut task, choose(8), 0, &[]))[0].event, failed);
    let choice = |task: &mut StorageTask, choice| {
        events(&run(task, choose(9), 0, &[StorageReply::Chosen(choice)]))[0].event
    };
    assert_eq!(choice(&mut task, RowChoice::Failed), failed);
    assert_eq!(
        choice(&mut task, RowChoice::Book(6)),
        LibraryEvent::RowIsBook { request_id: 3, index: 6, catalog_epoch: 4 }
    );
    task.state_restored = true;
    let steps = run(&mut task, choose(9), 0, &[
        StorageReply::Chosen(RowChoice::Stale),
        StorageReply::Done,
        StorageReply::Listed(None),
        StorageReply::Done,
    ]);
    let answers: Vec<LibraryEvent> = events(&steps).into_iter().map(|e| e.event).collect();
    assert_eq!(
        answers,
        vec![
            LibraryEvent::Scanned { count: 12, catalog_epoch: 4 },
            LibraryEvent::LibraryUnreadable { browse_epoch: 9 },
            failed,
        ]
    );
    let leave = |epoch| StorageCommand::LeaveLibraryFolder { request_id: 3, browse_epoch: epoch };
    assert_eq!(events(&run(&mut task, leave(8), 0, &[]))[0].event, failed);
    assert_eq!(events(&run(&mut task, leave(9), 0, &[StorageReply::Listed(None)]))[0].event, failed);
    let listing = FolderListing { depth: 1, count: 2, books: 1, selection: 0 };
    assert_eq!(
        events(&run(&mut task, leave(9), 0, &[StorageReply::Listed(Some(listing))]))[0].event,
        LibraryEvent::FolderListed {
            request_id: Some(3), browse_epoch: 9, depth: 1, count: 2, books: 1, selection: 0,
        }
    );
}

#[test]
fn an_answer_of_the_wrong_kind_changes_nothing() {
    let mut task = StorageTask::new();
    let step = task.begin(StorageCommand::RefreshCatalog, true, 0, &facts());
    assert_eq!(task.advance(step.stage, StorageReply::Stored(true), &facts()), None);
    assert_eq!(task, StorageTask::new());
}

#[test]
fn the_build_handle_follows_the_outcome() {
    let mut handle = None;
    apply_build_outcome(&mut handle, BookBuildOutcome::Started, 7, 10);
    assert_eq!(handle, Some(BackgroundBuild { book_id: 7, started_ms: 10, attempts: 0 }));
    handle = apply_background_step(handle.unwrap(), BackgroundStep::Retry);
    assert_eq!(handle.unwrap().attempts, 1);
    apply_build_outcome(&mut handle, BookBuildOutcome::Carried, 7, 20);
    assert_eq!(handle, Some(BackgroundBuild { book_id: 7, started_ms: 10, attempts: 0 }));
    apply_build_outcome(&mut handle, BookBuildOutcome::Carried, 8, 20);
    assert_eq!(handle, Some(BackgroundBuild { book_id: 8, started_ms: 20, attempts: 0 }));
    apply_build_outcome(&mut handle, BookBuildOutcome::Settled, 8, 30);
    assert_eq!(handle, None);
    let worn = BackgroundBuild { book_id: 1, started_ms: 0, attempts: 255 };
    assert_eq!(apply_background_step(worn, BackgroundStep::Retry), Some(worn));
    assert_eq!(
        apply_background_step(worn, BackgroundStep::Continued),
        Some(BackgroundBuild { attempts: 0, ..worn })
    );
    for step in [BackgroundStep::Finished, BackgroundStep::Stopped, BackgroundStep::Abandoned] {
        assert_eq!(apply_background_step(worn, step), None);
    }
    assert_eq!(announcement(BackgroundStep::Abandoned), Announcement::Silent);
    assert_eq!(announcement(BackgroundStep::Retry), Announcement::Silent);
    assert_eq!(announcement(BackgroundStep::Stopped), Announcement::AskStopped);
}

#[test]
fn a_slice_goes_to_the_build_first() {
    let facts = BookFacts {
        pages: 40, chapters: 5, current_chapter: 2, chapter_pages: chapter_pages(),
    };
    let step = begin_slice(&None, &None, &facts);
    assert_eq!(step.action, SliceAction::ReadEvidence);
    let mut handle = Some(BackgroundBuild { book_id: 7, started_ms: 0, attempts: 1 });
    let step = begin_slice(&handle, &None, &facts);
    assert_eq!(step.action, SliceAction::BuildStep { reader_page: 0 });
    let grown = BookFacts { pages: 60, ..facts };
    let step = continue_slice(&mut handle, step.stage,
        SliceReply::Stepped(BackgroundStep::Finished), &grown).unwrap();
    assert_eq!(
        step.action,
        SliceAction::AskRunning { finished: true, reader_page: 0, pages_before: 40 }
    );
    assert_eq!(handle, None);
    let step = continue_slice(&mut handle, step.stage, SliceReply::Announce(true), &grown).unwrap();
    assert_eq!(
        step.action,
        SliceAction::Announce(LibraryEvent::Loaded {
            book_id: 7, pages: 60, chapters: 5, current_chapter: 2,
            chapter_pages: chapter_pages(), position: None, text_replaced: true,
        })
    );
    assert_eq!(continue_slice(&mut handle, SliceStage::Over, SliceReply::Done, &grown), None);
}

#[test]
fn the_sleep_frame_prefers_what_the_card_has_not_seen() {
    let (action, stage) = sleep_request_from_saved_state(Some(record(7, 20)));
    assert_eq!(
        action,
        SleepFrameAction::FindByIdentity { source_hash: 0xabcd, source_size: 1234, legacy: false }
    );
    let (_, stage) = continue_sleep_frame(stage, SleepFrameReply::Row(Some(5))).unwrap();
    let (action, stage) = continue_sleep_frame(stage, SleepFrameReply::Done).unwrap();
    assert_eq!(action, SleepFrameAction::LoadChapterTitle { index: 5, chapter: 3 });
    let (_, stage) = continue_sleep_frame(stage, SleepFrameReply::Done).unwrap();
    let (action, _) = continue_sleep_frame(
        stage,
        SleepFrameReply::PageCount { page_count: 90, book_id: 1005, library_count: 12 },
    )
    .unwrap();
    match action {
        SleepFrameAction::Draw(frame) => {
            assert_eq!((frame.book_id, frame.page, frame.page_count), (1005, 20, 90));
            assert_eq!((frame.reading_orientation, frame.library_count), (1, 12));
        }
        other => panic!("{:?}", other),
    }
}

#[test]
fn the_sleep_frame_reads_the_book_s_own_place() {
    let (action, stage) = sleep_request_from_saved_state(None);
    assert_eq!(action, SleepFrameAction::LoadAppState);
    assert_eq!(
        continue_sleep_frame(stage, SleepFrameReply::Record(None)).unwrap(),
        (SleepFrameAction::Blank, SleepFrameStage::Over)
    );
    let (_, stage) = continue_sleep_frame(stage, SleepFrameReply::Record(Some(record(7, 20)))).unwrap();
    assert_eq!(
        continue_sleep_frame(stage, SleepFrameReply::Row(None)).unwrap().0,
        SleepFrameAction::Blank
    );
    let (_, stage) = continue_sleep_frame(stage, SleepFrameReply::Row(Some(5))).unwrap();
    let (action, stage) = continue_sleep_frame(stage, SleepFrameReply::Done).unwrap();
    assert_eq!(action, SleepFrameAction::LoadPlace { index: 5 });
    let place = Some(BookPosition { chapter: 9, page: 0 });
    let (action, _) = continue_sleep_frame(stage, SleepFrameReply::Place(place)).unwrap();
    assert_eq!(action, SleepFrameAction::LoadChapterTitle { index: 5, chapter: 9 });
    assert_eq!(book_position(place, &record(7, 20)), BookPosition { chapter: 9, page: 0 });
    assert_eq!(book_position(None, &record(7, 20)), BookPosition { chapter: 3, page: 20 });
}
