use reader_fw::cache_clear::{CacheClear, CacheHeader, ClaimState, ClearAction, ClearReply};
use reader_fw::catalog::{
    cached_title_label, catalog_holds, check_catalog, choose_library_row, collects, continue_sweep,
    find_in_catalog, find_index_by_identity, locate, open_fault, read_exact_step, record_copy_id, record_location,
    record_offset, stage_identities, sweep_cache_dir, title_offset, walk_shelf, window_take,
    BrowseChoice, CatalogFault, CatalogLayout, CatalogOpen, ClaimantPlace, DirClaimant, EntryFacts,
    FileRead, HeaderFault, LabelSource, OpenFailure, RowIdentity, ShelfWalk, SweepAction, SweepReply, TitleAction,
    TitleReply, TitleUpdate,
};
use reader_fw::catalog_write::{CatalogWriter, WalkSummary, WriteAction, WriteReply};
use reader_fw::evidence::{
    evidence_place, Evidence, EvidencePlace, EvidenceStep, ReadingAction, ReadingReply,
    ReadingStage, SourceEvidenceJob,
};
use reader_fw::listing::{listing_label, write_catalog_listing, ListingRow, ShelfPlacement};
use reader_fw::messages::{AppStateRecord, BookPosition, FolderListing, SourceIdentity};
use reader_fw::place::{
    load_place, place_progression, place_target, place_to_store, resolve_place, toc_window_start,
    track_reading_chapter, Anchor, PlaceFacts, SavedPlace, StoredPlace,
};
use reader_fw::position::{
    BookRow, PlaceWrite, PositionSave, PositionWrite, SaveAction, SaveReply, SaveStage,
};
use reader_fw::recovery::Shelf;
use reader_fw::storage::{CatalogRow, PlaceTarget, RowChoice};
use reader_fw::walk::{fold_walk_entry, WalkPass, WALK_FINGERPRINT_SEED};

const LAYOUT: CatalogLayout = CatalogLayout { header_bytes: 16, record_bytes: 200, title_offset: 40 };

fn id(hash: u32) -> SourceIdentity {
    SourceIdentity { hash, size: 100 }
}

#[test]
fn records_lie_one_after_another() {
    assert_eq!(record_offset(&LAYOUT, 0), 16);
    assert_eq!(record_offset(&LAYOUT, 3), 616);
    assert_eq!(title_offset(&LAYOUT, 3), 656);
    assert_eq!(window_take(0, 10, 4), 4);
    assert_eq!(window_take(8, 10, 4), 2);
    assert_eq!(window_take(10, 10, 4), 0);
}

#[test]
fn a_catalog_is_exactly_as_long_as_its_count() {
    let good = CatalogOpen { open: None, read: None, header: Ok(3), file_len: 616 };
    assert_eq!(check_catalog(&good, &LAYOUT), Ok(3));
    assert_eq!(
        check_catalog(&CatalogOpen { file_len: 617, ..good }, &LAYOUT),
        Err(CatalogFault::Invalid)
    );
    assert_eq!(
        check_catalog(&CatalogOpen { header: Err(HeaderFault::Stale), ..good }, &LAYOUT),
        Err(CatalogFault::Stale)
    );
    assert_eq!(
        check_catalog(&CatalogOpen { header: Err(HeaderFault::Invalid), ..good }, &LAYOUT),
        Err(CatalogFault::Invalid)
    );
    assert_eq!(
        check_catalog(&CatalogOpen { read: Some(CatalogFault::Device), ..good }, &LAYOUT),
        Err(CatalogFault::Device)
    );
    assert_eq!(
        check_catalog(&CatalogOpen { open: Some(OpenFailure::NotFound), ..good }, &LAYOUT),
        Err(CatalogFault::Missing)
    );
    assert_eq!(open_fault(OpenFailure::Other), CatalogFault::Device);
    assert_eq!(read_exact_step(10, FileRead::Read(4)), Ok(6));
    assert_eq!(read_exact_step(10, FileRead::Read(0)), Err(CatalogFault::Invalid));
    assert_eq!(read_exact_step(10, FileRead::Refused), Err(CatalogFault::Device));
}

#[test]
fn faults_have_their_tokens() {
    let tokens: Vec<&str> = [
        CatalogFault::Missing,
        CatalogFault::Stale,
        CatalogFault::Invalid,
        CatalogFault::Device,
        CatalogFault::Reclaimed,
        CatalogFault::Unreconciled,
    ]
    .into_iter()
    .map(|fault| fault.bench_result())
    .collect();
    assert_eq!(tokens, vec!["miss", "stale", "invalid", "error", "reclaimed", "unreconciled"]);
}

#[test]
fn a_book_is_found_only_when_it_is_the_only_one() {
    let rows = vec![id(1), id(2), id(3), id(2)];
    assert_eq!(find_in_catalog(&rows, id(3)), Some(2));
    assert_eq!(find_in_catalog(&rows, id(2)), None);
    assert_eq!(find_in_catalog(&rows, id(9)), None);
    let none = SourceIdentity { hash: 0, size: 0 };
    assert_eq!(find_in_catalog(&vec![none], none), None);
}

#[test]
fn a_saved_identity_is_read_by_its_own_rule() {
    let row = |current, legacy| RowIdentity { current: id(current), legacy: id(legacy) };
    let rows = Some(vec![row(1, 5), row(5, 2), row(3, 7)]);
    assert_eq!(find_index_by_identity(&rows, id(5), false), Some(1));
    assert_eq!(find_index_by_identity(&rows, id(5), true), Some(0));
    assert_eq!(find_index_by_identity(&rows, id(3), true), None);
    assert_eq!(find_index_by_identity(&None, id(5), true), None);
}

#[test]
fn a_walk_collects_books_it_can_name() {
    let book = EntryFacts {
        is_directory: false, is_volume: false, alias_is_whole: true, is_book: true,
        has_locator: true,
    };
    assert!(collects(&book));
    for other in [
        EntryFacts { is_directory: true, ..book },
        EntryFacts { is_volume: true, ..book },
        EntryFacts { alias_is_whole: false, ..book },
        EntryFacts { is_book: false, ..book },
        EntryFacts { has_locator: false, ..book },
    ] {
        assert!(!collects(&other));
    }
}

#[test]
fn a_refused_read_rebuilds_nothing() {
    assert_eq!(locate(Ok(Some(4))), CatalogRow::Found(4));
    assert_eq!(locate(Ok(None)), CatalogRow::Rebuild);
    assert_eq!(locate(Err(CatalogFault::Device)), CatalogRow::Unreadable);
    assert_eq!(locate(Err(CatalogFault::Stale)), CatalogRow::Rebuild);
    let listing = FolderListing { depth: 1, count: 2, books: 1, selection: 0 };
    assert_eq!(
        choose_library_row(Some(BrowseChoice::Entered(listing)), CatalogRow::Rebuild),
        RowChoice::Entered(listing)
    );
    assert_eq!(
        choose_library_row(Some(BrowseChoice::Book), CatalogRow::Found(4)),
        RowChoice::Book(4)
    );
    assert_eq!(choose_library_row(Some(BrowseChoice::Book), CatalogRow::Rebuild), RowChoice::Stale);
    assert_eq!(
        choose_library_row(Some(BrowseChoice::Book), CatalogRow::Unreadable),
        RowChoice::Failed
    );
    assert_eq!(choose_library_row(None, CatalogRow::Found(4)), RowChoice::Failed);
    assert_eq!(walk_shelf(Shelf::Found), ShelfWalk::Descend);
    assert_eq!(walk_shelf(Shelf::Absent), ShelfWalk::Done);
    assert_eq!(walk_shelf(Shelf::Unreadable), ShelfWalk::Fail);
}

#[test]
fn a_title_goes_into_its_own_row_only() {
    let (update, first) = TitleUpdate::update_catalog_title(4, id(7), false);
    assert_eq!(first, TitleAction::Open);
    let next = update.advance(first, TitleReply::Count(Some(9))).unwrap();
    assert_eq!(next, TitleAction::ReadIdentity { index: 4 });
    assert_eq!(
        update.advance(next, TitleReply::Identity(Some(id(7)))),
        Some(TitleAction::ReadTitle { index: 4 })
    );
    assert_eq!(update.advance(next, TitleReply::Identity(Some(id(8)))), Some(TitleAction::Search));
    assert_eq!(update.advance(first, TitleReply::Count(Some(4))), Some(TitleAction::Search));
    assert_eq!(
        update.advance(TitleAction::Search, TitleReply::Found(Some(2))),
        Some(TitleAction::ReadTitle { index: 2 })
    );
    assert_eq!(
        update.advance(TitleAction::Search, TitleReply::Found(None)),
        Some(TitleAction::Finish(false))
    );
    let read = TitleAction::ReadTitle { index: 2 };
    assert_eq!(update.advance(read, TitleReply::Stored(Some(true))), Some(TitleAction::Finish(true)));
    assert_eq!(
        update.advance(read, TitleReply::Stored(Some(false))),
        Some(TitleAction::WriteTitle { index: 2 })
    );
    assert_eq!(update.advance(read, TitleReply::Written(true)), None);
    assert_eq!(
        TitleUpdate::update_catalog_title(4, id(7), true).1,
        TitleAction::Finish(false)
    );
}

#[test]
fn a_cache_is_swept_on_evidence_only() {
    let held = DirClaimant::Claimed { released: false };
    let released = DirClaimant::Claimed { released: true };
    assert_eq!(sweep_cache_dir(DirClaimant::Fault), SweepAction::Keep);
    assert_eq!(sweep_cache_dir(held), SweepAction::ReadPlace);
    let place = |claimant, place| {
        continue_sweep(claimant, SweepAction::ReadPlace, SweepReply::Place(place)).unwrap()
    };
    assert_eq!(place(held, ClaimantPlace::Live), SweepAction::Keep);
    assert_eq!(place(released, ClaimantPlace::Unreadable), SweepAction::Keep);
    assert_eq!(place(released, ClaimantPlace::Gone), SweepAction::Empty);
    assert_eq!(place(held, ClaimantPlace::Gone), SweepAction::Release);
    assert_eq!(
        continue_sweep(held, SweepAction::Release, SweepReply::Went(false)),
        Some(SweepAction::Keep)
    );
    let free = DirClaimant::Unclaimed;
    let header = |header| {
        continue_sweep(free, sweep_cache_dir(free), SweepReply::Header(header)).unwrap()
    };
    assert_eq!(header(CacheHeader::Absent), SweepAction::Empty);
    assert_eq!(header(CacheHeader::Unreadable), SweepAction::Empty);
    let ask = header(CacheHeader::Present(id(3)));
    assert_eq!(ask, SweepAction::AskCatalog(id(3)));
    assert_eq!(continue_sweep(free, ask, SweepReply::Went(true)), Some(SweepAction::Keep));
    assert_eq!(continue_sweep(free, ask, SweepReply::Went(false)), Some(SweepAction::Empty));
    assert_eq!(stage_identities(Some(5), 8), (5, false));
    assert_eq!(stage_identities(Some(9), 8), (8, true));
    assert_eq!(stage_identities(None, 8), (0, true));
    let rows = Some(vec![id(1), id(2), id(2)]);
    assert!(catalog_holds(true, false, &None, id(9)));
    // A catalog that would not be read rules nothing out.
    assert!(catalog_holds(false, true, &None, id(9)));
    assert!(catalog_holds(false, true, &rows, id(1)));
    // Two books with one identity are no reason to sweep either's cache.
    assert!(catalog_holds(false, true, &rows, id(2)));
    assert!(!catalog_holds(false, false, &rows, id(1)));
    assert!(!catalog_holds(false, true, &rows, id(9)));
}

#[test]
fn rows_have_labels_places_and_ids() {
    assert_eq!(cached_title_label(true, true, true), LabelSource::CachedTitle);
    assert_eq!(cached_title_label(true, false, true), LabelSource::UploadLabel);
    assert_eq!(cached_title_label(true, false, false), LabelSource::FileStem);
    assert_eq!(cached_title_label(false, true, true), LabelSource::FileStem);
    assert!(record_location(Some(id(3)), id(3), true));
    assert!(!record_location(Some(id(3)), id(4), true));
    assert!(!record_location(Some(id(3)), id(3), false));
    assert!(!record_location(None, id(3), true));
    assert_eq!(record_copy_id(true, Some(9), Some(8)), Some(9));
    assert_eq!(record_copy_id(true, None, Some(8)), Some(8));
    assert_eq!(record_copy_id(false, Some(9), None), None);
}

fn clear(entry: Option<SourceIdentity>, replies: &[ClearReply]) -> ClearAction {
    let (mut clear, (mut action, mut stage)) =
        CacheClear::clear_book_cache(4, entry, Some(4), Some(5));
    for reply in replies {
        match clear.advance(stage, *reply) {
            Some((next, at)) => {
                action = next;
                stage = at;
            }
            None => panic!("{:?} does not take {:?}", stage, reply),
        }
    }
    action
}

#[test]
fn only_its_own_cache_is_cleared() {
    let refused = ClearAction::Finish { cleared: false, drop_loaded: false, drop_cover: false };
    assert_eq!(clear(None, &[]), ClearAction::ReadRow);
    assert_eq!(clear(None, &[ClearReply::Identity(None)]), refused);
    assert_eq!(clear(Some(id(3)), &[ClearReply::Claim(None)]), refused);
    for state in [ClaimState::OtherActive, ClaimState::OtherReleased, ClaimState::Fault] {
        assert_eq!(clear(Some(id(3)), &[ClearReply::Claim(Some(Some(state)))]), refused);
    }
    for claim in [
        None, Some(ClaimState::MineActive), Some(ClaimState::MineReleased),
        Some(ClaimState::Unclaimed),
    ] {
        assert_eq!(clear(Some(id(3)), &[ClearReply::Claim(Some(claim))]), ClearAction::ReadHeader);
    }
    let claimed = ClearReply::Claim(Some(None));
    let header = |header| clear(Some(id(3)), &[claimed, ClearReply::Header(header)]);
    assert_eq!(header(CacheHeader::Present(id(4))), refused);
    assert_eq!(header(CacheHeader::Unreadable), refused);
    assert_eq!(header(CacheHeader::Absent), ClearAction::Empty);
    assert_eq!(header(CacheHeader::Present(id(3))), ClearAction::Empty);
    let end = |replies: &[ClearReply]| {
        let mut all = vec![claimed, ClearReply::Header(CacheHeader::Present(id(3)))];
        all.extend_from_slice(replies);
        clear(Some(id(3)), &all)
    };
    let over = |cleared| ClearAction::Finish { cleared, drop_loaded: true, drop_cover: false };
    assert_eq!(end(&[ClearReply::Emptied(false)]), over(false));
    assert_eq!(
        end(&[ClearReply::Emptied(true), ClearReply::Header(CacheHeader::Absent)]),
        over(true)
    );
    assert_eq!(
        end(&[ClearReply::Emptied(true), ClearReply::Header(CacheHeader::Present(id(3)))]),
        over(false)
    );
}

fn fold(entries: &[(&str, u8, &str, &str, u32)]) -> u32 {
    let mut hash = WALK_FINGERPRINT_SEED;
    for (path, root, locator, alias, size) in entries {
        fold_walk_entry(&mut hash, path, *root, locator, alias, *size);
    }
    hash
}

#[test]
fn a_walk_is_told_apart_by_every_field() {
    let book = ("BOOKS/A.EPU", 1u8, "A.EPU", "A", 1000u32);
    // The bytes of the book, folded by hand.
    let mut bytes = b"BOOKS/A.EPU\0\x01A.EPU\0A\0".to_vec();
    bytes.extend_from_slice(&1000u32.to_le_bytes());
    let mut expected = 0x811c_9dc5u32;
    for byte in bytes {
        expected = (expected ^ byte as u32).wrapping_mul(0x0100_0193);
    }
    assert_eq!(fold(&[book]), expected);
    for other in [
        ("BOOKS/B.EPU", 1, "A.EPU", "A", 1000),
        ("BOOKS/A.EPU", 0, "A.EPU", "A", 1000),
        ("BOOKS/A.EPU", 1, "B.EPU", "A", 1000),
        ("BOOKS/A.EPU", 1, "A.EPU", "B", 1000),
        ("BOOKS/A.EPU", 1, "A.EPU", "A", 1001),
        ("BOOKS/A.EPU", 1, "A.EP", "UA", 1000),
    ] {
        assert_ne!(fold(&[book]), fold(&[other]));
    }
    let second = ("BOOKS/B.EPU", 1, "B.EPU", "B", 5);
    assert_ne!(fold(&[book, second]), fold(&[second, book]));
}

#[test]
fn a_pass_stages_from_its_cursor_on() {
    let mut pass = WalkPass::new();
    let slots: Vec<Option<usize>> =
        (0..5).map(|_| pass.visit(1, 2, "P", 0, "L", "A", 3)).collect();
    assert_eq!(slots, vec![None, Some(0), Some(1), None, None]);
    assert_eq!((pass.seen, pass.batch_len), (5, 2));
    assert_eq!(pass.fingerprint, fold(&[("P", 0, "L", "A", 3); 5]));
}

fn write(replies: &[WriteReply]) -> Vec<WriteAction> {
    let (mut writer, mut step) = CatalogWriter::write_catalog_streaming(450, 200, 3);
    let mut actions = vec![step.action];
    for reply in replies {
        step = match writer.advance(step.stage, *reply) {
            Some(step) => step,
            None => panic!("{:?} does not take {:?}", step.stage, reply),
        };
        actions.push(step.action);
    }
    actions
}

fn walked(seen: usize, batch_len: usize, fingerprint: u32) -> WriteReply {
    WriteReply::Walked(Some(WalkSummary { seen, batch_len, fingerprint }))
}

#[test]
fn the_header_is_committed_last() {
    let went = WriteReply::Went(true);
    assert_eq!(
        write(&[
            went, walked(3, 0, 77), went,
            walked(3, 2, 77), went, went,
            walked(3, 1, 77), WriteReply::Went(false), went,
            went, went,
        ]),
        vec![
            WriteAction::OpenFile,
            WriteAction::CountBooks,
            WriteAction::WritePlaceholder,
            WriteAction::StageBatch { cursor: 0, capacity: 2 },
            WriteAction::ResolveTitles { records: 2 },
            WriteAction::AppendBatch { records: 2 },
            WriteAction::StageBatch { cursor: 2, capacity: 2 },
            WriteAction::ResolveTitles { records: 1 },
            WriteAction::AppendBatch { records: 1 },
            WriteAction::AssignIds { count: 3 },
            WriteAction::CommitHeader { count: 3 },
            WriteAction::Finish(Some(3)),
        ]
    );
    assert_eq!(
        CatalogWriter::write_catalog_streaming(199, 200, 3).1.action,
        WriteAction::Finish(None)
    );
}

#[test]
fn a_changed_card_is_never_committed() {
    let went = WriteReply::Went(true);
    let counted = [went, walked(3, 0, 77), went];
    for walk in [
        walked(4, 2, 77), walked(3, 2, 78), walked(3, 1, 77), WriteReply::Walked(None),
    ] {
        let mut replies = counted.to_vec();
        replies.push(walk);
        assert_eq!(*write(&replies).last().unwrap(), WriteAction::Finish(None));
    }
    let mut replies = counted.to_vec();
    replies.extend([walked(3, 2, 77), went, WriteReply::Went(false)]);
    assert_eq!(*write(&replies).last().unwrap(), WriteAction::Finish(None));
    assert_eq!(*write(&[WriteReply::Went(false)]).last().unwrap(), WriteAction::Finish(None));
    assert_eq!(
        *write(&[went, walked(4, 0, 1)]).last().unwrap(),
        WriteAction::Finish(None)
    );
}

#[test]
fn a_listing_is_made_of_whole_lines() {
    let row = |placement, name: &str, label: &str| ListingRow {
        placement,
        open_name: name.as_bytes().to_vec(),
        label: label.as_bytes().to_vec(),
    };
    let rows = vec![
        row(Some(ShelfPlacement::Shelf), "A.EPU", "Alpha"),
        row(None, "X.EPU", "Hidden"),
        row(Some(ShelfPlacement::Root), "B.EPU", "Beta"),
    ];
    let text = |budget| String::from_utf8(write_catalog_listing(&rows, budget)).unwrap();
    assert_eq!(text(100), "B|A.EPU|Alpha\nR|B.EPU|Beta\n");
    assert_eq!(text(27), "B|A.EPU|Alpha\nR|B.EPU|Beta\n");
    assert_eq!(text(26), "B|A.EPU|Alpha\n");
    assert_eq!(text(3), "");
    let label = |title: &str, stem: &str| listing_label(title, stem).chars().into_iter().collect::<String>();
    assert_eq!(label("Title", "stem"), "Title");
    assert_eq!(label("", "stem"), "stem");
    assert_eq!(label(&"x".repeat(65), "stem"), "");
    assert_eq!(label(&"x".repeat(64), "stem").len(), 64);
}

#[test]
fn a_place_lands_near_when_its_bytes_changed() {
    let place = |exact| SavedPlace::Place { spine: 3, offset: 900, exact, progression: 32_768 };
    assert_eq!(place(true).provisional(), BookPosition { chapter: 3, page: 0 });
    let page = SavedPlace::Page { chapter: 2, page: 9 };
    assert_eq!(page.provisional(), BookPosition { chapter: 2, page: 9 });
    assert_eq!(resolve_place(page, 100, Some((10, 2))), None);
    assert_eq!(resolve_place(place(true), 100, Some((10, 2))), Some(12));
    assert_eq!(resolve_place(place(true), 100, None), None);
    assert_eq!(resolve_place(place(false), 100, None), Some(50));
    let end = SavedPlace::Place { spine: 3, offset: 0, exact: false, progression: 65_535 };
    assert_eq!(resolve_place(end, 100, None), Some(99));
    assert_eq!(resolve_place(end, 0, None), Some(0));
    assert_eq!(place_target(Some(12)), PlaceTarget::Page(12));
    assert_eq!(place_target(None), PlaceTarget::Keep);
    assert_eq!(place_progression(false, None, 50, 100), Some(32_767));
    assert_eq!(place_progression(false, None, 0, 0), Some(0));
    assert_eq!(place_progression(true, Some(7), 50, 100), Some(7));
    let stored = StoredPlace {
        copy_id: 9, anchor: Anchor { spine: 3, offset: 900 }, source: id(7), progression: 32_768,
    };
    let position = Some(BookPosition { chapter: 2, page: 9 });
    assert_eq!(load_place(true, None, position, id(7)), Some(page));
    assert_eq!(load_place(true, Some(stored), position, id(7)), Some(place(true)));
    assert_eq!(load_place(true, Some(stored), position, id(8)), Some(place(false)));
    assert_eq!(load_place(true, None, None, id(7)), None);
    assert_eq!(load_place(false, Some(stored), position, id(7)), None);
    assert_eq!(toc_window_start(3, 10), 0);
    assert_eq!(toc_window_start(12, 10), 7);
    assert_eq!(track_reading_chapter(true, 4, 3, true), Some(4));
    assert_eq!(track_reading_chapter(true, 3, 3, true), None);
    assert_eq!(track_reading_chapter(false, 4, 3, true), None);
    assert_eq!(track_reading_chapter(true, 4, 3, false), None);
}

const FACTS: PlaceFacts = PlaceFacts {
    copy_id: Some(9),
    anchor: Some(Anchor { spine: 3, offset: 900 }),
    source: Some(SourceIdentity { hash: 7, size: 100 }),
    index_is_partial: false,
    stored_progression: None,
    total_pages: 100,
};

#[test]
fn a_place_is_stored_when_all_of_it_is_known() {
    let stored = place_to_store(&FACTS, 50).unwrap();
    assert_eq!((stored.copy_id, stored.progression), (9, 32_767));
    assert_eq!(
        load_place(true, Some(stored), None, id(7)),
        Some(SavedPlace::Place { spine: 3, offset: 900, exact: true, progression: 32_767 })
    );
    for facts in [
        PlaceFacts { copy_id: None, ..FACTS },
        PlaceFacts { anchor: None, ..FACTS },
        PlaceFacts { source: None, ..FACTS },
        PlaceFacts { index_is_partial: true, ..FACTS },
    ] {
        assert_eq!(place_to_store(&facts, 50), None);
    }
    let partial = PlaceFacts { index_is_partial: true, stored_progression: Some(11), ..FACTS };
    assert_eq!(place_to_store(&partial, 50).unwrap().progression, 11);
}

const RECORD: AppStateRecord = AppStateRecord {
    book_id: 1004,
    chapter: 3,
    screen: 50,
    shell_orientation: 0,
    reading_orientation: 1,
    refresh_policy: 2,
    font_size: 2,
    line_spacing: 1,
    font_weight: 0,
    font_family: 0,
    front_buttons: 1,
    source_hash: 7,
    source_size: 100,
    legacy_source_identity: false,
};

fn save(
    begun: (PositionSave, (SaveAction, SaveStage)),
    replies: &[SaveReply],
) -> Vec<SaveAction> {
    let (mut save, (action, mut stage)) = begun;
    let mut actions = vec![action];
    for reply in replies {
        match save.advance(stage, *reply) {
            Some((action, next)) => {
                actions.push(action);
                stage = next;
            }
            None => panic!("{:?} does not take {:?}", stage, reply),
        }
    }
    actions
}

#[test]
fn a_position_counts_as_saved_unless_the_card_failed() {
    let row = BookRow { index: 4, identity: id(7) };
    let yes = SaveReply::Went(true);
    let no = SaveReply::Went(false);
    let whole = |state, place, position| {
        save(PositionSave::store_app_state(RECORD, Some(row)), &[
            yes, SaveReply::Went(state), yes, SaveReply::Facts(FACTS), SaveReply::Place(place),
            SaveReply::Position(position),
        ])
    };
    let stored = place_to_store(&FACTS, 50).unwrap();
    assert_eq!(
        whole(true, PlaceWrite::Stored, PositionWrite::Stored),
        vec![
            SaveAction::OpenSession,
            SaveAction::WriteState(RECORD),
            SaveAction::Locate(row),
            SaveAction::ReadFacts { index: 4, page: 50 },
            SaveAction::WritePlace(stored),
            SaveAction::WritePosition { index: 4, chapter: 3, page: 50 },
            SaveAction::Finish(true),
        ]
    );
    let ok = |actions: Vec<SaveAction>| *actions.last().unwrap() == SaveAction::Finish(true);
    assert!(ok(whole(true, PlaceWrite::Taken, PositionWrite::Foreign)));
    assert!(!ok(whole(false, PlaceWrite::Stored, PositionWrite::Stored)));
    assert!(!ok(whole(true, PlaceWrite::Fault, PositionWrite::Stored)));
    assert!(!ok(whole(true, PlaceWrite::Stored, PositionWrite::Fault)));
    let unknown = SaveReply::Facts(PlaceFacts { copy_id: None, ..FACTS });
    let book = || PositionSave::store_book_position(RECORD, true, Some(row));
    assert_eq!(
        save(book(), &[yes, yes, unknown])[3],
        SaveAction::WritePosition { index: 4, chapter: 3, page: 50 }
    );
    assert!(!ok(save(book(), &[no])));
    assert!(!ok(save(book(), &[yes, no])));
    assert!(ok(save(PositionSave::store_book_position(RECORD, false, None), &[])));
    assert!(!ok(save(PositionSave::store_book_position(RECORD, true, None), &[])));
    assert!(ok(save(PositionSave::store_global_state(RECORD), &[yes, yes])));
    assert!(!ok(save(PositionSave::store_global_state(RECORD), &[yes, no])));
}

fn copy_at(locator: &str, len: u32) -> EvidencePlace {
    EvidencePlace { root: 1, locator: locator.as_bytes().to_vec(), len }
}

/// Runs a slice over a card that gives `len` bytes and then nothing.
fn slice(job: &mut SourceEvidenceJob, recorded: bool, file_len: u32, gives: u32) -> (EvidenceStep, u32) {
    let mut step = job.continue_source_evidence(true);
    let mut digested = 0;
    loop {
        let reply = match step.action {
            ReadingAction::Finish(ended) => return (ended, digested),
            ReadingAction::OpenSession | ReadingAction::Record => ReadingReply::Went(true),
            ReadingAction::AskRecorded => ReadingReply::Went(recorded),
            ReadingAction::OpenCopy { offset } => {
                assert_eq!(offset, job.offset);
                ReadingReply::Opened(Some(file_len))
            }
            ReadingAction::Read { want } => {
                let count = want.min(gives - digested);
                digested += count;
                ReadingReply::Read(Some(count))
            }
        };
        step = job.advance(step.stage, reply).unwrap();
    }
}

#[test]
fn a_stream_is_recorded_only_when_it_was_read_whole() {
    let job = |offset| SourceEvidenceJob { place: copy_at("A.EPU", 200_000), offset };
    let mut whole = job(0);
    assert_eq!(slice(&mut whole, false, 200_000, 400_000), (EvidenceStep::Continued, 196_608));
    assert_eq!(whole.offset, 196_608);
    assert_eq!(slice(&mut whole, false, 200_000, 400_000), (EvidenceStep::Finished, 3_392));
    assert_eq!(slice(&mut job(0), true, 200_000, 0), (EvidenceStep::Finished, 0));
    assert_eq!(slice(&mut job(0), false, 200_001, 9), (EvidenceStep::Abandoned, 0));
    assert_eq!(slice(&mut job(0), false, 200_000, 0), (EvidenceStep::Abandoned, 0));
    assert_eq!(slice(&mut job(0), false, 200_000, 600), (EvidenceStep::Continued, 600));
    let mut refused = job(0);
    assert_eq!(
        refused.continue_source_evidence(false).action,
        ReadingAction::Finish(EvidenceStep::Abandoned)
    );
    let reading = ReadingStage::Reading { taken: 512, want: 512 };
    assert_eq!(
        refused.advance(reading, ReadingReply::Read(None)).unwrap().action,
        ReadingAction::Finish(EvidenceStep::Abandoned)
    );
    assert_eq!(refused.offset, 0);
    assert!(refused.advance(reading, ReadingReply::Read(Some(513))).is_none());
    assert_eq!(
        refused.advance(ReadingStage::Recording, ReadingReply::Went(false)).unwrap().action,
        ReadingAction::Finish(EvidenceStep::Abandoned)
    );
}

#[test]
fn a_settled_copy_is_left_alone() {
    let mut evidence = Evidence::new();
    let open = Some(copy_at("A.EPU", 100));
    assert!(evidence.unsettled(&open));
    assert!(!evidence.unsettled(&None));
    evidence.begin_turn(&open);
    assert_eq!(evidence.pending.as_ref().unwrap().offset, 0);
    assert_eq!(
        slice(evidence.pending.as_mut().unwrap(), false, 100, 40),
        (EvidenceStep::Continued, 40)
    );
    evidence.end_turn(EvidenceStep::Continued);
    evidence.begin_turn(&open);
    assert_eq!(evidence.pending.as_ref().unwrap().offset, 40);
    // A reader who moved on takes the reading with them, half read.
    evidence.begin_turn(&Some(copy_at("B.EPU", 100)));
    assert_eq!(evidence.pending.as_ref().unwrap().offset, 0);
    evidence.end_turn(EvidenceStep::Finished);
    assert!(evidence.pending.is_none());
    assert!(!evidence.unsettled(&Some(copy_at("B.EPU", 100))));
    assert!(evidence.unsettled(&Some(copy_at("B.EPU", 101))));
    evidence.begin_turn(&Some(copy_at("B.EPU", 100)));
    assert!(evidence.pending.is_none());
    evidence.begin_turn(&open);
    evidence.begin_turn(&None);
    assert!(evidence.pending.is_none());
    let at = Some((1, b"A.EPU".to_vec()));
    assert!(evidence_place(true, Some(100), at.clone()).unwrap().same_as(&copy_at("A.EPU", 100)));
    assert!(evidence_place(false, Some(100), at.clone()).is_none());
    assert!(evidence_place(true, Some(0), at.clone()).is_none());
    assert!(evidence_place(true, None, at).is_none());
    assert!(evidence_place(true, Some(100), None).is_none());
}
