use reader_fw::cache_error::SdSessionError;
use reader_fw::recovery::{
    continue_load, continue_recovery, continue_scan, judge_snapshot, load_catalog_cache,
    load_result, reconcile_interrupted_uploads, scan_books, scan_ok, status_after_load,
    status_after_scan, InstallRecovery, IntentRead, LibraryScanStatus, LoadAction, LoadReply,
    Reconciled, RecoveryAction, RecoveryReply, ReplaceRead, ReplaceRecovery, ScanAction, ScanReply,
    Shelf,
};
use reader_fw::catalog::CatalogFault;
use reader_fw::read_budget::{ReadBudget, ReadNext, ReadTry};
use reader_fw::session::{
    bump, forget_card_warmth, get_timestamp, remember_card_type, remembered_card_type, snapshot,
    CardType, SdSession, SessionAction, SessionReply, WARM_CARD_NONE,
};
use reader_fw::spi::{pace_iterations, BusStep, PieceStep, PieceTurn, SdSpiDevice, SpiChunk};
use reader_fw::upload::{
    finish_upload_session, journal_is_clear, ChunkInput, Handover, SessionInput, UploadAction,
    UploadReply, UploadRequest, UploadSession, UploadSessionExit,
};

fn session(warm_code: u8, replies: &[SessionReply]) -> (SdSession, Vec<SessionAction>) {
    let (mut session, mut step) = SdSession::with_root(warm_code);
    let mut actions = vec![step.action];
    for reply in replies {
        step = match session.advance(step.stage, *reply) {
            Some(step) => step,
            None => panic!("{:?} does not take {:?}", step.stage, reply),
        };
        actions.push(step.action);
    }
    (session, actions)
}

#[test]
fn a_remembered_card_is_found_again() {
    for (card, code) in [(CardType::SD1, 1u8), (CardType::SD2, 2), (CardType::SdhcSdxc, 3)] {
        let mut held = WARM_CARD_NONE;
        remember_card_type(&mut held, card);
        assert_eq!(held, code);
        assert_eq!(remembered_card_type(held), Some(card));
        forget_card_warmth(&mut held);
        assert_eq!(remembered_card_type(held), None);
    }
    assert_eq!(remembered_card_type(9), None);
}

#[test]
fn a_cold_session_remembers_the_card() {
    let (end, actions) = session(WARM_CARD_NONE, &[
        SessionReply::Probed { ok: true, card: Some(CardType::SD2) },
        SessionReply::Went(true),
        SessionReply::Went(true),
        SessionReply::Went(false),
        SessionReply::Went(true),
    ]);
    assert_eq!(
        actions,
        vec![
            SessionAction::ProbeCard,
            SessionAction::OpenVolume,
            SessionAction::OpenRoot,
            SessionAction::RunCallback,
            SessionAction::CloseVolume,
            SessionAction::Finish(None),
        ]
    );
    assert_eq!(end.warm_code, 2);
}

#[test]
fn a_wrong_guess_about_a_warm_card_is_made_good() {
    let (end, actions) = session(3, &[
        SessionReply::Went(true),
        SessionReply::Went(false),
        SessionReply::Probed { ok: false, card: None },
    ]);
    assert_eq!(
        actions,
        vec![
            SessionAction::AssumeCard(CardType::SdhcSdxc),
            SessionAction::OpenVolume,
            SessionAction::ProbeCard,
            SessionAction::Finish(Some(SdSessionError::CardInit)),
        ]
    );
    assert_eq!(end.warm_code, WARM_CARD_NONE);
}

#[test]
fn sessions_that_fail_say_where() {
    let probed = SessionReply::Probed { ok: true, card: None };
    let (_, actions) = session(0, &[probed, SessionReply::Went(false)]);
    assert_eq!(actions[2], SessionAction::Finish(Some(SdSessionError::Volume)));
    let (_, actions) = session(0, &[
        probed, SessionReply::Went(true), SessionReply::Went(false), SessionReply::Went(true),
    ]);
    assert_eq!(actions[3], SessionAction::CloseVolume);
    assert_eq!(actions[4], SessionAction::Finish(Some(SdSessionError::Root)));
}

#[test]
fn counters_survive_a_wrap() {
    let start = snapshot(u32::MAX - 1, 10, 0, 7);
    let mut calls = start.read_calls;
    bump(&mut calls, 5);
    assert_eq!(calls, 3);
    let counted = snapshot(calls, 18, 0, 7).since(start);
    assert_eq!(counted, snapshot(5, 8, 0, 0));
}

#[test]
fn transfers_are_cut_into_blocks() {
    let device = SdSpiDevice;
    let chunk = |offset, len, sends, receives| SpiChunk { offset, len, sends, receives };
    assert_eq!(device.read_with_sd_clocks(0), vec![]);
    assert_eq!(
        device.read_with_sd_clocks(1100),
        vec![
            chunk(0, 512, false, true),
            chunk(512, 512, false, true),
            chunk(1024, 76, false, true),
        ]
    );
    assert_eq!(device.write_chunked(512), vec![chunk(0, 512, true, false)]);
    assert_eq!(device.transfer_in_place_chunked(3), vec![chunk(0, 3, true, true)]);
    assert_eq!(
        device.transfer_chunked(600, 20),
        vec![chunk(0, 20, true, true), chunk(20, 512, false, true), chunk(532, 68, false, true)]
    );
    assert_eq!(
        device.transfer_chunked(2, 5),
        vec![chunk(0, 2, true, true), chunk(2, 3, true, false)]
    );
}

#[test]
fn the_bus_carries_what_is_written_and_fills_what_is_read() {
    let device = SdSpiDevice;
    let write: Vec<u8> = (0..700u32).map(|i| i as u8).collect();
    let mut wire = Vec::new();
    for chunk in device.write_chunked(write.len()) {
        wire.extend(chunk.outgoing(&write));
    }
    assert_eq!(wire, write);
    // The bus answers every byte with its complement.
    let mut read = vec![0u8; 1000];
    let mut wire = Vec::new();
    for chunk in device.transfer_chunked(read.len(), write.len()) {
        let out = chunk.outgoing(&write);
        let came: Vec<u8> = out.iter().map(|byte| !byte).collect();
        chunk.incoming(&came, &mut read);
        wire.extend(out);
    }
    let idle = vec![0xffu8; 300];
    assert_eq!(wire, [write.clone(), idle].concat());
    let expected: Vec<u8> =
        write.iter().map(|byte| !byte).chain(core::iter::repeat(0).take(300)).collect();
    assert_eq!(read, expected);
    let mut kept = vec![7u8; 4];
    for chunk in device.write_chunked(4) {
        chunk.incoming(&[1, 2, 3, 4], &mut kept);
    }
    assert_eq!(kept, vec![7u8; 4]);
}

#[test]
fn an_operation_stops_at_the_piece_that_fails() {
    let run = |len: usize, failing: Option<usize>| {
        let mut read = vec![7u8; len];
        let mut turn = PieceTurn::new(SdSpiDevice.read_with_sd_clocks(len));
        let mut calls = 0;
        loop {
            match turn.step() {
                PieceStep::Finish { ok } => return (ok, calls, read),
                PieceStep::Transfer(piece) => {
                    let came = vec![calls as u8 + 1; piece.len];
                    let went = failing != Some(calls);
                    turn.transferred(if went { Some(&came) } else { None }, &mut read);
                    calls += 1;
                }
            }
        }
    };
    assert_eq!(run(0, None), (true, 0, vec![]));
    let (ok, calls, read) = run(1100, None);
    assert_eq!((ok, calls), (true, 3));
    assert_eq!(read, [vec![1u8; 512], vec![2u8; 512], vec![3u8; 76]].concat());
    let (ok, calls, read) = run(1100, Some(1));
    assert_eq!((ok, calls), (false, 2));
    assert_eq!(read, [vec![1u8; 512], vec![7u8; 588]].concat());
}

#[test]
fn a_transfer_of_unequal_buffers_stops_at_the_piece_that_fails() {
    let run = |read_len: usize, write_len: usize, failing: Option<usize>| {
        let write: Vec<u8> = (0..write_len).map(|i| i as u8 % 100).collect();
        let mut read = vec![7u8; read_len];
        let mut wire = Vec::new();
        let mut turn = PieceTurn::new(SdSpiDevice.transfer_chunked(read_len, write_len));
        let mut calls = 0;
        loop {
            match turn.step() {
                PieceStep::Finish { ok } => return (ok, calls, read, wire),
                PieceStep::Transfer(piece) => {
                    wire.extend(piece.outgoing(&write));
                    let came = vec![200 + calls as u8; piece.len];
                    let went = failing != Some(calls);
                    turn.transferred(if went { Some(&came) } else { None }, &mut read);
                    calls += 1;
                }
            }
        }
    };
    // The read is the longer one: past the write the bus idles.
    let (ok, calls, read, wire) = run(6, 2, None);
    assert_eq!((ok, calls), (true, 2));
    assert_eq!(read, vec![200, 200, 201, 201, 201, 201]);
    assert_eq!(wire, vec![0, 1, 0xff, 0xff, 0xff, 0xff]);
    let (ok, calls, read, wire) = run(6, 2, Some(1));
    assert_eq!((ok, calls), (false, 2));
    assert_eq!(read, vec![200, 200, 7, 7, 7, 7]);
    assert_eq!(wire.len(), 6);
    // The write is the longer one: the read is full before it ends.
    let (ok, calls, read, wire) = run(2, 600, Some(2));
    assert_eq!((ok, calls), (false, 3));
    assert_eq!(read, vec![200, 200]);
    assert_eq!(wire.len(), 600);
    let (ok, calls, read, wire) = run(2, 600, Some(0));
    assert_eq!((ok, calls), (false, 1));
    assert_eq!((read, wire), (vec![7, 7], vec![0, 1]));
}

#[test]
fn a_card_is_released_whatever_failed() {
    let run = |operations: usize, failing: Option<usize>| {
        let (mut turn, mut step) = SdSpiDevice.transaction(operations);
        let mut steps = vec![step];
        loop {
            let went = match step {
                BusStep::Run { operation } => Some(operation) != failing,
                _ => true,
            };
            match turn.advance(step, went) {
                Some(next) => step = next,
                None => return steps,
            }
            steps.push(step);
        }
    };
    let ran = |operation| BusStep::Run { operation };
    let end = |ok| [BusStep::Flush, BusStep::Deselect, BusStep::Finish { ok }];
    assert_eq!(run(0, None), [vec![BusStep::Select], end(true).to_vec()].concat());
    assert_eq!(
        run(3, None),
        [vec![BusStep::Select, ran(0), ran(1), ran(2)], end(true).to_vec()].concat()
    );
    assert_eq!(
        run(3, Some(1)),
        [vec![BusStep::Select, ran(0), ran(1)], end(false).to_vec()].concat()
    );
    assert_eq!(
        run(3, Some(2)),
        [vec![BusStep::Select, ran(0), ran(1), ran(2)], end(false).to_vec()].concat()
    );
}

#[test]
fn the_bus_is_idled_at_least_once() {
    assert_eq!(pace_iterations(0), 1);
    assert_eq!(pace_iterations(99), 1);
    assert_eq!(pace_iterations(1000), 10);
    let stamp = get_timestamp();
    assert_eq!((stamp.year_since_1970, stamp.zero_indexed_month, stamp.zero_indexed_day), (56, 4, 19));
}

#[test]
fn reads_stay_in_the_budget() {
    let mut budget = ReadBudget::new();
    assert_eq!(budget.allow(0), None);
    assert_eq!(budget.allow(100), Some(100));
    assert_eq!(budget.allow(1 << 20), Some(8192));
    assert_eq!(budget.tried(0, ReadTry::SeekFailed), ReadNext::Again { attempt: 1 });
    assert_eq!(budget.tried(1, ReadTry::ReadFailed), ReadNext::Again { attempt: 2 });
    assert_eq!(budget.tried(2, ReadTry::ReadFailed), ReadNext::Failed);
    assert_eq!(budget, ReadBudget::new());
    assert_eq!(budget.tried(2, ReadTry::Read(100)), ReadNext::Done(100));
    assert_eq!(budget, ReadBudget { read_ops: 1, read_bytes: 100 });
    let last = ReadBudget { read_ops: 1, read_bytes: 67_108_864 - 5 };
    assert_eq!(last.allow(100), Some(5));
    assert_eq!(ReadBudget { read_ops: 1, read_bytes: 67_108_864 }.allow(1), None);
    assert_eq!(ReadBudget { read_ops: 65_536, read_bytes: 0 }.allow(1), None);
}

const COMPLETE: InstallRecovery =
    InstallRecovery { touched_shelf: false, swept: true, had_intent: false, complete: true };

fn recover(replies: &[RecoveryReply]) -> RecoveryAction {
    let mut step = reconcile_interrupted_uploads();
    assert_eq!(step.action, RecoveryAction::OpenShelf);
    for reply in replies {
        step = match continue_recovery(step.stage, *reply) {
            Some(step) => step,
            None => panic!("{:?} does not take {:?}", step.stage, reply),
        };
    }
    step.action
}

fn found(outcome: InstallRecovery, shelf_readable: bool, may_mutate: bool) -> RecoveryAction {
    RecoveryAction::Finish(Reconciled { outcome, shelf_readable, may_mutate })
}

#[test]
fn a_settled_card_may_be_written() {
    let installs = [
        RecoveryReply::Shelf(Shelf::Found),
        RecoveryReply::Settled(true),
        RecoveryReply::Installs(COMPLETE),
    ];
    let with = |reply| {
        let mut replies = installs.to_vec();
        replies.push(reply);
        recover(&replies)
    };
    assert_eq!(recover(&installs), RecoveryAction::RecoverReplace);
    assert_eq!(with(RecoveryReply::Replaced(ReplaceRecovery::Nothing)), found(COMPLETE, true, true));
    assert_eq!(
        with(RecoveryReply::Replaced(ReplaceRecovery::Settled)),
        found(InstallRecovery { had_intent: true, ..COMPLETE }, true, true)
    );
    assert_eq!(with(RecoveryReply::Replaced(ReplaceRecovery::Refused)), found(COMPLETE, true, false));
    assert_eq!(with(RecoveryReply::Replaced(ReplaceRecovery::Fault)), found(COMPLETE, true, false));
}

#[test]
fn an_unfinished_install_leaves_the_replacement_alone() {
    let open = InstallRecovery { complete: false, ..COMPLETE };
    let with = |standing| {
        recover(&[
            RecoveryReply::Shelf(Shelf::Found),
            RecoveryReply::Settled(true),
            RecoveryReply::Installs(open),
            RecoveryReply::Standing(standing),
        ])
    };
    assert_eq!(with(ReplaceRead::Absent), found(open, true, true));
    assert_eq!(with(ReplaceRead::Standing), found(open, true, false));
    assert_eq!(with(ReplaceRead::Fault), found(open, true, false));
}

#[test]
fn an_unsettled_reclaim_stops_everything() {
    let unknown =
        InstallRecovery { touched_shelf: false, swept: false, had_intent: true, complete: false };
    assert_eq!(recover(&[RecoveryReply::Shelf(Shelf::Unreadable)]), found(unknown, false, false));
    for shelf in [Shelf::Found, Shelf::Absent] {
        assert_eq!(
            recover(&[RecoveryReply::Shelf(shelf), RecoveryReply::Settled(false)]),
            found(unknown, true, false)
        );
    }
}

#[test]
fn a_card_without_a_shelf_is_judged_by_its_journal() {
    let with = |intent| {
        recover(&[
            RecoveryReply::Shelf(Shelf::Absent),
            RecoveryReply::Settled(true),
            RecoveryReply::Intent(intent),
        ])
    };
    assert_eq!(with(IntentRead::Absent), RecoveryAction::RecoverReplace);
    assert_eq!(with(IntentRead::Truncated), RecoveryAction::ClearIntent);
    for intent in [IntentRead::Valid, IntentRead::Unrecognized, IntentRead::Fault] {
        assert_eq!(with(intent), RecoveryAction::ReadReplace);
    }
}

fn scan(found: &Reconciled, replies: &[ScanReply]) -> ScanAction {
    let (mut action, mut stage) = scan_books(&Some(*found));
    for reply in replies {
        match continue_scan(found, stage, *reply) {
            Some((next, at)) => {
                action = next;
                stage = at;
            }
            None => panic!("{:?} does not take {:?}", stage, reply),
        }
    }
    action
}

#[test]
fn a_scan_runs_only_where_it_is_safe() {
    let good = Reconciled { outcome: COMPLETE, shelf_readable: true, may_mutate: true };
    let ended = |status, complete| ScanAction::Finish { status, complete };
    let went = ScanReply::Went(true);
    assert_eq!(scan_books(&None).0, ended(LibraryScanStatus::Error, false));
    assert_eq!(
        scan(&Reconciled { may_mutate: false, ..good }, &[]),
        ended(LibraryScanStatus::Error, true)
    );
    assert_eq!(
        scan(&Reconciled { shelf_readable: false, ..good }, &[]),
        ended(LibraryScanStatus::Error, true)
    );
    assert_eq!(scan(&good, &[went]), ScanAction::WriteCatalog);
    assert_eq!(scan(&good, &[ScanReply::Went(false)]), ended(LibraryScanStatus::Error, true));
    assert_eq!(scan(&good, &[went, ScanReply::Written(None)]), ended(LibraryScanStatus::Error, true));
    assert_eq!(
        scan(&good, &[went, ScanReply::Written(Some(0))]),
        ended(LibraryScanStatus::Empty, true)
    );
    let written = [went, ScanReply::Written(Some(3)), went];
    assert_eq!(scan(&good, &written), ScanAction::SweepCaches);
    let open = Reconciled { outcome: InstallRecovery { complete: false, ..COMPLETE }, ..good };
    assert_eq!(scan(&open, &written), ended(LibraryScanStatus::Ready, false));
    assert!(scan_ok(LibraryScanStatus::Ready, true));
    assert!(!scan_ok(LibraryScanStatus::Ready, false));
    assert!(!scan_ok(LibraryScanStatus::Error, true));
    assert_eq!(status_after_scan(LibraryScanStatus::Error, false), LibraryScanStatus::Ready);
    assert_eq!(status_after_scan(LibraryScanStatus::Error, true), LibraryScanStatus::Error);
}

#[test]
fn a_snapshot_is_no_less_strict_than_a_scan() {
    let good = Reconciled { outcome: COMPLETE, shelf_readable: true, may_mutate: true };
    assert_eq!(judge_snapshot(&good), None);
    assert_eq!(
        judge_snapshot(&Reconciled { may_mutate: false, ..good }),
        Some(CatalogFault::Unreconciled)
    );
    let moved = Reconciled { outcome: InstallRecovery { touched_shelf: true, ..COMPLETE }, ..good };
    assert_eq!(judge_snapshot(&moved), Some(CatalogFault::Reclaimed));
    let owed = Reconciled { outcome: InstallRecovery { had_intent: true, ..COMPLETE }, ..good };
    assert_eq!(judge_snapshot(&owed), Some(CatalogFault::Reclaimed));
    assert_eq!(status_after_load(false, false), LibraryScanStatus::NotScanned);
    assert_eq!(status_after_load(true, true), LibraryScanStatus::Empty);
    assert_eq!(status_after_load(true, false), LibraryScanStatus::Ready);
}

#[test]
fn a_snapshot_serves_only_when_recovery_vouches_for_it() {
    let read = load_catalog_cache();
    assert_eq!(read, LoadAction::ReadWindow);
    let ended = |fault, drop_catalog| Some(LoadAction::Finish { fault, drop_catalog });
    assert_eq!(
        continue_load(read, LoadReply::NoSession),
        ended(Some(CatalogFault::Device), false)
    );
    assert_eq!(
        continue_load(read, LoadReply::Window(Some(CatalogFault::Stale))),
        ended(Some(CatalogFault::Stale), true)
    );
    let reconcile = continue_load(read, LoadReply::Window(None)).unwrap();
    assert_eq!(reconcile, LoadAction::Reconcile);
    let good = Reconciled { outcome: COMPLETE, shelf_readable: true, may_mutate: true };
    assert_eq!(continue_load(reconcile, LoadReply::Found(good)), ended(None, false));
    let refused = Reconciled { may_mutate: false, ..good };
    assert_eq!(
        continue_load(reconcile, LoadReply::Found(refused)),
        ended(Some(CatalogFault::Unreconciled), true)
    );
    assert_eq!(continue_load(reconcile, LoadReply::NoSession), None);
    assert_eq!(load_result(None), "hit");
    assert_eq!(load_result(Some(CatalogFault::Missing)), "miss");
}

fn upload(replies: &[UploadReply]) -> Vec<UploadAction> {
    let (mut session, mut step) = UploadSession::upload_session();
    let mut actions = vec![step.action];
    for reply in replies {
        step = match session.advance(step.stage, *reply) {
            Some(step) => step,
            None => panic!("{:?} does not take {:?}", step.stage, reply),
        };
        actions.push(step.action);
    }
    actions
}

const YES: UploadReply = UploadReply::Went(true);
const NO: UploadReply = UploadReply::Went(false);

fn request(delete: bool, in_books: bool) -> UploadReply {
    UploadReply::Input(SessionInput::Request(UploadRequest { delete, in_books }))
}

fn chunk(has_bytes: bool, last: bool, abort: bool) -> UploadReply {
    UploadReply::Chunk(ChunkInput::Chunk { has_bytes, last, abort })
}

/// A session that serves, up to its first wait.
fn served() -> Vec<UploadReply> {
    vec![
        YES, YES, YES, YES,
        UploadReply::Shelf(Shelf::Absent),
        YES, YES, YES, YES,
        UploadReply::Replaced(ReplaceRecovery::Nothing),
    ]
}

/// The same, with a request let through.
fn admitted(delete: bool, in_books: bool) -> Vec<UploadReply> {
    let mut replies = served();
    replies.extend([
        request(delete, in_books),
        YES,
        UploadReply::Intent(IntentRead::Absent),
        UploadReply::Replaced(ReplaceRecovery::Settled),
    ]);
    replies
}

fn after(mut replies: Vec<UploadReply>, more: &[UploadReply]) -> Vec<UploadAction> {
    let from = replies.len();
    replies.extend_from_slice(more);
    upload(&replies)[from..].to_vec()
}

#[test]
fn a_session_proves_the_snapshot_gone_first() {
    assert_eq!(
        upload(&served()),
        vec![
            UploadAction::ProbeCard,
            UploadAction::OpenVolume,
            UploadAction::OpenRoot,
            UploadAction::ClearSnapshot,
            UploadAction::OpenShelf,
            UploadAction::RecoverReclaim,
            UploadAction::MakeShelf,
            UploadAction::RecoverReclaim,
            UploadAction::RecoverInstalls,
            UploadAction::RecoverReplace,
            UploadAction::WaitInput,
        ]
    );
    let kept = vec![YES, YES, YES, NO, UploadReply::Shelf(Shelf::Found), YES];
    assert_eq!(
        after(kept, &[request(false, true)]),
        vec![UploadAction::WaitInput, UploadAction::SendResult(false)]
    );
}

#[test]
fn a_book_is_installed_when_all_of_it_was_written() {
    assert_eq!(
        after(admitted(false, true), &[
            YES, chunk(true, false, false), YES, YES, chunk(false, true, false), YES, YES, YES, YES,
        ]),
        vec![
            UploadAction::Stage,
            UploadAction::WaitChunk,
            UploadAction::WriteChunk,
            UploadAction::Recycle,
            UploadAction::WaitChunk,
            UploadAction::Recycle,
            UploadAction::Install,
            UploadAction::RecordIdentity,
            UploadAction::SendResult(true),
            UploadAction::WaitInput,
        ]
    );
}

#[test]
fn a_failed_chunk_taints_its_book() {
    assert_eq!(
        after(admitted(false, true), &[
            YES, chunk(true, false, false), NO, YES, chunk(true, true, false), YES, YES,
        ])[4..],
        [
            UploadAction::WaitChunk,
            UploadAction::Recycle,
            UploadAction::Abandon,
            UploadAction::SendResult(false),
        ]
    );
    assert_eq!(
        after(admitted(false, true), &[YES, chunk(true, false, true), YES, YES])[2..],
        [UploadAction::Recycle, UploadAction::Abandon, UploadAction::SendResult(false)]
    );
}

#[test]
fn a_book_cut_off_by_sleep_is_given_up() {
    assert_eq!(
        after(admitted(false, true), &[
            YES, UploadReply::Chunk(ChunkInput::Render),
            UploadReply::Chunk(ChunkInput::Sleep { generation: 4 }), YES,
        ])[2..],
        [
            UploadAction::WaitChunk,
            UploadAction::Abandon,
            UploadAction::Finish {
                exit: UploadSessionExit::Sleep { generation: 4 },
                volume_open: true,
            },
        ]
    );
}

#[test]
fn a_deleted_book_takes_its_sidecars() {
    assert_eq!(
        after(admitted(true, true), &[YES, YES]),
        vec![
            UploadAction::Delete { in_books: true },
            UploadAction::DeleteSidecars,
            UploadAction::SendResult(true),
        ]
    );
    assert_eq!(
        after(admitted(true, false), &[YES]),
        vec![UploadAction::Delete { in_books: false }, UploadAction::SendResult(true)]
    );
    assert_eq!(after(admitted(true, true), &[NO])[1], UploadAction::SendResult(false));
}

#[test]
fn a_request_waits_for_recovery() {
    let mut waiting = served();
    waiting.push(request(true, true));
    let intent = |intent| UploadReply::Intent(intent);
    assert_eq!(after(waiting.clone(), &[NO])[1], UploadAction::SendResult(false));
    assert_eq!(
        after(waiting.clone(), &[YES, intent(IntentRead::Valid), YES, intent(IntentRead::Valid)]),
        vec![
            UploadAction::RecoverReclaim,
            UploadAction::ReadIntent,
            UploadAction::RecoverInstalls,
            UploadAction::ReadIntent,
            UploadAction::SendResult(false),
        ]
    );
    assert_eq!(
        after(waiting, &[YES, intent(IntentRead::Truncated),
            UploadReply::Replaced(ReplaceRecovery::Refused)])[3],
        UploadAction::SendResult(false)
    );
    assert!(journal_is_clear(IntentRead::Absent) && journal_is_clear(IntentRead::Truncated));
    assert!(!journal_is_clear(IntentRead::Valid) && !journal_is_clear(IntentRead::Fault));
    assert!(!journal_is_clear(IntentRead::Unrecognized));
}

#[test]
fn a_session_without_a_card_still_answers() {
    assert_eq!(
        after(vec![NO], &[request(false, true), chunk(true, false, false), YES,
            chunk(false, true, false), YES, YES, UploadReply::Input(SessionInput::Stop)]),
        vec![
            UploadAction::WaitInput,
            UploadAction::WaitChunk,
            UploadAction::Recycle,
            UploadAction::WaitChunk,
            UploadAction::Recycle,
            UploadAction::SendResult(false),
            UploadAction::WaitInput,
            UploadAction::Finish { exit: UploadSessionExit::Wireless, volume_open: false },
        ]
    );
    // Bytes of a book that could not be staged are taken all the same.
    assert_eq!(
        after(admitted(false, true), &[NO, chunk(true, true, false), YES])[1..],
        [UploadAction::WaitChunk, UploadAction::Recycle, UploadAction::SendResult(false)]
    );
}

#[test]
fn a_finished_session_answers_whoever_stopped_it() {
    let sleep = UploadSessionExit::Sleep { generation: 4 };
    assert_eq!(
        finish_upload_session(sleep, true),
        Handover { interrupt: true, stopped: true, sleep: Some(4) }
    );
    assert_eq!(
        finish_upload_session(sleep, false),
        Handover { interrupt: true, stopped: false, sleep: Some(4) }
    );
    assert_eq!(
        finish_upload_session(UploadSessionExit::Wireless, false),
        Handover { interrupt: false, stopped: true, sleep: None }
    );
}
