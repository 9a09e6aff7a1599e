use reader_fw::background::{BackgroundStep, BookBuildOutcome};
use reader_fw::book_open::{
    BookLoadStatus, BookOpen, BuildEnd, ContentHeader, ContentOpen, IndexLoad, OpenAction,
    OpenBookStep, OpenError, OpenReply, OpenStage,
};
use reader_fw::cache_error::{EpubError, PublishError, ReaderCacheError, SdSessionError, ZipError};
use reader_fw::messages::SourceIdentity;
use reader_fw::resume::{
    begin_step, clear_build_resume, end_step, step_ending, walk_is_live, BookBuildResume,
    StepAttempt,
};
use reader_fw::sections::Growth;
use reader_fw::zip_build::{
    item_outcome, starts_in_body, CaptureMode, ExtendEnd, OpfRead, PackageParse, PublishOutcome,
    SpineItem, ZipAction, ZipBuild, ZipReply, ZipStep,
};

const SOURCE: SourceIdentity = SourceIdentity { hash: 0x11, size: 9_000 };

const TEXT: SpineItem = SpineItem { has_href: true, is_navigation: false };
const NAV: SpineItem = SpineItem { has_href: true, is_navigation: true };
const BARE: SpineItem = SpineItem { has_href: false, is_navigation: false };

const SOME: Growth = Growth { sections: 2, pages: 15, partial: false };

fn resume() -> BookBuildResume {
    BookBuildResume {
        index: 6,
        source: SOURCE,
        next_spine: 3,
        section_count: 4,
        total_pages: 30,
        book_partial: false,
        generate_toc_from_headings: true,
        content_ok: true,
        content_spine_count: 2,
        published_sections: 4,
        layout: 1,
    }
}

#[test]
fn a_walk_belongs_to_its_row_book_and_layout() {
    let state = resume();
    assert!(state.belongs_to(6, SOURCE, 1));
    assert!(!state.belongs_to(7, SOURCE, 1));
    assert!(!state.belongs_to(6, SourceIdentity { hash: 0x12, size: 9_000 }, 1));
    assert!(!state.belongs_to(6, SourceIdentity { hash: 0x11, size: 9_001 }, 1));
    assert!(!state.belongs_to(6, SOURCE, 0));
    assert!(walk_is_live(&Some(state), 6, SOURCE, 1));
    assert!(!walk_is_live(&None, 6, SOURCE, 1));
    let mut slot = Some(state);
    clear_build_resume(&mut slot);
    assert_eq!(slot, None);
}

#[test]
fn a_step_takes_the_walk_out_of_its_slot() {
    let mut slot = Some(resume());
    assert_eq!(begin_step(&mut slot, Some(SOURCE), 1, true), Some(resume()));
    assert_eq!(slot, None);
    for (entry, layout, located) in [(None, 1, true), (Some(SOURCE), 0, true), (Some(SOURCE), 1, false)] {
        let mut slot = Some(resume());
        assert_eq!(begin_step(&mut slot, entry, layout, located), None);
        assert_eq!(slot, None);
    }
}

#[test]
fn the_slot_agrees_with_how_the_step_ended() {
    let further = BookBuildResume { next_spine: 5, ..resume() };
    let mut slot = None;
    let end = |slot: &mut Option<BookBuildResume>, attempt, resident| {
        end_step(slot, Some(resume()), attempt, resident)
    };
    assert_eq!(end(&mut slot, StepAttempt::NeverBegan, true), BackgroundStep::Retry);
    assert_eq!(slot, Some(resume()));
    assert_eq!(end(&mut slot, StepAttempt::Suspended(further), true), BackgroundStep::Continued);
    assert_eq!(slot, Some(further));
    assert_eq!(end(&mut slot, StepAttempt::Finished, true), BackgroundStep::Finished);
    assert_eq!(slot, None);
    let broken = StepAttempt::Failed(ReaderCacheError::SectionRead);
    assert_eq!(end(&mut slot, broken, true), BackgroundStep::Stopped);
    assert_eq!(end(&mut slot, broken, false), BackgroundStep::Abandoned);
    // A step that had no walk to take has nothing to tell, whatever is resident.
    for attempt in [StepAttempt::NeverBegan, StepAttempt::Finished, broken] {
        assert_eq!(end_step(&mut slot, None, attempt, true), BackgroundStep::Abandoned);
        assert_eq!(slot, None);
    }
    assert_eq!(step_ending(true), BackgroundStep::Stopped);
    assert_eq!(step_ending(false), BackgroundStep::Abandoned);
}

fn open(
    located: bool,
    resume: Option<BookBuildResume>,
    replies: &[OpenReply],
) -> (BookOpen, Vec<OpenAction>) {
    let (mut open, mut step) = BookOpen::begin(6, Some(SOURCE), 1, located, resume);
    let mut actions = vec![step.action];
    for reply in replies {
        step = match open.advance(step.stage, *reply) {
            Some(step) => step,
            None => panic!("{:?} does not take {:?}", step.stage, reply),
        };
        actions.push(step.action);
    }
    (open, actions)
}

#[test]
fn a_cached_book_opens_without_writing() {
    let (open, actions) = open(true, Some(resume()), &[
        OpenReply::Session(None),
        OpenReply::Index(IndexLoad::Hit { unfinished: true }),
        OpenReply::Went(true),
        OpenReply::Went(true),
        OpenReply::Went(false),
        OpenReply::Went(false),
    ]);
    assert_eq!(actions[2], OpenAction::AskIndexUsable { unfinished: true, walk_is_live: true });
    assert_eq!(
        *actions.last().unwrap(),
        OpenAction::Finish { outcome: BookBuildOutcome::Carried, status: BookLoadStatus::Ready }
    );
    assert_eq!(open.resume, Some(resume()));
}

#[test]
fn a_walk_of_another_book_does_not_outlive_the_open() {
    let other = BookBuildResume { index: 2, ..resume() };
    let (open, actions) = open(true, Some(other), &[
        OpenReply::Session(None),
        OpenReply::Index(IndexLoad::Hit { unfinished: false }),
        OpenReply::Went(true),
        OpenReply::Went(true),
        OpenReply::Went(true),
        OpenReply::Went(true),
        OpenReply::Went(true),
    ]);
    assert_eq!(actions[6], OpenAction::UpdateTitle);
    assert_eq!(
        actions[7],
        OpenAction::Finish { outcome: BookBuildOutcome::Settled, status: BookLoadStatus::Ready }
    );
    assert_eq!(open.resume, None);
}

#[test]
fn a_miss_tries_the_sections_then_the_text_then_the_file() {
    let (open, actions) = open(true, Some(resume()), &[
        OpenReply::Session(None),
        OpenReply::Index(IndexLoad::Miss),
        OpenReply::Went(true),
        OpenReply::Went(true),
        OpenReply::Went(true),
        OpenReply::Went(false),
        OpenReply::Content(ContentOpen::Header(ContentHeader { complete: true, source: SOURCE })),
        OpenReply::Went(true),
        OpenReply::Replayed { clean: true, section_count: 3, total_pages: 9 },
        OpenReply::Went(false),
        OpenReply::Went(true),
        OpenReply::Built(Some(BuildEnd::Suspended(BookBuildResume { next_spine: 9, ..resume() }))),
        OpenReply::Went(false),
    ]);
    assert_eq!(
        actions[2..],
        [
            OpenAction::EvictLayouts,
            OpenAction::LoadLabels,
            OpenAction::ReindexSections,
            OpenAction::PublishReindexed,
            OpenAction::OpenContent,
            OpenAction::LoadReplayLabels,
            OpenAction::ReplayContent,
            OpenAction::PublishReplayed,
            OpenAction::EmptyLayout,
            OpenAction::BuildFromFile,
            OpenAction::AskTitle,
            OpenAction::Finish { outcome: BookBuildOutcome::Started, status: BookLoadStatus::Ready },
        ]
    );
    assert_eq!(open.resume.unwrap().next_spine, 9);
}

#[test]
fn captured_text_is_deleted_only_when_it_is_no_use() {
    let missed = [
        OpenReply::Session(None),
        OpenReply::Index(IndexLoad::Invalid),
        OpenReply::Went(true),
        OpenReply::Went(false),
    ];
    let after = |content| {
        let mut replies = missed.to_vec();
        replies.push(OpenReply::Content(content));
        *open(true, None, &replies).1.last().unwrap()
    };
    let other = SourceIdentity { hash: 0x99, size: 1 };
    assert_eq!(after(ContentOpen::Missing), OpenAction::BuildFromFile);
    assert_eq!(after(ContentOpen::Unreadable), OpenAction::DeleteContent);
    assert_eq!(
        after(ContentOpen::Header(ContentHeader { complete: false, source: SOURCE })),
        OpenAction::DeleteContent
    );
    assert_eq!(
        after(ContentOpen::Header(ContentHeader { complete: true, source: other })),
        OpenAction::DeleteContent
    );
    assert_eq!(
        after(ContentOpen::Header(ContentHeader { complete: true, source: SOURCE })),
        OpenAction::LoadReplayLabels
    );
}

#[test]
fn opens_that_fail_say_why() {
    let (_, actions) = open(true, None, &[OpenReply::Session(Some(SdSessionError::CardInit))]);
    assert_eq!(actions[1], OpenAction::ShowError(OpenError::Session(SdSessionError::CardInit)));
    let (open_, actions) = open(false, Some(resume()), &[OpenReply::Session(None), OpenReply::Went(true)]);
    assert_eq!(actions[1], OpenAction::ShowError(OpenError::File));
    assert_eq!(
        actions[2],
        OpenAction::Finish { outcome: BookBuildOutcome::Settled, status: BookLoadStatus::Error }
    );
    assert_eq!(open_.resume, None);
    let built = |end| {
        *open(true, None, &[
            OpenReply::Session(None),
            OpenReply::Index(IndexLoad::Miss),
            OpenReply::Went(true),
            OpenReply::Went(false),
            OpenReply::Content(ContentOpen::Missing),
            OpenReply::Built(end),
        ])
        .1
        .last()
        .unwrap()
    };
    assert_eq!(built(None), OpenAction::ShowError(OpenError::File));
    assert_eq!(
        built(Some(BuildEnd::Failed(ReaderCacheError::NoBodyText))),
        OpenAction::ShowError(OpenError::Cache(ReaderCacheError::NoBodyText))
    );
    assert_eq!(built(Some(BuildEnd::Whole)), OpenAction::AskTitle);
    let (gone, step) = BookOpen::begin(6, None, 1, true, Some(resume()));
    assert_eq!(
        step,
        OpenBookStep {
            action: OpenAction::ShowError(OpenError::BadIndex),
            stage: OpenStage::ErrorShown,
        }
    );
    assert_eq!(gone.resume, None);
}

fn prepared(start: usize, forward_only: bool) -> Vec<ZipReply> {
    vec![
        ZipReply::Container(None),
        ZipReply::Found(None),
        ZipReply::Opf(OpfRead::Read),
        ZipReply::Package(PackageParse::Parsed { spine_truncated: false, start, forward_only }),
        ZipReply::Done,
        ZipReply::Done,
        ZipReply::Toc { is_empty: true },
        ZipReply::Done,
    ]
}

fn build(
    resume: Option<BookBuildResume>,
    items: &Vec<SpineItem>,
    capacity: usize,
    replies: &[ZipReply],
) -> (ZipBuild, Vec<ZipAction>) {
    let (mut build, mut step): (ZipBuild, ZipStep) =
        ZipBuild::begin(6, SOURCE, 1, capacity, resume);
    let mut actions = vec![step.action];
    for reply in replies {
        step = match build.advance(step.stage, *reply, items) {
            Some(step) => step,
            None => panic!("{:?} does not take {:?}", step.stage, reply),
        };
        actions.push(step.action);
    }
    (build, actions)
}

fn built_item(suspend: bool) -> Vec<ZipReply> {
    vec![
        ZipReply::Resolved(None),
        ZipReply::Item(Some(800)),
        ZipReply::Went(false),
        ZipReply::Built { growth: SOME, error: None },
        ZipReply::Went(suspend),
    ]
}

#[test]
fn a_book_is_built_in_the_order_of_its_spine() {
    let items = vec![TEXT, NAV, TEXT, BARE, TEXT];
    let mut replies = prepared(1, false);
    replies.extend(built_item(false));
    replies.extend(built_item(false));
    replies.extend([ZipReply::Done, ZipReply::Outcome(PublishOutcome::Ready)]);
    let (state, actions) = build(None, &items, 100, &replies);
    assert_eq!(actions[4], ZipAction::SetLabels);
    assert_eq!(actions[5], ZipAction::LoadToc);
    assert_eq!(actions[7], ZipAction::StartCapture(CaptureMode::Begin));
    let built: Vec<ZipAction> =
        actions.iter().copied().filter(|a| matches!(a, ZipAction::BuildItem { .. })).collect();
    assert_eq!(
        built,
        vec![
            ZipAction::BuildItem { item: 2, spine: 2 },
            ZipAction::BuildItem { item: 4, spine: 4 },
        ]
    );
    assert_eq!(actions[18], ZipAction::FinishCapture { keep: true });
    assert_eq!(actions[19], ZipAction::Publish { book_partial: false });
    assert_eq!(actions[20], ZipAction::Finish(BuildEnd::Whole));
    assert!(state.generate_toc_from_headings);
}

#[test]
fn a_first_open_hands_over_a_suspended_walk() {
    let items = vec![TEXT, TEXT, TEXT];
    let mut replies = prepared(0, true);
    replies.extend(built_item(true));
    replies.extend([
        ZipReply::Capture { ok: true, spine_count: 1 },
        ZipReply::Published(None),
    ]);
    let (_, actions) = build(None, &items, 100, &replies);
    assert_eq!(actions[5], ZipAction::ClearToc);
    assert_eq!(actions[12], ZipAction::AskSuspendHere { more: true });
    assert_eq!(actions[13], ZipAction::SuspendCapture);
    assert_eq!(actions[14], ZipAction::PublishFirst { next_spine: 1 });
    assert_eq!(
        actions[15],
        ZipAction::Finish(BuildEnd::Suspended(BookBuildResume {
            next_spine: 1,
            section_count: 2,
            total_pages: 15,
            published_sections: 2,
            content_spine_count: 1,
            ..resume()
        }))
    );
}

#[test]
fn a_resumed_walk_starts_where_it_stopped() {
    let items = vec![TEXT, TEXT, TEXT, TEXT, TEXT];
    let head = [
        ZipReply::Container(None),
        ZipReply::Found(None),
        ZipReply::Opf(OpfRead::Read),
        ZipReply::Package(PackageParse::Parsed {
            spine_truncated: false, start: 0, forward_only: false,
        }),
        ZipReply::Toc { is_empty: false },
        ZipReply::Done,
    ];
    let mut replies = head.to_vec();
    replies.extend([ZipReply::Resolved(None), ZipReply::Item(Some(800)), ZipReply::Went(true),
        ZipReply::Capture { ok: false, spine_count: 2 },
        ZipReply::Extended(ExtendEnd::Published(7))]);
    let (_, actions) = build(Some(resume()), &items, 100, &replies);
    assert_eq!(actions[5], ZipAction::StartCapture(CaptureMode::Resume { spine_count: 2 }));
    assert_eq!(actions[6], ZipAction::ResolveItem { item: 3 });
    assert_eq!(actions[8], ZipAction::AskSuspendBefore { size: 800, walked: 0 });
    assert_eq!(actions[10], ZipAction::ExtendIndex { next_spine: 3, published: 4 });
    assert_eq!(
        actions[11],
        ZipAction::Finish(BuildEnd::Suspended(BookBuildResume {
            published_sections: 7,
            content_ok: false,
            ..resume()
        }))
    );
    // The capture that failed stays failed, and the reader's cache is kept.
    let failed = BookBuildResume { content_ok: false, next_spine: 5, ..resume() };
    let mut replies = head.to_vec();
    replies.extend([
        ZipReply::Done,
        ZipReply::Outcome(PublishOutcome::IndexWriteFailed),
        ZipReply::Published(Some(PublishError::IndexWrite)),
    ]);
    let (_, actions) = build(Some(failed), &items, 100, &replies);
    assert_eq!(actions[5], ZipAction::StartCapture(CaptureMode::Disabled));
    assert_eq!(actions[8], ZipAction::FinishBackground(PublishOutcome::IndexWriteFailed));
    assert_eq!(actions[9], ZipAction::Finish(BuildEnd::Failed(ReaderCacheError::IndexWrite)));
}

#[test]
fn a_book_that_was_cut_short_keeps_no_capture() {
    let items = vec![TEXT, TEXT];
    let mut replies = prepared(0, false);
    replies.extend(built_item(false));
    replies.push(ZipReply::Done);
    let (_, actions) = build(None, &items, 2, &replies);
    assert_eq!(actions[13], ZipAction::FinishCapture { keep: false });
    assert_eq!(actions[14], ZipAction::Publish { book_partial: true });
    let mut replies = prepared(0, false);
    replies.push(ZipReply::Resolved(Some(ReaderCacheError::EntryNameTooLong)));
    replies.push(ZipReply::Done);
    let (_, actions) = build(None, &items, 100, &replies);
    assert_eq!(actions[9], ZipAction::FinishCapture { keep: false });
    assert_eq!(actions[10], ZipAction::Finish(BuildEnd::Failed(ReaderCacheError::EntryNameTooLong)));
}

#[test]
fn builds_that_fail_say_why() {
    let none = vec![];
    let fail = |replies: &[ZipReply]| match build(None, &none, 100, replies).1.last().unwrap() {
        ZipAction::Finish(BuildEnd::Failed(error)) => *error,
        other => panic!("{:?}", other),
    };
    let deflate = ZipError::Inflate;
    assert_eq!(
        fail(&[ZipReply::Container(Some(EpubError::Zip(deflate)))]),
        ReaderCacheError::Zip(deflate)
    );
    assert_eq!(fail(&[ZipReply::Container(Some(EpubError::Utf8))]), ReaderCacheError::Utf8);
    assert_eq!(
        fail(&[ZipReply::Container(Some(EpubError::MissingOpfPath))]),
        ReaderCacheError::Epub(EpubError::MissingOpfPath)
    );
    assert_eq!(
        fail(&[ZipReply::Container(None), ZipReply::Found(Some(deflate))]),
        ReaderCacheError::Zip(deflate)
    );
    let found = [ZipReply::Container(None), ZipReply::Found(None)];
    let after = |reply| {
        let mut replies = found.to_vec();
        replies.push(reply);
        fail(&replies)
    };
    assert_eq!(after(ZipReply::Opf(OpfRead::Utf8)), ReaderCacheError::Utf8);
    assert_eq!(after(ZipReply::Opf(OpfRead::Zip(deflate))), ReaderCacheError::Zip(deflate));
    // No item at all, against items that held no text.
    let mut replies = prepared(0, false);
    replies.push(ZipReply::Done);
    assert_eq!(fail(&replies), ReaderCacheError::MissingSpine);
    let mut replies = prepared(0, false);
    replies.extend([ZipReply::Resolved(None), ZipReply::Item(None), ZipReply::Done]);
    let (_, actions) = build(None, &vec![TEXT], 100, &replies);
    assert_eq!(
        *actions.last().unwrap(),
        ZipAction::Finish(BuildEnd::Failed(ReaderCacheError::NoBodyText))
    );
    let published = |outcome| {
        let mut replies = prepared(0, false);
        replies.extend(built_item(false));
        replies.extend([ZipReply::Done, ZipReply::Outcome(outcome)]);
        *build(None, &vec![TEXT], 100, &replies).1.last().unwrap()
    };
    assert_eq!(
        published(PublishOutcome::SectionReadFailed),
        ZipAction::Finish(BuildEnd::Failed(ReaderCacheError::SectionRead))
    );
    assert_eq!(published(PublishOutcome::IndexWriteFailed), ZipAction::EmptyLayout);
}

#[test]
fn a_stopped_sink_forgives_the_parser() {
    assert_eq!(item_outcome(None, false, false), None);
    assert_eq!(item_outcome(None, true, true), None);
    assert_eq!(item_outcome(None, true, false), Some(ReaderCacheError::XhtmlFull));
    assert_eq!(
        item_outcome(Some(ZipError::Inflate), false, false),
        Some(ReaderCacheError::Zip(ZipError::Inflate))
    );
}

#[test]
fn a_document_without_a_body_tag_is_all_body() {
    assert!(starts_in_body(b""));
    assert!(starts_in_body(b"<p>text</p>"));
    assert!(!starts_in_body(b"<html><body class=\"x\">"));
    assert!(!starts_in_body(b"<x:html><x:body>"));
    assert!(starts_in_body(b"<BODY>"));
}

#[test]
fn a_walk_that_goes_on_hands_on_no_less_than_it_took() {
    let items = vec![TEXT, TEXT, TEXT, TEXT, TEXT];
    let lost = BookBuildResume { content_ok: false, book_partial: true, ..resume() };
    let mut replies = vec![
        ZipReply::Container(None),
        ZipReply::Found(None),
        ZipReply::Opf(OpfRead::Read),
        ZipReply::Package(PackageParse::Parsed {
            spine_truncated: false, start: 0, forward_only: false,
        }),
        ZipReply::Toc { is_empty: false },
        ZipReply::Done,
    ];
    replies.extend(built_item(true));
    replies.extend([
        ZipReply::Capture { ok: true, spine_count: 9 },
        ZipReply::Extended(ExtendEnd::Published(6)),
    ]);
    let (_, actions) = build(Some(lost), &items, 100, &replies);
    assert_eq!(
        *actions.last().unwrap(),
        ZipAction::Finish(BuildEnd::Suspended(BookBuildResume {
            next_spine: 4,
            section_count: 6,
            total_pages: 45,
            published_sections: 6,
            content_spine_count: 9,
            // Once the capture has failed it stays failed.
            content_ok: false,
            book_partial: true,
            ..resume()
        }))
    );
}
