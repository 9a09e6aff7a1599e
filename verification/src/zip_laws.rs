//! What a build makes of an archive: which items it builds, what it counts,
//! what it says of a failure and what it hands on.
use vstd::prelude::*;
use crate::book_open::BuildEnd;
use crate::cache_error::{EpubError, PublishError, ReaderCacheError};
use crate::resume::BookBuildResume;
use crate::sections::Growth;
use crate::zip_build::{
    next_item, text_item_from, zip_next, CaptureMode, ExtendEnd, OpfRead, PackageParse,
    PublishOutcome, SpineItem, WalkEnd, ZipAction, ZipBuild, ZipReply, ZipStage,
};

verus! {

/// Whether an item is one the walk is for: it has a path, and it is not a
/// table of contents.
pub open spec fn holds_text(item: SpineItem) -> bool {
    item.has_href && !item.is_navigation
}

/// Whether an item lies where this step has still to go: from where it stands
/// on, within the text, and behind what the steps before it have built.
pub open spec fn lies_ahead(build: ZipBuild, item: int) -> bool {
    &&& item >= build.next
    &&& item >= build.start
    &&& build.resume matches Some(state) ==> item >= state.next_spine
}

proof fn lemma_first_text(items: Seq<SpineItem>, from: int)
    requires
        0 <= from,
    ensures
        match text_item_from(items, from) {
            Some(at) => from <= at < items.len() && holds_text(items[at]) && forall|i: int|
                from <= i < at ==> !holds_text(#[trigger] items[i]),
            None => forall|i: int| from <= i < items.len() ==> !holds_text(#[trigger] items[i]),
        },
    decreases items.len() - from,
{
    if from < items.len() && !holds_text(items[from]) {
        lemma_first_text(items, from + 1);
    }
}

/// The next item that is built is the first that lies ahead and holds text,
/// and the walk is over only when there is none.
pub proof fn law_first_text_ahead_is_next(build: ZipBuild, items: Seq<SpineItem>)
    ensures
        match next_item(build, items) {
            Some(item) => {
                &&& 0 <= item < items.len()
                &&& holds_text(items[item])
                &&& lies_ahead(build, item)
                &&& forall|i: int|
                    0 <= i < item && lies_ahead(build, i) ==> !holds_text(#[trigger] items[i])
            },
            None => forall|i: int|
                0 <= i < items.len() && lies_ahead(build, i) ==> !holds_text(#[trigger] items[i]),
        },
{
    let resumed = match build.resume {
        Some(state) => state.next_spine as int,
        None => 0,
    };
    let floor = if build.start >= resumed { build.start as int } else { resumed };
    let from = if build.next >= floor { build.next as int } else { floor };
    lemma_first_text(items, from);
}

/// Each failure on the way to the text is told as what failed: the archive's
/// as the archive's, text that is no text as that, and the rest as the
/// package's. A walk that failed ends with its own error.
pub proof fn law_failure_is_told_as_it_was(build: ZipBuild, stage: ZipStage, reply: ZipReply, items: Seq<SpineItem>)
    ensures
        zip_next(build, stage, reply, items) matches Some(next) ==> {
            let told = next.1.action;
            &&& (reply matches ZipReply::Container(Some(error)) ==> told == ZipAction::Finish(
                BuildEnd::Failed(
                    match error {
                        EpubError::Zip(zip) => ReaderCacheError::Zip(zip),
                        EpubError::Utf8 => ReaderCacheError::Utf8,
                        _ => ReaderCacheError::Epub(error),
                    },
                ),
            ))
            &&& (reply matches ZipReply::Found(Some(error)) ==> told == ZipAction::Finish(
                BuildEnd::Failed(ReaderCacheError::Zip(error)),
            ))
            &&& (reply matches ZipReply::Opf(OpfRead::Zip(error)) ==> told == ZipAction::Finish(
                BuildEnd::Failed(ReaderCacheError::Zip(error)),
            ))
            &&& (reply == ZipReply::Opf(OpfRead::Utf8) ==> told == ZipAction::Finish(
                BuildEnd::Failed(ReaderCacheError::Utf8),
            ))
            &&& (reply matches ZipReply::Package(PackageParse::Failed(error)) ==> told
                == ZipAction::Finish(BuildEnd::Failed(ReaderCacheError::Epub(error))))
            &&& (reply matches ZipReply::Resolved(Some(error)) ==> next.1.stage == ZipStage::Ended(
                WalkEnd::Failed(error),
            ))
            &&& (reply matches ZipReply::Built { error: Some(error), .. } ==> next.1.stage
                == ZipStage::Ended(WalkEnd::Failed(error)))
            &&& (stage matches ZipStage::Ended(WalkEnd::Failed(error)) ==> told == ZipAction::Finish(
                BuildEnd::Failed(error),
            ))
            &&& (reply == ZipReply::Published(Some(PublishError::IndexWrite)) || reply
                == ZipReply::Extended(ExtendEnd::Failed(PublishError::IndexWrite)) ==> told
                == ZipAction::Finish(BuildEnd::Failed(ReaderCacheError::IndexWrite)))
            &&& (reply == ZipReply::Published(Some(PublishError::SectionRead)) || reply
                == ZipReply::Extended(ExtendEnd::Failed(PublishError::SectionRead)) ==> told
                == ZipAction::Finish(BuildEnd::Failed(ReaderCacheError::SectionRead)))
            &&& (stage is Emptied ==> told == ZipAction::Finish(
                BuildEnd::Failed(ReaderCacheError::IndexWrite),
            ))
        },
{
}

/// A package says where the text starts and whether all of its spine is known;
/// nothing else of the build changes with it. A first open takes the labels
/// over, and reads the contents unless the archive can only be read forwards;
/// a step that carries a walk on leaves both as they are.
pub proof fn law_package_is_taken_over(
    build: ZipBuild,
    spine_truncated: bool,
    start: usize,
    forward_only: bool,
    is_empty: bool,
    items: Seq<SpineItem>,
)
    ensures
        zip_next(
            build,
            ZipStage::Parsed,
            ZipReply::Package(PackageParse::Parsed { spine_truncated, start, forward_only }),
            items,
        ) matches Some(next) && {
            &&& next.0 == (ZipBuild {
                start,
                book_partial: build.book_partial || spine_truncated,
                ..build
            })
            &&& next.1.action is SetLabels <==> build.resume is None
            &&& build.resume is None ==> next.1.stage == (ZipStage::Labels { forward_only })
            &&& build.resume is Some ==> (if forward_only {
                next.1.action is ClearToc
            } else {
                next.1.action is EnsureDirs
            })
        },
        zip_next(build, ZipStage::Labels { forward_only }, ZipReply::Done, items) matches Some(next) && (
        if forward_only {
            next.1.action is ClearToc
        } else {
            next.1.action is LoadToc
        }),
        zip_next(build, ZipStage::Dirs, ZipReply::Toc { is_empty }, items) matches Some(next) && {
            &&& build.resume is None ==> next.0.generate_toc_from_headings == is_empty
                && next.1.action == ZipAction::StartCapture(CaptureMode::Begin)
            &&& build.resume matches Some(state) ==> next.0.generate_toc_from_headings
                == state.generate_toc_from_headings && next.1.action == ZipAction::StartCapture(
                if state.content_ok {
                    CaptureMode::Resume { spine_count: state.content_spine_count }
                } else {
                    CaptureMode::Disabled
                },
            )
        },
{
}

/// An item that is there is asked about under its size and built under its
/// own number; one that is not there is passed over. What it added is added,
/// and whether more may follow is told by the spine.
pub proof fn law_item_is_built_under_its_number(
    build: ZipBuild,
    item: usize,
    size: u32,
    growth: Growth,
    items: Seq<SpineItem>,
)
    requires
        item <= u16::MAX,
        build.walked < usize::MAX,
        build.section_count + growth.sections <= usize::MAX,
        build.total_pages + growth.pages <= u32::MAX,
    ensures
        zip_next(build, ZipStage::Resolved { item }, ZipReply::Resolved(None), items) matches Some(next)
            && next.0 == build && next.1.action == (ZipAction::FindItem { item }),
        zip_next(build, ZipStage::Found { item }, ZipReply::Item(Some(size)), items) matches Some(next)
            && next.0 == build && next.1.action == (ZipAction::AskSuspendBefore {
            size,
            walked: build.walked,
        }),
        zip_next(build, ZipStage::Before { item }, ZipReply::Went(false), items) matches Some(next)
            && next.0.walked == build.walked + 1 && next.1.action == (ZipAction::BuildItem {
            item,
            spine: item as u16,
        }),
        zip_next(build, ZipStage::Built { item }, ZipReply::Built { growth, error: None }, items) matches Some(
            next,
        ) && {
            &&& next.0.section_count == build.section_count + growth.sections
            &&& next.0.total_pages == build.total_pages + growth.pages
            &&& next.0.book_partial == (build.book_partial || growth.partial)
            &&& next.1.action == (ZipAction::AskSuspendHere { more: item + 1 < items.len() })
        },
{
}

/// A walk goes on to the next item of the text while the index can name more
/// sections. Where there is none it ends; where the index is full it ends
/// with the book partial, and with nothing else changed.
pub proof fn law_walk_ends_at_its_end(build: ZipBuild, items: Seq<SpineItem>)
    ensures
        zip_next(build, ZipStage::Captured, ZipReply::Done, items) matches Some(next) && {
            let item = next_item(build, items);
            let room = build.section_count < build.section_capacity;
            &&& item is Some && room <==> next.1.action is ResolveItem
            &&& item is Some && room ==> next.1.action == (ZipAction::ResolveItem {
                item: item->0 as usize,
            }) && next.0.saw_spine && next.0.book_partial == build.book_partial
            &&& !(item is Some && room) ==> next.1.stage == ZipStage::Ended(WalkEnd::Reached)
                && next.0 == (ZipBuild {
                book_partial: build.book_partial || item is Some,
                ..build
            })
            &&& next.1.action matches ZipAction::FinishCapture { keep } ==> (keep <==> item is None
                && !build.book_partial && build.section_count > 0 && build.total_pages > 0)
        },
{
}

/// A walk that reached its end is published if it made a page, as partial as
/// it is. One that made none had no text, or no spine to take it from.
pub proof fn law_book_with_pages_is_published(build: ZipBuild, items: Seq<SpineItem>)
    ensures
        zip_next(build, ZipStage::Ended(WalkEnd::Reached), ZipReply::Done, items) matches Some(next) && (
        if build.section_count > 0 && build.total_pages > 0 {
            next.1.action == (ZipAction::Publish { book_partial: build.book_partial })
        } else {
            next.1.action == ZipAction::Finish(
                BuildEnd::Failed(
                    if build.saw_spine {
                        ReaderCacheError::NoBodyText
                    } else {
                        ReaderCacheError::MissingSpine
                    },
                ),
            )
        }),
{
}

/// A published book is whole. On its own open an index that could not be
/// written takes the layout's cache with it, and a section that does not read
/// back is told; behind a reader the outcome is handled there.
pub proof fn law_publishing_ends_the_build(build: ZipBuild, outcome: PublishOutcome, items: Seq<SpineItem>)
    ensures
        zip_next(build, ZipStage::Published, ZipReply::Outcome(outcome), items) matches Some(next) && {
            &&& build.resume is Some ==> next.1.action == ZipAction::FinishBackground(outcome)
            &&& build.resume is None && outcome == PublishOutcome::Ready ==> next.1.action
                == ZipAction::Finish(BuildEnd::Whole)
            &&& build.resume is None && outcome == PublishOutcome::SectionReadFailed ==> next.1.action
                == ZipAction::Finish(BuildEnd::Failed(ReaderCacheError::SectionRead))
            &&& build.resume is None && outcome == PublishOutcome::IndexWriteFailed ==> next.1.action
                is EmptyLayout
        },
        zip_next(build, ZipStage::Background, ZipReply::Published(None), items) matches Some(next)
            && next.1.action == ZipAction::Finish(BuildEnd::Whole),
{
}

/// What a suspended walk hands on is the build as it stands: its item, what it
/// has built and whether that is partial, where its contents come from, and
/// its capture, which is good only if it always was. A first open publishes
/// all its sections; a later step goes on from those published before, and
/// hands on how many are now.
pub proof fn law_suspended_walk_hands_on_its_state(
    build: ZipBuild,
    next_spine: u16,
    ok: bool,
    spine_count: u16,
    published: u16,
    items: Seq<SpineItem>,
)
    requires
        build.section_count <= u16::MAX,
    ensures
        ({
            let state = BookBuildResume {
                index: build.index,
                source: build.source,
                next_spine,
                section_count: build.section_count as u16,
                total_pages: build.total_pages,
                book_partial: build.book_partial,
                generate_toc_from_headings: build.generate_toc_from_headings,
                content_ok: ok && (build.resume is Some ==> build.resume->0.content_ok),
                content_spine_count: spine_count,
                published_sections: 0,
                layout: build.layout,
            };
            let suspended = zip_next(
                build,
                ZipStage::Suspended { next_spine },
                ZipReply::Capture { ok, spine_count },
                items,
            );
            let first = zip_next(
                build,
                ZipStage::FirstPublished(state),
                ZipReply::Published(None),
                items,
            );
            let later = zip_next(
                build,
                ZipStage::Extended(state),
                ZipReply::Extended(ExtendEnd::Published(published)),
                items,
            );
            &&& build.resume is None ==> (suspended matches Some(next) && next.1.action
                == (ZipAction::PublishFirst { next_spine }) && next.1.stage
                == ZipStage::FirstPublished(state))
            &&& build.resume is Some ==> (suspended matches Some(next) && next.1.action
                == (ZipAction::ExtendIndex {
                next_spine,
                published: build.resume->0.published_sections,
            }) && next.1.stage == ZipStage::Extended(state))
            &&& first matches Some(next) && next.1.action == ZipAction::Finish(
                BuildEnd::Suspended(
                    BookBuildResume { published_sections: state.section_count, ..state },
                ),
            )
            &&& later matches Some(next) && next.1.action == ZipAction::Finish(
                BuildEnd::Suspended(BookBuildResume { published_sections: published, ..state }),
            )
        }),
{
}

/// An item that is done with, built or not there, is followed by whatever a
/// walk that stands right behind it would build: no item is left out between.
pub proof fn law_walk_goes_on_behind_the_item(build: ZipBuild, item: usize, items: Seq<SpineItem>)
    requires
        item < usize::MAX,
    ensures
        ({
            let behind = zip_next(
                ZipBuild { next: (item + 1) as usize, ..build },
                ZipStage::Captured,
                ZipReply::Done,
                items,
            );
            &&& zip_next(build, ZipStage::Here { item }, ZipReply::Went(false), items) == behind
            &&& zip_next(build, ZipStage::Found { item }, ZipReply::Item(None), items) == behind
        }),
{
}

/// Every item that is built counts as walked, one at a time, and the count
/// never falls back.
pub proof fn law_built_item_is_counted(build: ZipBuild, items: Seq<SpineItem>, item: usize)
    ensures
        zip_next(build, ZipStage::Before { item }, ZipReply::Went(false), items) matches Some(next)
            && next.0.walked >= build.walked && (build.walked < usize::MAX ==> next.0.walked
            == build.walked + 1) && next.0 == (ZipBuild { walked: next.0.walked, ..build }),
        zip_next(build, ZipStage::Before { item }, ZipReply::Went(true), items) matches Some(next)
            && next.0.walked == build.walked,
{
}

} // verus!
