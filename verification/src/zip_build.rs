//! Building a book from its archive: the package, the contents, then the
//! spine item by item, in slices that can be suspended between items.
//!
//! The archive, the parser and the card stay outside. What is decided here is
//! which items are built, where a slice stops, what a suspended walk takes
//! along, and what becomes of the cache in the end.
use vstd::prelude::*;
use crate::book_open::BuildEnd;
use crate::cache_error::{
    container_error, from_publish, EpubError, PublishError, ReaderCacheError, ZipError,
};
use crate::chars::{bytes_contain, holds, stands_at};
use crate::messages::SourceIdentity;
use crate::resume::BookBuildResume;
use crate::sections::Growth;

verus! {

/// A spine item, as far as the walk tells it apart.
#[derive(Clone, Copy, PartialEq, Eq, Structural, Debug)]
pub struct SpineItem {
    pub has_href: bool,
    pub is_navigation: bool,
}

/// How the capture of the text goes on.
#[derive(Clone, Copy, PartialEq, Eq, Structural, Debug)]
pub enum CaptureMode {
    Begin,
    Resume { spine_count: u16 },
    /// A capture that once failed stays failed.
    Disabled,
}

#[derive(Clone, Copy, PartialEq, Eq, Structural, Debug)]
pub enum PublishOutcome {
    Ready,
    SectionReadFailed,
    IndexWriteFailed,
}

/// Why the package document could not be read.
#[derive(Clone, Copy, PartialEq, Eq, Structural, Debug)]
pub enum OpfRead {
    Read,
    Zip(ZipError),
    Utf8,
}

#[derive(Clone, Copy, PartialEq, Eq, Structural, Debug)]
pub enum ZipAction {
    Finish(BuildEnd),
    /// Find the package document. Answer: `Container`.
    LoadContainer,
    /// Find its entry. Answer: `Found`.
    FindOpf,
    /// Read it as text. Answer: `Opf`.
    ReadOpf,
    /// Parse it. Answer: `Package`.
    ParseOpf,
    /// Take the book's labels over and forget its cover. Answer: `Done`.
    SetLabels,
    /// Forget the table of contents. Answer: `Done`.
    ClearToc,
    /// Read the table of contents and keep it on the card. Answer: `Done`.
    LoadToc,
    /// Make the cache directories. Answer: `Toc`.
    EnsureDirs,
    /// Start the capture. Answer: `Done`.
    StartCapture(CaptureMode),
    /// Resolve an item's path. Answer: `Resolved`.
    ResolveItem { item: usize },
    /// Find an item's entry. Answer: `Item`.
    FindItem { item: usize },
    /// Ask whether the slice stops before an item. Answer: `Went`.
    AskSuspendBefore { size: u32, walked: usize },
    /// Build an item's sections. Answer: `Built`.
    BuildItem { item: usize, spine: u16 },
    /// Ask whether the slice stops after an item. Answer: `Went`.
    AskSuspendHere { more: bool },
    /// Put the capture by, unfinished. Answer: `Capture`.
    SuspendCapture,
    /// Publish what there is of a first open. Answer: `Published`.
    PublishFirst { next_spine: u16 },
    /// Extend the index of a background walk. Answer: `Extended`.
    ExtendIndex { next_spine: u16, published: u16 },
    /// End the capture, keeping it only if it holds the whole book. Answer:
    /// `Done`.
    FinishCapture { keep: bool },
    /// Publish the whole book. Answer: `Outcome`.
    Publish { book_partial: bool },
    /// End a background walk under a reader who is in the book. Answer:
    /// `Published`.
    FinishBackground(PublishOutcome),
    /// Empty this layout's cache. Answer: `Done`.
    EmptyLayout,
}

#[derive(Clone, Copy, PartialEq, Eq, Structural, Debug)]
pub enum ZipReply {
    Done,
    Went(bool),
    Container(Option<EpubError>),
    Found(Option<ZipError>),
    Opf(OpfRead),
    /// The package, or why it would not parse.
    Package(PackageParse),
    Toc { is_empty: bool },
    Resolved(Option<ReaderCacheError>),
    Item(Option<u32>),
    /// What the item added to the sections, and why it failed if it did.
    Built { growth: Growth, error: Option<ReaderCacheError> },
    Capture { ok: bool, spine_count: u16 },
    Published(Option<PublishError>),
    Extended(ExtendEnd),
    Outcome(PublishOutcome),
}

#[derive(Clone, Copy, PartialEq, Eq, Structural, Debug)]
pub enum PackageParse {
    Parsed {
        /// The spine was longer than can be kept.
        spine_truncated: bool,
        /// The item the text starts at.
        start: usize,
        /// The archive can only be read forwards.
        forward_only: bool,
    },
    Failed(EpubError),
}

#[derive(Clone, Copy, PartialEq, Eq, Structural, Debug)]
pub enum ExtendEnd {
    Published(u16),
    Failed(PublishError),
}

/// How the walk over the spine ended.
#[derive(Clone, Copy, PartialEq, Eq, Structural, Debug)]
pub enum WalkEnd {
    Reached,
    Failed(ReaderCacheError),
}

#[derive(Clone, Copy, PartialEq, Eq, Structural, Debug)]
pub enum ZipStage {
    Over,
    Container,
    OpfFound,
    OpfRead,
    Parsed,
    Labels { forward_only: bool },
    Toc,
    Dirs,
    Captured,
    Resolved { item: usize },
    Found { item: usize },
    Before { item: usize },
    Built { item: usize },
    Here { item: usize },
    Suspended { next_spine: u16 },
    FirstPublished(BookBuildResume),
    Extended(BookBuildResume),
    Ended(WalkEnd),
    Published,
    Background,
    Emptied,
}

/// A build in progress.
#[derive(Clone, Copy, PartialEq, Eq, Structural, Debug)]
pub struct ZipBuild {
    /// The walk this step carries on, if it does.
    pub resume: Option<BookBuildResume>,
    pub index: u16,
    pub source: SourceIdentity,
    pub layout: u8,
    /// The item the text starts at.
    pub start: usize,
    /// The next item to look at.
    pub next: usize,
    /// How many sections the index can name, how many are built, those of the
    /// steps before this one included, and how many pages they hold.
    pub section_capacity: usize,
    pub section_count: usize,
    pub total_pages: u32,
    pub book_partial: bool,
    pub saw_spine: bool,
    pub generate_toc_from_headings: bool,
    /// Items this step has committed to.
    pub walked: usize,
}

#[derive(Clone, Copy, PartialEq, Eq, Structural, Debug)]
pub struct ZipStep {
    pub action: ZipAction,
    pub stage: ZipStage,
}

pub open spec fn zip(action: ZipAction, stage: ZipStage) -> ZipStep {
    ZipStep { action, stage }
}

pub open spec fn zip_failed(error: ReaderCacheError) -> ZipStep {
    zip(ZipAction::Finish(BuildEnd::Failed(error)), ZipStage::Over)
}

/// An item number as the index keeps it.
pub open spec fn spine_number(item: int) -> u16 {
    if item <= u16::MAX { item as u16 } else { u16::MAX }
}

/// Where the walk may begin: at the start of the text, and not before what
/// earlier steps have built.
pub open spec fn walk_floor(build: ZipBuild) -> int {
    let resumed = match build.resume {
        Some(state) => state.next_spine as int,
        None => 0,
    };
    if build.start >= resumed { build.start as int } else { resumed }
}

/// Whether an item is text to be built.
pub open spec fn is_text_item(item: SpineItem) -> bool {
    item.has_href && !item.is_navigation
}

/// The first item from `from` on that is text.
pub open spec fn text_item_from(items: Seq<SpineItem>, from: int) -> Option<int>
    decreases items.len() - from,
{
    if from < 0 || from >= items.len() {
        None
    } else if is_text_item(items[from]) {
        Some(from)
    } else {
        text_item_from(items, from + 1)
    }
}

/// The next item the walk builds.
pub open spec fn next_item(build: ZipBuild, items: Seq<SpineItem>) -> Option<int> {
    text_item_from(
        items,
        if build.next >= walk_floor(build) { build.next as int } else { walk_floor(build) },
    )
}

/// The walk goes on: with the next item, or to its end when there is none or
/// the index can name no more sections.
pub open spec fn walk_on(build: ZipBuild, items: Seq<SpineItem>) -> (ZipBuild, ZipStep) {
    match next_item(build, items) {
        Some(item) => if build.section_count >= build.section_capacity {
            let build = ZipBuild { book_partial: true, ..build };
            (build, walk_ended(build, WalkEnd::Reached))
        } else {
            (
                ZipBuild { saw_spine: true, next: item as usize, ..build },
                zip(
                    ZipAction::ResolveItem { item: item as usize },
                    ZipStage::Resolved { item: item as usize },
                ),
            )
        },
        None => (build, walk_ended(build, WalkEnd::Reached)),
    }
}

pub open spec fn whole_book(build: ZipBuild) -> bool {
    !build.book_partial && build.section_count > 0 && build.total_pages > 0
}

/// The capture is kept only when the walk took the whole book into it.
pub open spec fn walk_ended(build: ZipBuild, end: WalkEnd) -> ZipStep {
    zip(
        ZipAction::FinishCapture { keep: end is Reached && whole_book(build) },
        ZipStage::Ended(end),
    )
}

pub open spec fn suspending(next_spine: u16) -> ZipStep {
    zip(ZipAction::SuspendCapture, ZipStage::Suspended { next_spine })
}

/// Whether the steps before this one kept their capture. Once it has failed it
/// stays failed.
pub open spec fn capture_was_good(resume: Option<BookBuildResume>) -> bool {
    match resume {
        Some(state) => state.content_ok,
        None => true,
    }
}

/// The sections and pages after an item added to them.
pub open spec fn grown_by(build: ZipBuild, growth: Growth) -> ZipBuild {
    ZipBuild {
        section_count: if build.section_count + growth.sections <= usize::MAX {
            (build.section_count + growth.sections) as usize
        } else {
            usize::MAX
        },
        total_pages: if build.total_pages + growth.pages <= u32::MAX {
            (build.total_pages + growth.pages) as u32
        } else {
            u32::MAX
        },
        book_partial: build.book_partial || growth.partial,
        ..build
    }
}

/// What a suspended walk takes along.
pub open spec fn suspended_state(build: ZipBuild, next_spine: u16, content_ok: bool, content_spine_count: u16) -> BookBuildResume {
    BookBuildResume {
        index: build.index,
        source: build.source,
        next_spine,
        section_count: if build.section_count <= u16::MAX {
            build.section_count as u16
        } else {
            u16::MAX
        },
        total_pages: build.total_pages,
        book_partial: build.book_partial,
        generate_toc_from_headings: build.generate_toc_from_headings,
        content_ok: content_ok && capture_was_good(build.resume),
        content_spine_count,
        published_sections: 0,
        layout: build.layout,
    }
}

pub open spec fn capture_mode(resume: Option<BookBuildResume>) -> CaptureMode {
    match resume {
        None => CaptureMode::Begin,
        Some(state) => if state.content_ok {
            CaptureMode::Resume { spine_count: state.content_spine_count }
        } else {
            CaptureMode::Disabled
        },
    }
}

/// The stages before the walk.
pub open spec fn prepare_next(build: ZipBuild, stage: ZipStage, reply: ZipReply, items: Seq<SpineItem>) -> Option<(ZipBuild, ZipStep)> {
    match (stage, reply) {
        (ZipStage::Container, ZipReply::Container(error)) => Some(
            (
                build,
                match error {
                    Some(EpubError::Zip(error)) => zip_failed(ReaderCacheError::Zip(error)),
                    Some(EpubError::Utf8) => zip_failed(ReaderCacheError::Utf8),
                    Some(error) => zip_failed(ReaderCacheError::Epub(error)),
                    None => zip(ZipAction::FindOpf, ZipStage::OpfFound),
                },
            ),
        ),
        (ZipStage::OpfFound, ZipReply::Found(error)) => Some(
            (
                build,
                match error {
                    Some(error) => zip_failed(ReaderCacheError::Zip(error)),
                    None => zip(ZipAction::ReadOpf, ZipStage::OpfRead),
                },
            ),
        ),
        (ZipStage::OpfRead, ZipReply::Opf(read)) => Some(
            (
                build,
                match read {
                    OpfRead::Zip(error) => zip_failed(ReaderCacheError::Zip(error)),
                    OpfRead::Utf8 => zip_failed(ReaderCacheError::Utf8),
                    OpfRead::Read => zip(ZipAction::ParseOpf, ZipStage::Parsed),
                },
            ),
        ),
        (ZipStage::Parsed, ZipReply::Package(parse)) => Some(
            match parse {
                PackageParse::Failed(error) => (build, zip_failed(ReaderCacheError::Epub(error))),
                PackageParse::Parsed { spine_truncated, start, forward_only } => (
                    ZipBuild {
                        start,
                        book_partial: build.book_partial || spine_truncated,
                        ..build
                    },
                    if build.resume is None {
                        zip(ZipAction::SetLabels, ZipStage::Labels { forward_only })
                    } else if forward_only {
                        zip(ZipAction::ClearToc, ZipStage::Toc)
                    } else {
                        zip(ZipAction::EnsureDirs, ZipStage::Dirs)
                    },
                ),
            },
        ),
        (ZipStage::Labels { forward_only }, ZipReply::Done) => Some(
            (
                build,
                zip(
                    if forward_only { ZipAction::ClearToc } else { ZipAction::LoadToc },
                    ZipStage::Toc,
                ),
            ),
        ),
        (ZipStage::Toc, ZipReply::Done) => Some((build, zip(ZipAction::EnsureDirs, ZipStage::Dirs))),
        (ZipStage::Dirs, ZipReply::Toc { is_empty }) => Some(
            (
                ZipBuild {
                    generate_toc_from_headings: match build.resume {
                        Some(state) => state.generate_toc_from_headings,
                        None => is_empty,
                    },
                    ..build
                },
                zip(ZipAction::StartCapture(capture_mode(build.resume)), ZipStage::Captured),
            ),
        ),
        (ZipStage::Captured, ZipReply::Done) => Some(walk_on(build, items)),
        _ => None,
    }
}

/// The stages of the walk.
pub open spec fn walk_next(build: ZipBuild, stage: ZipStage, reply: ZipReply, items: Seq<SpineItem>) -> Option<(ZipBuild, ZipStep)> {
    match (stage, reply) {
        (ZipStage::Resolved { item }, ZipReply::Resolved(error)) => Some(
            (
                build,
                match error {
                    Some(error) => walk_ended(build, WalkEnd::Failed(error)),
                    None => zip(ZipAction::FindItem { item }, ZipStage::Found { item }),
                },
            ),
        ),
        (ZipStage::Found { item }, ZipReply::Item(size)) => Some(
            match size {
                Some(size) => (
                    build,
                    zip(
                        ZipAction::AskSuspendBefore { size, walked: build.walked },
                        ZipStage::Before { item },
                    ),
                ),
                None => walk_on(ZipBuild { next: past(item), ..build }, items),
            },
        ),
        (ZipStage::Before { item }, ZipReply::Went(suspend)) => Some(
            if suspend {
                (build, suspending(spine_number(item as int)))
            } else {
                (
                    ZipBuild {
                        walked: if build.walked < usize::MAX {
                            (build.walked + 1) as usize
                        } else {
                            usize::MAX
                        },
                        ..build
                    },
                    zip(
                        ZipAction::BuildItem { item, spine: spine_number(item as int) },
                        ZipStage::Built { item },
                    ),
                )
            },
        ),
        (ZipStage::Built { item }, ZipReply::Built { growth, error }) => {
            let build = grown_by(build, growth);
            Some(
                (
                    build,
                    match error {
                        Some(error) => walk_ended(build, WalkEnd::Failed(error)),
                        None => zip(
                            ZipAction::AskSuspendHere { more: item + 1 < items.len() },
                            ZipStage::Here { item },
                        ),
                    },
                ),
            )
        },
        (ZipStage::Here { item }, ZipReply::Went(suspend)) => Some(
            if suspend {
                (build, suspending(spine_number(spine_number(item as int) + 1)))
            } else {
                walk_on(ZipBuild { next: past(item), ..build }, items)
            },
        ),
        _ => None,
    }
}

pub open spec fn past(item: usize) -> usize {
    if item < usize::MAX { (item + 1) as usize } else { usize::MAX }
}

/// The stages after the walk.
pub open spec fn close_next(build: ZipBuild, stage: ZipStage, reply: ZipReply) -> Option<(ZipBuild, ZipStep)> {
    match (stage, reply) {
        (ZipStage::Suspended { next_spine }, ZipReply::Capture { ok, spine_count }) => {
            let state = suspended_state(build, next_spine, ok, spine_count);
            Some(
                (
                    build,
                    match build.resume {
                        None => zip(
                            ZipAction::PublishFirst { next_spine },
                            ZipStage::FirstPublished(state),
                        ),
                        Some(previous) => zip(
                            ZipAction::ExtendIndex {
                                next_spine,
                                published: previous.published_sections,
                            },
                            ZipStage::Extended(state),
                        ),
                    },
                ),
            )
        },
        (ZipStage::FirstPublished(state), ZipReply::Published(error)) => Some(
            (
                build,
                match error {
                    Some(error) => zip_failed(publish_failure(error)),
                    None => zip(
                        ZipAction::Finish(
                            BuildEnd::Suspended(
                                BookBuildResume {
                                    published_sections: state.section_count,
                                    ..state
                                },
                            ),
                        ),
                        ZipStage::Over,
                    ),
                },
            ),
        ),
        (ZipStage::Extended(state), ZipReply::Extended(end)) => Some(
            (
                build,
                match end {
                    ExtendEnd::Failed(error) => zip_failed(publish_failure(error)),
                    ExtendEnd::Published(published_sections) => zip(
                        ZipAction::Finish(
                            BuildEnd::Suspended(BookBuildResume { published_sections, ..state }),
                        ),
                        ZipStage::Over,
                    ),
                },
            ),
        ),
        (ZipStage::Ended(end), ZipReply::Done) => Some(
            (
                build,
                match end {
                    WalkEnd::Failed(error) => zip_failed(error),
                    WalkEnd::Reached => if build.section_count > 0 && build.total_pages > 0 {
                        zip(
                            ZipAction::Publish {
                                book_partial: build.book_partial,
                            },
                            ZipStage::Published,
                        )
                    } else if build.saw_spine {
                        zip_failed(ReaderCacheError::NoBodyText)
                    } else {
                        zip_failed(ReaderCacheError::MissingSpine)
                    },
                },
            ),
        ),
        (ZipStage::Published, ZipReply::Outcome(outcome)) => Some(
            (
                build,
                if build.resume is Some {
                    zip(ZipAction::FinishBackground(outcome), ZipStage::Background)
                } else {
                    match outcome {
                        PublishOutcome::Ready => zip(
                            ZipAction::Finish(BuildEnd::Whole),
                            ZipStage::Over,
                        ),
                        PublishOutcome::SectionReadFailed => zip_failed(
                            ReaderCacheError::SectionRead,
                        ),
                        PublishOutcome::IndexWriteFailed => zip(
                            ZipAction::EmptyLayout,
                            ZipStage::Emptied,
                        ),
                    }
                },
            ),
        ),
        (ZipStage::Background, ZipReply::Published(error)) => Some(
            (
                build,
                match error {
                    Some(error) => zip_failed(publish_failure(error)),
                    None => zip(ZipAction::Finish(BuildEnd::Whole), ZipStage::Over),
                },
            ),
        ),
        (ZipStage::Emptied, ZipReply::Done) => Some(
            (build, zip_failed(ReaderCacheError::IndexWrite)),
        ),
        _ => None,
    }
}

pub open spec fn publish_failure(error: PublishError) -> ReaderCacheError {
    match error {
        PublishError::IndexWrite => ReaderCacheError::IndexWrite,
        PublishError::SectionRead => ReaderCacheError::SectionRead,
    }
}

/// The machine.
pub open spec fn zip_next(build: ZipBuild, stage: ZipStage, reply: ZipReply, items: Seq<SpineItem>) -> Option<(ZipBuild, ZipStep)> {
    if prepare_next(build, stage, reply, items) is Some {
        prepare_next(build, stage, reply, items)
    } else if walk_next(build, stage, reply, items) is Some {
        walk_next(build, stage, reply, items)
    } else {
        close_next(build, stage, reply)
    }
}

fn go(action: ZipAction, stage: ZipStage) -> (step: ZipStep)
    ensures
        step == zip(action, stage),
{
    ZipStep { action, stage }
}

fn fail(error: ReaderCacheError) -> (step: ZipStep)
    ensures
        step == zip_failed(error),
{
    ZipStep { action: ZipAction::Finish(BuildEnd::Failed(error)), stage: ZipStage::Over }
}

fn number(item: usize) -> (number: u16)
    ensures
        number == spine_number(item as int),
{
    if item <= u16::MAX as usize {
        item as u16
    } else {
        u16::MAX
    }
}

/// What reading an item came to: a parse error counts only if the sink had
/// not stopped taking text by itself.
pub fn item_outcome(
    read_error: Option<ZipError>,
    parse_failed: bool,
    sink_stopped: bool,
) -> (error: Option<ReaderCacheError>)
    ensures
        error == what_stopped(read_error, parse_failed, sink_stopped),
        error == if parse_failed {
            if sink_stopped { None } else { Some(ReaderCacheError::XhtmlFull) }
        } else {
            match read_error {
                Some(error) => Some(ReaderCacheError::Zip(error)),
                None => None,
            }
        },
{
    if parse_failed {
        return if sink_stopped {
            None
        } else {
            Some(ReaderCacheError::XhtmlFull)
        };
    }
    match read_error {
        Some(error) => Some(ReaderCacheError::Zip(error)),
        None => None,
    }
}

/// `<body` in bytes.
pub open spec fn body_tag() -> Seq<u8> {
    seq![60u8, 98u8, 111u8, 100u8, 121u8]
}

/// `:body` in bytes, for a document that qualifies its names.
pub open spec fn qualified_body_tag() -> Seq<u8> {
    seq![58u8, 98u8, 111u8, 100u8, 121u8]
}

/// Whether a document is taken to be in its body from the start: unless its
/// first window opens one.
pub fn starts_in_body(first_window: &[u8]) -> (assumed: bool)
    ensures
        assumed == body_assumed(first_window@),
        assumed == !(holds(first_window@, body_tag()) || holds(
            first_window@,
            qualified_body_tag(),
        )),
{
    let tag: [u8; 5] = [60u8, 98u8, 111u8, 100u8, 121u8];
    let qualified: [u8; 5] = [58u8, 98u8, 111u8, 100u8, 121u8];
    assert(tag@ =~= body_tag());
    assert(qualified@ =~= qualified_body_tag());
    !(bytes_contain(first_window, tag.as_slice()) || bytes_contain(
        first_window,
        qualified.as_slice(),
    ))
}

impl ZipBuild {
    /// Begins a build, from the start of the book or where a suspended walk
    /// left off, whose sections and pages it goes on counting from.
    pub fn begin(index: u16, source: SourceIdentity, layout: u8, section_capacity: usize, resume: Option<BookBuildResume>) -> (begun: (
        ZipBuild,
        ZipStep,
    ))
        ensures
            begun.0 == (ZipBuild {
                resume,
                index,
                source,
                layout,
                start: 0,
                next: 0,
                section_capacity,
                section_count: match resume {
                    Some(state) => state.section_count as usize,
                    None => 0,
                },
                total_pages: match resume {
                    Some(state) => state.total_pages,
                    None => 0,
                },
                book_partial: match resume {
                    Some(state) => state.book_partial,
                    None => false,
                },
                saw_spine: resume is Some,
                generate_toc_from_headings: false,
                walked: 0,
            }),
            begun.1 == zip(ZipAction::LoadContainer, ZipStage::Container),
    {
        let (section_count, total_pages, book_partial, saw_spine) = match resume {
            Some(state) => (
                state.section_count as usize,
                state.total_pages,
                state.book_partial,
                true,
            ),
            None => (0, 0, false, false),
        };
        (
            ZipBuild {
                resume,
                index,
                source,
                layout,
                start: 0,
                next: 0,
                section_capacity,
                section_count,
                total_pages,
                book_partial,
                saw_spine,
                generate_toc_from_headings: false,
                walked: 0,
            },
            go(ZipAction::LoadContainer, ZipStage::Container),
        )
    }

    fn next_text_item(&self, items: &Vec<SpineItem>) -> (item: Option<usize>)
        ensures
            match item {
                Some(at) => next_item(*self, items@) == Some(at as int) && at < items@.len(),
                None => next_item(*self, items@) is None,
            },
    {
        let resumed: usize = match self.resume {
            Some(state) => state.next_spine as usize,
            None => 0,
        };
        let floor: usize = if self.start >= resumed { self.start } else { resumed };
        let from: usize = if self.next >= floor { self.next } else { floor };
        let mut at: usize = from;
        while at < items.len()
            invariant
                from == (if self.next >= walk_floor(*self) {
                    self.next as int
                } else {
                    walk_floor(*self)
                }),
                text_item_from(items@, from as int) == text_item_from(items@, at as int),
            decreases items@.len() - at,
        {
            if items[at].has_href && !items[at].is_navigation {
                return Some(at);
            }
            at += 1;
        }
        None
    }

    fn walk_ended(&self, end: WalkEnd) -> (step: ZipStep)
        ensures
            step == walk_ended(*self, end),
    {
        let reached: bool = matches!(end, WalkEnd::Reached);
        let keep: bool = reached && !self.book_partial && self.section_count > 0
            && self.total_pages > 0;
        go(ZipAction::FinishCapture { keep }, ZipStage::Ended(end))
    }

    fn walk_on(&mut self, items: &Vec<SpineItem>) -> (step: ZipStep)
        ensures
            (*final(self), step) == walk_on(*old(self), items@),
    {
        match self.next_text_item(items) {
            Some(item) => {
                if self.section_count >= self.section_capacity {
                    self.book_partial = true;
                    return self.walk_ended(WalkEnd::Reached);
                }
                self.saw_spine = true;
                self.next = item;
                go(ZipAction::ResolveItem { item }, ZipStage::Resolved { item })
            },
            None => self.walk_ended(WalkEnd::Reached),
        }
    }

    fn advance_prepare(&mut self, stage: ZipStage, reply: ZipReply, items: &Vec<SpineItem>) -> (step: Option<ZipStep>)
        ensures
            match prepare_next(*old(self), stage, reply, items@) {
                Some(next) => step == Some(next.1) && *final(self) == next.0,
                None => step is None && *final(self) == *old(self),
            },
    {
        match (stage, reply) {
            (ZipStage::Container, ZipReply::Container(error)) => match error {
                Some(error) => Some(fail(container_error(error))),
                None => Some(go(ZipAction::FindOpf, ZipStage::OpfFound)),
            },
            (ZipStage::OpfFound, ZipReply::Found(error)) => match error {
                Some(error) => Some(fail(ReaderCacheError::Zip(error))),
                None => Some(go(ZipAction::ReadOpf, ZipStage::OpfRead)),
            },
            (ZipStage::OpfRead, ZipReply::Opf(read)) => match read {
                OpfRead::Zip(error) => Some(fail(ReaderCacheError::Zip(error))),
                OpfRead::Utf8 => Some(fail(ReaderCacheError::Utf8)),
                OpfRead::Read => Some(go(ZipAction::ParseOpf, ZipStage::Parsed)),
            },
            (ZipStage::Parsed, ZipReply::Package(parse)) => match parse {
                PackageParse::Failed(error) => Some(fail(ReaderCacheError::Epub(error))),
                PackageParse::Parsed { spine_truncated, start, forward_only } => {
                    self.start = start;
                    self.book_partial = self.book_partial || spine_truncated;
                    Some(
                        if self.resume.is_none() {
                            go(ZipAction::SetLabels, ZipStage::Labels { forward_only })
                        } else if forward_only {
                            go(ZipAction::ClearToc, ZipStage::Toc)
                        } else {
                            go(ZipAction::EnsureDirs, ZipStage::Dirs)
                        },
                    )
                },
            },
            (ZipStage::Labels { forward_only }, ZipReply::Done) => Some(
                go(
                    if forward_only {
                        ZipAction::ClearToc
                    } else {
                        ZipAction::LoadToc
                    },
                    ZipStage::Toc,
                ),
            ),
            (ZipStage::Toc, ZipReply::Done) => Some(go(ZipAction::EnsureDirs, ZipStage::Dirs)),
            (ZipStage::Dirs, ZipReply::Toc { is_empty }) => {
                let mode = match self.resume {
                    None => {
                        self.generate_toc_from_headings = is_empty;
                        CaptureMode::Begin
                    },
                    Some(state) => {
                        self.generate_toc_from_headings = state.generate_toc_from_headings;
                        if state.content_ok {
                            CaptureMode::Resume { spine_count: state.content_spine_count }
                        } else {
                            CaptureMode::Disabled
                        }
                    },
                };
                Some(go(ZipAction::StartCapture(mode), ZipStage::Captured))
            },
            (ZipStage::Captured, ZipReply::Done) => Some(self.walk_on(items)),
            _ => None,
        }
    }

    fn advance_walk(&mut self, stage: ZipStage, reply: ZipReply, items: &Vec<SpineItem>) -> (step: Option<ZipStep>)
        ensures
            match walk_next(*old(self), stage, reply, items@) {
                Some(next) => step == Some(next.1) && *final(self) == next.0,
                None => step is None && *final(self) == *old(self),
            },
    {
        match (stage, reply) {
            (ZipStage::Resolved { item }, ZipReply::Resolved(error)) => match error {
                Some(error) => Some(self.walk_ended(WalkEnd::Failed(error))),
                None => Some(go(ZipAction::FindItem { item }, ZipStage::Found { item })),
            },
            (ZipStage::Found { item }, ZipReply::Item(size)) => match size {
                Some(size) => Some(
                    go(
                        ZipAction::AskSuspendBefore { size, walked: self.walked },
                        ZipStage::Before { item },
                    ),
                ),
                None => {
                    self.next = item.saturating_add(1);
                    Some(self.walk_on(items))
                },
            },
            (ZipStage::Before { item }, ZipReply::Went(suspend)) => {
                if suspend {
                    return Some(
                        go(
                            ZipAction::SuspendCapture,
                            ZipStage::Suspended { next_spine: number(item) },
                        ),
                    );
                }
                self.walked = self.walked.saturating_add(1);
                Some(
                    go(
                        ZipAction::BuildItem { item, spine: number(item) },
                        ZipStage::Built { item },
                    ),
                )
            },
            (ZipStage::Built { item }, ZipReply::Built { growth, error }) => {
                self.section_count = self.section_count.saturating_add(growth.sections);
                self.total_pages = self.total_pages.saturating_add(growth.pages);
                self.book_partial = self.book_partial || growth.partial;
                match error {
                    Some(error) => Some(self.walk_ended(WalkEnd::Failed(error))),
                    None => {
                        let more: bool = item < items.len() && item + 1 < items.len();
                        Some(go(ZipAction::AskSuspendHere { more }, ZipStage::Here { item }))
                    },
                }
            },
            (ZipStage::Here { item }, ZipReply::Went(suspend)) => {
                if suspend {
                    Some(
                        go(
                            ZipAction::SuspendCapture,
                            ZipStage::Suspended { next_spine: number(item).saturating_add(1) },
                        ),
                    )
                } else {
                    self.next = item.saturating_add(1);
                    Some(self.walk_on(items))
                }
            },
            _ => None,
        }
    }

    fn advance_close(&mut self, stage: ZipStage, reply: ZipReply) -> (step: Option<ZipStep>)
        ensures
            match close_next(*old(self), stage, reply) {
                Some(next) => step == Some(next.1) && *final(self) == next.0,
                None => step is None && *final(self) == *old(self),
            },
    {
        match (stage, reply) {
            (ZipStage::Suspended { next_spine }, ZipReply::Capture { ok, spine_count }) => {
                let state = BookBuildResume {
                    index: self.index,
                    source: self.source,
                    next_spine,
                    section_count: number(self.section_count),
                    total_pages: self.total_pages,
                    book_partial: self.book_partial,
                    generate_toc_from_headings: self.generate_toc_from_headings,
                    content_ok: ok && match self.resume {
                        Some(previous) => previous.content_ok,
                        None => true,
                    },
                    content_spine_count: spine_count,
                    published_sections: 0,
                    layout: self.layout,
                };
                match self.resume {
                    None => Some(
                        go(
                            ZipAction::PublishFirst { next_spine },
                            ZipStage::FirstPublished(state),
                        ),
                    ),
                    Some(previous) => Some(
                        go(
                            ZipAction::ExtendIndex {
                                next_spine,
                                published: previous.published_sections,
                            },
                            ZipStage::Extended(state),
                        ),
                    ),
                }
            },
            (ZipStage::FirstPublished(state), ZipReply::Published(error)) => match error {
                Some(error) => Some(fail(from_publish(error))),
                None => Some(
                    go(
                        ZipAction::Finish(
                            BuildEnd::Suspended(
                                BookBuildResume {
                                    published_sections: state.section_count,
                                    ..state
                                },
                            ),
                        ),
                        ZipStage::Over,
                    ),
                ),
            },
            (ZipStage::Extended(state), ZipReply::Extended(end)) => match end {
                ExtendEnd::Failed(error) => Some(fail(from_publish(error))),
                ExtendEnd::Published(published_sections) => Some(
                    go(
                        ZipAction::Finish(
                            BuildEnd::Suspended(BookBuildResume { published_sections, ..state }),
                        ),
                        ZipStage::Over,
                    ),
                ),
            },
            (ZipStage::Ended(end), ZipReply::Done) => match end {
                WalkEnd::Failed(error) => Some(fail(error)),
                WalkEnd::Reached => {
                    if self.section_count > 0 && self.total_pages > 0 {
                        Some(
                            go(
                                ZipAction::Publish {
                                    book_partial: self.book_partial,
                                },
                                ZipStage::Published,
                            ),
                        )
                    } else if self.saw_spine {
                        Some(fail(ReaderCacheError::NoBodyText))
                    } else {
                        Some(fail(ReaderCacheError::MissingSpine))
                    }
                },
            },
            (ZipStage::Published, ZipReply::Outcome(outcome)) => {
                if self.resume.is_some() {
                    return Some(go(ZipAction::FinishBackground(outcome), ZipStage::Background));
                }
                match outcome {
                    PublishOutcome::Ready => Some(
                        go(ZipAction::Finish(BuildEnd::Whole), ZipStage::Over),
                    ),
                    PublishOutcome::SectionReadFailed => Some(fail(ReaderCacheError::SectionRead)),
                    PublishOutcome::IndexWriteFailed => Some(
                        go(ZipAction::EmptyLayout, ZipStage::Emptied),
                    ),
                }
            },
            (ZipStage::Background, ZipReply::Published(error)) => match error {
                Some(error) => Some(fail(from_publish(error))),
                None => Some(go(ZipAction::Finish(BuildEnd::Whole), ZipStage::Over)),
            },
            (ZipStage::Emptied, ZipReply::Done) => Some(fail(ReaderCacheError::IndexWrite)),
            _ => None,
        }
    }

    /// What the answer to the last action does. `None`, with nothing changed,
    /// when the stage is not waiting for that kind of answer.
    pub fn advance(&mut self, stage: ZipStage, reply: ZipReply, items: &Vec<SpineItem>) -> (step: Option<ZipStep>)
        ensures
            match zip_next(*old(self), stage, reply, items@) {
                Some(next) => step == Some(next.1) && *final(self) == next.0,
                None => step is None && *final(self) == *old(self),
            },
    {
        if let Some(step) = self.advance_prepare(stage, reply, items) {
            return Some(step);
        }
        if let Some(step) = self.advance_walk(stage, reply, items) {
            return Some(step);
        }
        self.advance_close(stage, reply)
    }
}

proof fn lemma_text_item(items: Seq<SpineItem>, from: int)
    requires
        0 <= from,
    ensures
        text_item_from(items, from) matches Some(at) ==> from <= at < items.len() && is_text_item(
            items[at],
        ) && forall|i: int| from <= i < at ==> !is_text_item(#[trigger] items[i]),
    decreases items.len() - from,
{
    if from < items.len() && !is_text_item(items[from]) {
        lemma_text_item(items, from + 1);
    }
}

/// The walk takes the items in order and skips none that is text: the next
/// item lies at or past where the walk stands, at or past what a suspended
/// walk had built and where the text starts, and nothing between is text.
pub proof fn law_walk_skips_no_text(build: ZipBuild, items: Seq<SpineItem>)
    ensures
        next_item(build, items) matches Some(item) ==> {
            &&& build.next <= item < items.len()
            &&& walk_floor(build) <= item
            &&& is_text_item(items[item])
            &&& forall|i: int|
                build.next <= i < item && walk_floor(build) <= i ==> !is_text_item(
                    #[trigger] items[i],
                )
        },
{
    lemma_text_item(
        items,
        if build.next >= walk_floor(build) { build.next as int } else { walk_floor(build) },
    );
}

/// A walk that stopped before an item takes that item up again; one that
/// stopped after an item takes up the one behind it. Either way what the next
/// step builds begins where this one ended.
pub proof fn law_suspended_walk_resumes_where_it_stopped(
    build: ZipBuild,
    items: Seq<SpineItem>,
    item: usize,
)
    requires
        item < u16::MAX,
    ensures
        zip_next(build, ZipStage::Before { item }, ZipReply::Went(true), items) matches Some(next)
            && next.1.stage == (ZipStage::Suspended { next_spine: item as u16 }),
        zip_next(build, ZipStage::Here { item }, ZipReply::Went(true), items) matches Some(next)
            && next.1.stage == (ZipStage::Suspended { next_spine: (item + 1) as u16 }),
{
}

/// A suspended walk is of the book, the row and the layout it was begun for,
/// and takes the sections and pages built so far along.
pub proof fn law_suspended_walk_is_its_own(build: ZipBuild, stage: ZipStage, reply: ZipReply, items: Seq<SpineItem>)
    requires
        stage is Suspended,
    ensures
        zip_next(build, stage, reply, items) matches Some(next) ==> {
            let state = if next.1.stage is FirstPublished {
                next.1.stage->FirstPublished_0
            } else {
                next.1.stage->Extended_0
            };
            &&& state.is_of(build.index as int, build.source, build.layout)
            &&& state.next_spine == stage->Suspended_next_spine
            &&& state.total_pages == build.total_pages
            &&& build.section_count <= u16::MAX ==> state.section_count == build.section_count
        },
{
}

/// The captured text is kept only when the walk reached the end of the book
/// and took all of it.
pub proof fn law_capture_kept_is_whole(build: ZipBuild, stage: ZipStage, reply: ZipReply, items: Seq<SpineItem>)
    ensures
        zip_next(build, stage, reply, items) matches Some(next) ==> (next.1.action
            == (ZipAction::FinishCapture { keep: true }) ==> next.1.stage == ZipStage::Ended(
            WalkEnd::Reached,
        ) && whole_book(next.0)),
{
}

/// A layout's cache is emptied only on a book's own open, never under a
/// reader who is already inside the book.
pub proof fn law_background_failure_empties_nothing(build: ZipBuild, stage: ZipStage, reply: ZipReply, items: Seq<SpineItem>)
    requires
        build.resume is Some,
    ensures
        zip_next(build, stage, reply, items) matches Some(next) ==> !(next.1.action
            is EmptyLayout),
{
}

/// The item a stage is at.
pub open spec fn item_of(stage: ZipStage) -> Option<usize> {
    match stage {
        ZipStage::Resolved { item } => Some(item),
        ZipStage::Found { item } => Some(item),
        ZipStage::Before { item } => Some(item),
        ZipStage::Built { item } => Some(item),
        ZipStage::Here { item } => Some(item),
        _ => None,
    }
}

/// Holds of every stage a build reaches once it walks.
pub open spec fn walk_invariant(build: ZipBuild, stage: ZipStage, items: Seq<SpineItem>) -> bool {
    &&& items.len() < usize::MAX
    &&& item_of(stage) matches Some(item) ==> {
        &&& build.next == item
        &&& item < items.len()
        &&& walk_floor(build) <= item
        &&& is_text_item(items[item as int])
    }
}

proof fn lemma_walk_on(build: ZipBuild, items: Seq<SpineItem>)
    requires
        items.len() < usize::MAX,
    ensures
        ({
            let next = walk_on(build, items);
            &&& walk_invariant(next.0, next.1.stage, items)
            &&& item_of(next.1.stage) matches Some(item) ==> build.next <= item
        }),
{
    law_walk_skips_no_text(build, items);
}

/// What one answer may do to the walk.
pub open spec fn in_order(build: ZipBuild, stage: ZipStage, next: (ZipBuild, ZipStep), items: Seq<SpineItem>) -> bool {
    &&& walk_invariant(next.0, next.1.stage, items)
    &&& item_of(stage) is Some && item_of(next.1.stage) is Some ==> if next.1.stage is Resolved {
        item_of(stage)->0 < item_of(next.1.stage)->0
    } else {
        item_of(stage) == item_of(next.1.stage)
    }
    &&& next.1.action matches ZipAction::BuildItem { item, .. } ==> is_text_item(
        items[item as int],
    ) && walk_floor(build) <= item < items.len()
}

proof fn lemma_prepare_in_order(build: ZipBuild, stage: ZipStage, reply: ZipReply, items: Seq<SpineItem>)
    requires
        walk_invariant(build, stage, items),
    ensures
        prepare_next(build, stage, reply, items) matches Some(next) ==> in_order(
            build,
            stage,
            next,
            items,
        ),
{
    lemma_walk_on(build, items);
}

proof fn lemma_walk_in_order(build: ZipBuild, stage: ZipStage, reply: ZipReply, items: Seq<SpineItem>)
    requires
        walk_invariant(build, stage, items),
    ensures
        walk_next(build, stage, reply, items) matches Some(next) ==> in_order(
            build,
            stage,
            next,
            items,
        ),
{
    if let Some(item) = item_of(stage) {
        let past_it = ZipBuild { next: past(item), ..build };
        lemma_walk_on(past_it, items);
        assert(past(item) == item + 1);
    }
}

proof fn lemma_close_in_order(build: ZipBuild, stage: ZipStage, reply: ZipReply, items: Seq<SpineItem>)
    requires
        walk_invariant(build, stage, items),
    ensures
        close_next(build, stage, reply) matches Some(next) ==> in_order(
            build,
            stage,
            next,
            items,
        ),
{
}

/// The items are built in order and none twice: once an item is left, the
/// next one lies behind it; and every item that is built is text, at or past
/// where the text starts and where a suspended walk left off.
pub proof fn law_items_are_built_in_order(build: ZipBuild, stage: ZipStage, reply: ZipReply, items: Seq<SpineItem>)
    requires
        walk_invariant(build, stage, items),
    ensures
        zip_next(build, stage, reply, items) matches Some(next) ==> in_order(
            build,
            stage,
            next,
            items,
        ),
{
    lemma_prepare_in_order(build, stage, reply, items);
    lemma_walk_in_order(build, stage, reply, items);
    lemma_close_in_order(build, stage, reply, items);
}

/// The counters of a build are those of its section table: where they agree
/// before an item, and the item's growth is what the table grew by, they
/// agree after it.
pub proof fn law_counters_follow_the_table(build: ZipBuild, growth: Growth, sections: usize, pages: u32)
    requires
        build.section_count <= sections,
        build.total_pages <= pages,
        growth.sections == sections - build.section_count,
        growth.pages == pages - build.total_pages,
    ensures
        grown_by(build, growth).section_count == sections,
        grown_by(build, growth).total_pages == pages,
{
}

/// A build as it runs.
pub struct ZipRun {
    pub build: ZipBuild,
    pub stage: ZipStage,
    pub action: ZipAction,
}

/// One more answer. One the stage is not waiting for changes nothing.
pub open spec fn zip_extend(run: ZipRun, reply: ZipReply, items: Seq<SpineItem>) -> ZipRun {
    match zip_next(run.build, run.stage, reply, items) {
        Some(next) => ZipRun { build: next.0, stage: next.1.stage, action: next.1.action },
        None => run,
    }
}

/// A build that was begun, fed answers in order.
pub open spec fn zip_run(begun: ZipBuild, items: Seq<SpineItem>, replies: Seq<ZipReply>) -> ZipRun
    decreases replies.len(),
{
    if replies.len() == 0 {
        ZipRun { build: begun, stage: ZipStage::Container, action: ZipAction::LoadContainer }
    } else {
        zip_extend(zip_run(begun, items, replies.drop_last()), replies.last(), items)
    }
}

/// Whether a suspended walk goes on from `resume`: it is of the same book,
/// row and layout as the build, reaches no less far, and forgets nothing that
/// the steps before had settled.
pub open spec fn goes_on_from(state: BookBuildResume, resume: BookBuildResume, build: ZipBuild) -> bool {
    &&& state.is_of(build.index as int, build.source, build.layout)
    &&& state.next_spine >= resume.next_spine
    &&& state.section_count >= resume.section_count
    &&& state.total_pages >= resume.total_pages
    &&& resume.book_partial ==> state.book_partial
    &&& state.generate_toc_from_headings == resume.generate_toc_from_headings
    &&& state.content_ok ==> resume.content_ok
}

/// The walk a stage is about to hand on, but for what is published of it.
pub open spec fn state_of(stage: ZipStage) -> Option<BookBuildResume> {
    match stage {
        ZipStage::FirstPublished(state) => Some(state),
        ZipStage::Extended(state) => Some(state),
        _ => None,
    }
}

/// Whether the capture was started, which fixes where the table of contents
/// comes from.
pub open spec fn capture_started(stage: ZipStage) -> bool {
    stage is Captured || item_of(stage) is Some || stage is Suspended || state_of(stage) is Some
}

/// Holds of every stage of a build that carries on a suspended walk.
pub open spec fn resumed_invariant(run: ZipRun, begun: ZipBuild, items: Seq<SpineItem>) -> bool {
    let build = run.build;
    let resume = begun.resume->0;
    &&& walk_invariant(build, run.stage, items)
    &&& build.resume == begun.resume
    &&& build.index == begun.index && build.source == begun.source && build.layout == begun.layout
    &&& build.section_count >= resume.section_count
    &&& build.total_pages >= resume.total_pages
    &&& resume.book_partial ==> build.book_partial
    &&& capture_started(run.stage) ==> build.generate_toc_from_headings
        == resume.generate_toc_from_headings
    &&& run.stage matches ZipStage::Suspended { next_spine } ==> next_spine >= resume.next_spine
    &&& state_of(run.stage) matches Some(state) ==> goes_on_from(state, resume, begun)
    &&& run.action matches ZipAction::Finish(BuildEnd::Suspended(state)) ==> goes_on_from(
        state,
        resume,
        begun,
    )
}

proof fn lemma_resumed_step(run: ZipRun, begun: ZipBuild, items: Seq<SpineItem>, reply: ZipReply)
    requires
        begun.resume is Some,
        resumed_invariant(run, begun, items),
    ensures
        resumed_invariant(zip_extend(run, reply, items), begun, items),
{
    law_items_are_built_in_order(run.build, run.stage, reply, items);
    lemma_resumed_prepare(run, begun, items, reply);
    lemma_resumed_walk(run, begun, items, reply);
    lemma_resumed_close(run, begun, items, reply);
}

proof fn lemma_resumed_prepare(run: ZipRun, begun: ZipBuild, items: Seq<SpineItem>, reply: ZipReply)
    requires
        begun.resume is Some,
        resumed_invariant(run, begun, items),
    ensures
        prepare_next(run.build, run.stage, reply, items) matches Some(next) ==> resumed_invariant(
            ZipRun { build: next.0, stage: next.1.stage, action: next.1.action },
            begun,
            items,
        ),
{
    lemma_prepare_in_order(run.build, run.stage, reply, items);
}

proof fn lemma_resumed_walk(run: ZipRun, begun: ZipBuild, items: Seq<SpineItem>, reply: ZipReply)
    requires
        begun.resume is Some,
        resumed_invariant(run, begun, items),
    ensures
        walk_next(run.build, run.stage, reply, items) matches Some(next) ==> resumed_invariant(
            ZipRun { build: next.0, stage: next.1.stage, action: next.1.action },
            begun,
            items,
        ),
{
    lemma_walk_in_order(run.build, run.stage, reply, items);
}

proof fn lemma_resumed_close(run: ZipRun, begun: ZipBuild, items: Seq<SpineItem>, reply: ZipReply)
    requires
        begun.resume is Some,
        resumed_invariant(run, begun, items),
    ensures
        close_next(run.build, run.stage, reply) matches Some(next) ==> resumed_invariant(
            ZipRun { build: next.0, stage: next.1.stage, action: next.1.action },
            begun,
            items,
        ),
{
    lemma_close_in_order(run.build, run.stage, reply, items);
}

proof fn lemma_resumed_run(begun: ZipBuild, resume: BookBuildResume, items: Seq<SpineItem>, replies: Seq<ZipReply>)
    requires
        is_begun(begun, Some(resume)),
        items.len() < usize::MAX,
    ensures
        resumed_invariant(zip_run(begun, items, replies), begun, items),
    decreases replies.len(),
{
    if replies.len() > 0 {
        lemma_resumed_run(begun, resume, items, replies.drop_last());
        lemma_resumed_step(
            zip_run(begun, items, replies.drop_last()),
            begun,
            items,
            replies.last(),
        );
    }
}

/// What [`ZipBuild::begin`] makes of the walk it carries on.
pub open spec fn is_begun(build: ZipBuild, resume: Option<BookBuildResume>) -> bool {
    &&& build.resume == resume
    &&& resume matches Some(state) ==> {
        &&& build.section_count == state.section_count
        &&& build.total_pages == state.total_pages
        &&& build.book_partial == state.book_partial
    }
}

/// A step that carries a suspended walk on and suspends again hands on no
/// less than it took: the same book, row and layout, at or past the spine
/// item it started from, with no fewer sections or pages, partial if the book
/// was partial, the same answer on the table of contents, and a good capture
/// only if the capture was good before. Whatever the answers were.
pub proof fn law_suspended_walk_never_shrinks(begun: ZipBuild, resume: BookBuildResume, items: Seq<SpineItem>, replies: Seq<ZipReply>)
    requires
        is_begun(begun, Some(resume)),
        items.len() < usize::MAX,
    ensures
        zip_run(begun, items, replies).action matches ZipAction::Finish(BuildEnd::Suspended(state))
            ==> goes_on_from(state, resume, begun),
{
    lemma_resumed_run(begun, resume, items, replies);
}

pub open spec fn what_stopped(read_error: Option<ZipError>, parse_failed: bool, sink_stopped: bool) -> Option<ReaderCacheError> {
    if parse_failed {
        if sink_stopped { None } else { Some(ReaderCacheError::XhtmlFull) }
    } else {
        match read_error {
            Some(error) => Some(ReaderCacheError::Zip(error)),
            None => None,
        }
    }
}

pub open spec fn body_assumed(window: Seq<u8>) -> bool {
    !(holds(window, body_tag()) || holds(window, qualified_body_tag()))
}

/// A sink that had enough is no failure of the item. An item whose text was
/// refused for any other reason is too full, one that could not be read fails
/// as the reading did, and one that went through has not failed.
pub proof fn law_full_sink_is_no_failure(read_error: Option<ZipError>, error: ZipError)
    ensures
        what_stopped(read_error, true, true) is None,
        what_stopped(read_error, true, false) == Some(ReaderCacheError::XhtmlFull),
        what_stopped(Some(error), false, false) == Some(ReaderCacheError::Zip(error)),
        what_stopped(Some(error), false, true) == Some(ReaderCacheError::Zip(error)),
        what_stopped(None, false, true) is None,
        what_stopped(None, false, false) is None,
{
}

/// Whether an opening body tag, of any name space, stands at a place.
pub open spec fn opens_body(window: Seq<u8>, at: int) -> bool {
    &&& 0 <= at
    &&& at + 5 <= window.len()
    &&& window[at] == '<' as u8 || window[at] == ':' as u8
    &&& window[at + 1] == 'b' as u8
    &&& window[at + 2] == 'o' as u8
    &&& window[at + 3] == 'd' as u8
    &&& window[at + 4] == 'y' as u8
}

/// A text is taken to be all body exactly if no body opens in its first
/// window.
pub proof fn law_body_is_assumed_where_none_opens(window: Seq<u8>)
    ensures
        body_assumed(window) <==> !(exists|at: int| #[trigger] opens_body(window, at)),
{
    if !body_assumed(window) {
        let part = if holds(window, body_tag()) { body_tag() } else { qualified_body_tag() };
        let at = choose|at: int| stands_at(window, part, at);
        let there = window.subrange(at, at + 5);
        assert(there == part);
        assert(there[0] == window[at]);
        assert(there[1] == window[at + 1]);
        assert(there[2] == window[at + 2]);
        assert(there[3] == window[at + 3]);
        assert(there[4] == window[at + 4]);
        assert(opens_body(window, at));
    }
    if exists|at: int| #[trigger] opens_body(window, at) {
        let at = choose|at: int| #[trigger] opens_body(window, at);
        if window[at] == '<' as u8 {
            assert(window.subrange(at, at + 5) =~= body_tag());
            assert(stands_at(window, body_tag(), at));
        } else {
            assert(window.subrange(at, at + 5) =~= qualified_body_tag());
            assert(stands_at(window, qualified_body_tag(), at));
        }
    }
}

} // verus!
