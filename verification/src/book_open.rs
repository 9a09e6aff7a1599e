//! Opening a book: from its cache if that answers, else from what is left of
//! it, else from the book itself.
//!
//! The routes are tried in the order of what they cost. Only the first leaves
//! a suspended build alone; before any other runs, the build's resume is gone.
use vstd::prelude::*;
use crate::background::BookBuildOutcome;
use crate::cache_error::{ReaderCacheError, SdSessionError};
use crate::messages::SourceIdentity;
use crate::resume::{is_live, walk_is_live, BookBuildResume};

verus! {

#[derive(Clone, Copy, PartialEq, Eq, Structural, Debug)]
pub enum BookLoadStatus {
    Ready,
    Error,
}

/// What loading the book's index came to.
#[derive(Clone, Copy, PartialEq, Eq, Structural, Debug)]
pub enum IndexLoad {
    Hit { unfinished: bool },
    Invalid,
    Miss,
}

/// The header of the captured text, as far as replay reads it.
#[derive(Clone, Copy, PartialEq, Eq, Structural, Debug)]
pub struct ContentHeader {
    pub complete: bool,
    pub source: SourceIdentity,
}

/// What opening the captured text came to.
#[derive(Clone, Copy, PartialEq, Eq, Structural, Debug)]
pub enum ContentOpen {
    /// There is no file to replay.
    Missing,
    /// The header could not be read or decoded.
    Unreadable,
    Header(ContentHeader),
}

/// What the reader is told when a book does not open.
#[derive(Clone, Copy, PartialEq, Eq, Structural, Debug)]
pub enum OpenError {
    BadIndex,
    Session(SdSessionError),
    File,
    Cache(ReaderCacheError),
}

#[derive(Clone, Copy, PartialEq, Eq, Structural, Debug)]
pub enum OpenAction {
    /// The open is over. Show the error if there is one.
    Finish { outcome: BookBuildOutcome, status: BookLoadStatus },
    /// Show an error, then report it.
    ShowError(OpenError),
    /// Open a card session. Answer: `Session`.
    OpenSession,
    /// Load the index of this layout. Answer: `Index`.
    LoadIndex,
    /// Ask whether an index may be read from. Answer: `Went`.
    AskIndexUsable { unfinished: bool, walk_is_live: bool },
    /// Load the section that holds the page. Answer: `Went`.
    LoadSection,
    /// Adopt the loaded index: chapters, cover. Answer: `Went`.
    AdoptIndex,
    /// Make room for this layout. Answer: `Went`.
    EvictLayouts,
    /// Load labels and contents from an index of another layout, to rebuild
    /// this one from its section files. Answer: `Went`.
    LoadLabels,
    /// Read the section files into the records. Answer: `Went`.
    ReindexSections,
    /// Publish the index of those records. Answer: `Went`.
    PublishReindexed,
    /// Empty the records and open the captured text. Answer: `Content`.
    OpenContent,
    /// Load labels and contents for the replay. Answer: `Went`.
    LoadReplayLabels,
    /// Replay the captured text into sections. Answer: `Replayed`.
    ReplayContent,
    /// Delete the captured text. Answer: `Went`.
    DeleteContent,
    /// Publish the replayed book. Answer: `Went`.
    PublishReplayed,
    /// Empty this layout's cache. Answer: `Went`.
    EmptyLayout,
    /// Build the book from its file. Answer: `Built`.
    BuildFromFile,
    /// Ask whether a title was learned. Answer: `Went`.
    AskTitle,
    /// Keep the title in the catalog. Answer: `Went`.
    UpdateTitle,
}

#[derive(Clone, Copy, PartialEq, Eq, Structural, Debug)]
pub enum OpenReply {
    Session(Option<SdSessionError>),
    Index(IndexLoad),
    Went(bool),
    Content(ContentOpen),
    /// The records ended cleanly, and how many sections and pages they made.
    Replayed { clean: bool, section_count: usize, total_pages: u32 },
    /// `None` when the file would not open.
    Built(Option<BuildEnd>),
}

/// How a build from the file ended.
#[derive(Clone, Copy, PartialEq, Eq, Structural, Debug)]
pub enum BuildEnd {
    Whole,
    Suspended(BookBuildResume),
    Failed(ReaderCacheError),
}

#[derive(Clone, Copy, PartialEq, Eq, Structural, Debug)]
pub enum OpenStage {
    Over,
    ErrorShown,
    Session,
    Index,
    Usable,
    Section,
    Adopted,
    Evicted,
    Labels,
    Reindexed,
    ReindexPublished,
    Content,
    ReplayLabels,
    Replayed,
    ContentDeleted,
    ReplayPublished,
    LayoutEmptied,
    Built,
    Title,
    TitleKept,
}

/// The book being opened.
#[derive(Clone, Copy, PartialEq, Eq, Structural, Debug)]
pub struct BookOpen {
    pub index: usize,
    pub source: SourceIdentity,
    pub layout: u8,
    /// Where the book lies on the card is known, so its cache is provably its
    /// own.
    pub located: bool,
    /// The walk as it stood when the open began.
    pub entry_resume: Option<BookBuildResume>,
    /// The walk as it stands.
    pub resume: Option<BookBuildResume>,
}

#[derive(Clone, Copy, PartialEq, Eq, Structural, Debug)]
pub struct OpenBookStep {
    pub action: OpenAction,
    pub stage: OpenStage,
}

pub open spec fn at(action: OpenAction, stage: OpenStage) -> OpenBookStep {
    OpenBookStep { action, stage }
}

/// The open ends. A walk survives only if it is this book's and the open
/// ended well; one that stands as it did was carried, any other was started.
pub open spec fn finished(open: BookOpen, status: BookLoadStatus) -> (BookOpen, OpenBookStep) {
    let live = status is Ready && is_live(open.resume, open.index as int, open.source, open.layout);
    (
        BookOpen { resume: if live { open.resume } else { None }, ..open },
        at(
            OpenAction::Finish {
                outcome: if !live {
                    BookBuildOutcome::Settled
                } else if open.resume == open.entry_resume {
                    BookBuildOutcome::Carried
                } else {
                    BookBuildOutcome::Started
                },
                status,
            },
            OpenStage::Over,
        ),
    )
}

pub open spec fn failed(open: BookOpen, error: OpenError) -> (BookOpen, OpenBookStep) {
    (open, at(OpenAction::ShowError(error), OpenStage::ErrorShown))
}

/// The book is ready; a title it taught us is kept.
pub open spec fn ready(open: BookOpen) -> (BookOpen, OpenBookStep) {
    (open, at(OpenAction::AskTitle, OpenStage::Title))
}

/// The cache did not answer. The walk is over before anything is written.
pub open spec fn missed(open: BookOpen) -> (BookOpen, OpenBookStep) {
    let open = BookOpen { resume: None, ..open };
    if open.located {
        (open, at(OpenAction::EvictLayouts, OpenStage::Evicted))
    } else {
        failed(open, OpenError::File)
    }
}

pub open spec fn replaying(open: BookOpen) -> (BookOpen, OpenBookStep) {
    (open, at(OpenAction::OpenContent, OpenStage::Content))
}

pub open spec fn building(open: BookOpen) -> (BookOpen, OpenBookStep) {
    (open, at(OpenAction::BuildFromFile, OpenStage::Built))
}

pub open spec fn deleting(open: BookOpen) -> (BookOpen, OpenBookStep) {
    (open, at(OpenAction::DeleteContent, OpenStage::ContentDeleted))
}

/// Captured text is replayed only when it is all there and was taken from
/// this very file.
pub open spec fn replayable(header: ContentHeader, source: SourceIdentity) -> bool {
    header.complete && header.source == source
}

/// What an answer does. `None` when the stage is not waiting for it.
pub open spec fn open_next(open: BookOpen, stage: OpenStage, reply: OpenReply) -> Option<(BookOpen, OpenBookStep)> {
    match (stage, reply) {
        (OpenStage::Session, OpenReply::Session(error)) => Some(
            match error {
                Some(error) => failed(open, OpenError::Session(error)),
                None => if open.located {
                    (open, at(OpenAction::LoadIndex, OpenStage::Index))
                } else {
                    missed(open)
                },
            },
        ),
        (OpenStage::Index, OpenReply::Index(index)) => Some(
            match index {
                IndexLoad::Hit { unfinished } => (
                    open,
                    at(
                        OpenAction::AskIndexUsable {
                            unfinished,
                            walk_is_live: is_live(
                                open.resume,
                                open.index as int,
                                open.source,
                                open.layout,
                            ),
                        },
                        OpenStage::Usable,
                    ),
                ),
                _ => missed(open),
            },
        ),
        (OpenStage::Usable, OpenReply::Went(usable)) => Some(
            if usable { (open, at(OpenAction::LoadSection, OpenStage::Section)) } else { missed(open) },
        ),
        (OpenStage::Section, OpenReply::Went(hit)) => Some(
            if hit { (open, at(OpenAction::AdoptIndex, OpenStage::Adopted)) } else { missed(open) },
        ),
        (OpenStage::Adopted, OpenReply::Went(_)) => Some(ready(open)),
        (OpenStage::Evicted, OpenReply::Went(_)) => Some(
            (open, at(OpenAction::LoadLabels, OpenStage::Labels)),
        ),
        (OpenStage::Labels, OpenReply::Went(loaded)) => Some(
            if loaded {
                (open, at(OpenAction::ReindexSections, OpenStage::Reindexed))
            } else {
                replaying(open)
            },
        ),
        (OpenStage::Reindexed, OpenReply::Went(read)) => Some(
            if read {
                (open, at(OpenAction::PublishReindexed, OpenStage::ReindexPublished))
            } else {
                replaying(open)
            },
        ),
        (OpenStage::ReindexPublished, OpenReply::Went(published)) => Some(
            if published { ready(open) } else { replaying(open) },
        ),
        (OpenStage::Content, OpenReply::Content(content)) => Some(
            match content {
                ContentOpen::Missing => building(open),
                ContentOpen::Unreadable => deleting(open),
                ContentOpen::Header(header) => if replayable(header, open.source) {
                    (open, at(OpenAction::LoadReplayLabels, OpenStage::ReplayLabels))
                } else {
                    deleting(open)
                },
            },
        ),
        (OpenStage::ReplayLabels, OpenReply::Went(loaded)) => Some(
            if loaded {
                (open, at(OpenAction::ReplayContent, OpenStage::Replayed))
            } else {
                building(open)
            },
        ),
        (
            OpenStage::Replayed,
            OpenReply::Replayed { clean, section_count, total_pages },
        ) => Some(
            if clean && section_count > 0 && total_pages > 0 {
                (open, at(OpenAction::PublishReplayed, OpenStage::ReplayPublished))
            } else {
                deleting(open)
            },
        ),
        (OpenStage::ContentDeleted, OpenReply::Went(_)) => Some(building(open)),
        (OpenStage::ReplayPublished, OpenReply::Went(published)) => Some(
            if published {
                ready(open)
            } else {
                (open, at(OpenAction::EmptyLayout, OpenStage::LayoutEmptied))
            },
        ),
        (OpenStage::LayoutEmptied, OpenReply::Went(_)) => Some(building(open)),
        (OpenStage::Built, OpenReply::Built(end)) => Some(
            match end {
                None => failed(open, OpenError::File),
                Some(BuildEnd::Whole) => ready(BookOpen { resume: None, ..open }),
                Some(BuildEnd::Suspended(next)) => ready(BookOpen { resume: Some(next), ..open }),
                Some(BuildEnd::Failed(error)) => failed(
                    BookOpen { resume: None, ..open },
                    OpenError::Cache(error),
                ),
            },
        ),
        (OpenStage::Title, OpenReply::Went(learned)) => Some(
            if learned {
                (open, at(OpenAction::UpdateTitle, OpenStage::TitleKept))
            } else {
                finished(open, BookLoadStatus::Ready)
            },
        ),
        (OpenStage::TitleKept, OpenReply::Went(_)) => Some(finished(open, BookLoadStatus::Ready)),
        (OpenStage::ErrorShown, OpenReply::Went(_)) => Some(finished(open, BookLoadStatus::Error)),
        _ => None,
    }
}

fn to(action: OpenAction, stage: OpenStage) -> (step: OpenBookStep)
    ensures
        step == at(action, stage),
{
    OpenBookStep { action, stage }
}

impl BookOpen {
    /// Begins to open the book at row `index`. A row the catalog does not
    /// have ends any suspended walk.
    pub fn begin(
        index: usize,
        entry: Option<SourceIdentity>,
        layout: u8,
        located: bool,
        resume: Option<BookBuildResume>,
    ) -> (begun: (BookOpen, OpenBookStep))
        ensures
            match entry {
                Some(source) => begun == (
                    BookOpen { index, source, layout, located, entry_resume: resume, resume },
                    at(OpenAction::OpenSession, OpenStage::Session),
                ),
                None => begun == (
                    BookOpen {
                        index,
                        source: SourceIdentity { hash: 0, size: 0 },
                        layout,
                        located,
                        entry_resume: resume,
                        resume: None,
                    },
                    at(OpenAction::ShowError(OpenError::BadIndex), OpenStage::ErrorShown),
                ),
            },
    {
        match entry {
            Some(source) => (
                BookOpen { index, source, layout, located, entry_resume: resume, resume },
                to(OpenAction::OpenSession, OpenStage::Session),
            ),
            None => (
                BookOpen {
                    index,
                    source: SourceIdentity { hash: 0, size: 0 },
                    layout,
                    located,
                    entry_resume: resume,
                    resume: None,
                },
                to(OpenAction::ShowError(OpenError::BadIndex), OpenStage::ErrorShown),
            ),
        }
    }

    fn is_live(&self) -> (live: bool)
        ensures
            live == is_live(self.resume, self.index as int, self.source, self.layout),
    {
        walk_is_live(&self.resume, self.index, self.source, self.layout)
    }

    fn finish(&mut self, status: BookLoadStatus) -> (step: OpenBookStep)
        ensures
            (*final(self), step) == finished(*old(self), status),
    {
        let live: bool = status == BookLoadStatus::Ready && self.is_live();
        let outcome = if !live {
            BookBuildOutcome::Settled
        } else if self.resume == self.entry_resume {
            BookBuildOutcome::Carried
        } else {
            BookBuildOutcome::Started
        };
        if !live {
            self.resume = None;
        }
        to(OpenAction::Finish { outcome, status }, OpenStage::Over)
    }

    fn miss(&mut self) -> (step: OpenBookStep)
        ensures
            (*final(self), step) == missed(*old(self)),
    {
        self.resume = None;
        if self.located {
            to(OpenAction::EvictLayouts, OpenStage::Evicted)
        } else {
            to(OpenAction::ShowError(OpenError::File), OpenStage::ErrorShown)
        }
    }

    fn after_cache(&mut self, stage: OpenStage, reply: OpenReply) -> (step: Option<OpenBookStep>)
        requires
            stage is Session || stage is Index || stage is Usable || stage is Section || stage
                is Adopted,
        ensures
            match open_next(*old(self), stage, reply) {
                Some(next) => step == Some(next.1) && *final(self) == next.0,
                None => step is None && *final(self) == *old(self),
            },
    {
        match (stage, reply) {
            (OpenStage::Session, OpenReply::Session(error)) => match error {
                Some(error) => Some(
                    to(OpenAction::ShowError(OpenError::Session(error)), OpenStage::ErrorShown),
                ),
                None => if self.located {
                    Some(to(OpenAction::LoadIndex, OpenStage::Index))
                } else {
                    Some(self.miss())
                },
            },
            (OpenStage::Index, OpenReply::Index(index)) => match index {
                IndexLoad::Hit { unfinished } => Some(
                    to(
                        OpenAction::AskIndexUsable { unfinished, walk_is_live: self.is_live() },
                        OpenStage::Usable,
                    ),
                ),
                IndexLoad::Invalid | IndexLoad::Miss => Some(self.miss()),
            },
            (OpenStage::Usable, OpenReply::Went(usable)) => {
                if usable {
                    Some(to(OpenAction::LoadSection, OpenStage::Section))
                } else {
                    Some(self.miss())
                }
            },
            (OpenStage::Section, OpenReply::Went(hit)) => {
                if hit {
                    Some(to(OpenAction::AdoptIndex, OpenStage::Adopted))
                } else {
                    Some(self.miss())
                }
            },
            (OpenStage::Adopted, OpenReply::Went(_)) => Some(
                to(OpenAction::AskTitle, OpenStage::Title),
            ),
            _ => None,
        }
    }

    fn after_reindex(&mut self, stage: OpenStage, reply: OpenReply) -> (step: Option<OpenBookStep>)
        requires
            stage is Evicted || stage is Labels || stage is Reindexed || stage is ReindexPublished,
        ensures
            match open_next(*old(self), stage, reply) {
                Some(next) => step == Some(next.1) && *final(self) == next.0,
                None => step is None && *final(self) == *old(self),
            },
    {
        let went: bool = match reply {
            OpenReply::Went(went) => went,
            _ => return None,
        };
        Some(
            match stage {
                OpenStage::Evicted => to(OpenAction::LoadLabels, OpenStage::Labels),
                OpenStage::Labels => if went {
                    to(OpenAction::ReindexSections, OpenStage::Reindexed)
                } else {
                    to(OpenAction::OpenContent, OpenStage::Content)
                },
                OpenStage::Reindexed => if went {
                    to(OpenAction::PublishReindexed, OpenStage::ReindexPublished)
                } else {
                    to(OpenAction::OpenContent, OpenStage::Content)
                },
                OpenStage::ReindexPublished => if went {
                    to(OpenAction::AskTitle, OpenStage::Title)
                } else {
                    to(OpenAction::OpenContent, OpenStage::Content)
                },
                _ => return None,
            },
        )
    }

    fn after_replay(&mut self, stage: OpenStage, reply: OpenReply) -> (step: Option<OpenBookStep>)
        requires
            stage is Content || stage is ReplayLabels || stage is Replayed || stage
                is ContentDeleted || stage is ReplayPublished || stage is LayoutEmptied,
        ensures
            match open_next(*old(self), stage, reply) {
                Some(next) => step == Some(next.1) && *final(self) == next.0,
                None => step is None && *final(self) == *old(self),
            },
    {
        match (stage, reply) {
            (OpenStage::Content, OpenReply::Content(content)) => Some(
                match content {
                    ContentOpen::Missing => to(OpenAction::BuildFromFile, OpenStage::Built),
                    ContentOpen::Unreadable => to(
                        OpenAction::DeleteContent,
                        OpenStage::ContentDeleted,
                    ),
                    ContentOpen::Header(header) => if header.complete && header.source
                        == self.source {
                        to(OpenAction::LoadReplayLabels, OpenStage::ReplayLabels)
                    } else {
                        to(OpenAction::DeleteContent, OpenStage::ContentDeleted)
                    },
                },
            ),
            (OpenStage::ReplayLabels, OpenReply::Went(loaded)) => Some(
                if loaded {
                    to(OpenAction::ReplayContent, OpenStage::Replayed)
                } else {
                    to(OpenAction::BuildFromFile, OpenStage::Built)
                },
            ),
            (
                OpenStage::Replayed,
                OpenReply::Replayed { clean, section_count, total_pages },
            ) => Some(
                if clean && section_count > 0 && total_pages > 0 {
                    to(OpenAction::PublishReplayed, OpenStage::ReplayPublished)
                } else {
                    to(OpenAction::DeleteContent, OpenStage::ContentDeleted)
                },
            ),
            (OpenStage::ContentDeleted, OpenReply::Went(_))
            | (OpenStage::LayoutEmptied, OpenReply::Went(_)) => Some(
                to(OpenAction::BuildFromFile, OpenStage::Built),
            ),
            (OpenStage::ReplayPublished, OpenReply::Went(published)) => Some(
                if published {
                    to(OpenAction::AskTitle, OpenStage::Title)
                } else {
                    to(OpenAction::EmptyLayout, OpenStage::LayoutEmptied)
                },
            ),
            _ => None,
        }
    }

    fn after_build(&mut self, end: Option<BuildEnd>) -> (step: OpenBookStep)
        ensures
            open_next(*old(self), OpenStage::Built, OpenReply::Built(end)) == Some(
                (*final(self), step),
            ),
    {
        match end {
            None => to(OpenAction::ShowError(OpenError::File), OpenStage::ErrorShown),
            Some(BuildEnd::Whole) => {
                self.resume = None;
                to(OpenAction::AskTitle, OpenStage::Title)
            },
            Some(BuildEnd::Suspended(next)) => {
                self.resume = Some(next);
                to(OpenAction::AskTitle, OpenStage::Title)
            },
            Some(BuildEnd::Failed(error)) => {
                self.resume = None;
                to(OpenAction::ShowError(OpenError::Cache(error)), OpenStage::ErrorShown)
            },
        }
    }

    /// What the answer to the last action does. `None`, with nothing changed,
    /// when the stage is not waiting for that kind of answer.
    pub fn advance(&mut self, stage: OpenStage, reply: OpenReply) -> (step: Option<OpenBookStep>)
        ensures
            match open_next(*old(self), stage, reply) {
                Some(next) => step == Some(next.1) && *final(self) == next.0,
                None => step is None && *final(self) == *old(self),
            },
    {
        match stage {
            OpenStage::Over => None,
            OpenStage::Session
            | OpenStage::Index
            | OpenStage::Usable
            | OpenStage::Section
            | OpenStage::Adopted => self.after_cache(stage, reply),
            OpenStage::Evicted
            | OpenStage::Labels
            | OpenStage::Reindexed
            | OpenStage::ReindexPublished => self.after_reindex(stage, reply),
            OpenStage::Content
            | OpenStage::ReplayLabels
            | OpenStage::Replayed
            | OpenStage::ContentDeleted
            | OpenStage::ReplayPublished
            | OpenStage::LayoutEmptied => self.after_replay(stage, reply),
            OpenStage::Built => match reply {
                OpenReply::Built(end) => Some(self.after_build(end)),
                _ => None,
            },
            OpenStage::Title => match reply {
                OpenReply::Went(learned) => if learned {
                    Some(to(OpenAction::UpdateTitle, OpenStage::TitleKept))
                } else {
                    Some(self.finish(BookLoadStatus::Ready))
                },
                _ => None,
            },
            OpenStage::TitleKept => match reply {
                OpenReply::Went(_) => Some(self.finish(BookLoadStatus::Ready)),
                _ => None,
            },
            OpenStage::ErrorShown => match reply {
                OpenReply::Went(_) => Some(self.finish(BookLoadStatus::Error)),
                _ => None,
            },
        }
    }
}

/// Whether an action writes section records or files of the cache.
pub open spec fn writes_records(action: OpenAction) -> bool {
    action is EvictLayouts || action is ReindexSections || action is PublishReindexed || action
        is OpenContent || action is ReplayContent || action is PublishReplayed || action
        is BuildFromFile
}

/// The stages past the point of no return.
pub open spec fn past_the_cache(stage: OpenStage) -> bool {
    stage is Evicted || stage is Labels || stage is Reindexed || stage is ReindexPublished || stage
        is Content || stage is ReplayLabels || stage is Replayed || stage is ContentDeleted || stage
        is ReplayPublished || stage is LayoutEmptied || stage is Built
}

/// Holds of every stage an open reaches.
pub open spec fn open_invariant(open: BookOpen, stage: OpenStage) -> bool {
    &&& past_the_cache(stage) ==> open.resume is None
    &&& stage is Session || stage is Index || stage is Usable || stage is Section || stage
        is Adopted ==> open.resume == open.entry_resume
}

/// No writer runs while a resume describes the records it would rewrite: by
/// the time any of them is asked for, the resume is gone.
pub proof fn law_writers_run_without_a_resume(open: BookOpen, stage: OpenStage, reply: OpenReply)
    requires
        open_invariant(open, stage),
    ensures
        open_next(open, stage, reply) matches Some(next) ==> {
            &&& open_invariant(next.0, next.1.stage)
            &&& writes_records(next.1.action) ==> next.0.resume is None
        },
{
}

/// The outcome and the resume agree: a settled open leaves none; a started or
/// carried one leaves this book's; and only an open that left the walk as it
/// found it reports that it was carried.
pub proof fn law_outcome_agrees_with_the_resume(open: BookOpen, stage: OpenStage, reply: OpenReply)
    ensures
        open_next(open, stage, reply) matches Some(next) ==> (next.1.action matches OpenAction::Finish {
            outcome,
            status,
        } ==> {
            &&& outcome is Settled <==> next.0.resume is None
            &&& !(outcome is Settled) ==> status is Ready && is_live(
                next.0.resume,
                open.index as int,
                open.source,
                open.layout,
            )
            &&& outcome is Carried ==> next.0.resume == open.entry_resume
            &&& outcome is Started ==> next.0.resume != open.entry_resume
        }),
{
}

/// Captured text is deleted only for being unreadable, unfinished, of another
/// file, or empty of pages; a replay that was never possible leaves it alone.
pub proof fn law_capture_is_deleted_only_when_useless(open: BookOpen, stage: OpenStage, reply: OpenReply)
    ensures
        open_next(open, stage, reply) matches Some(next) ==> (next.1.action is DeleteContent ==> {
            ||| reply == OpenReply::Content(ContentOpen::Unreadable)
            ||| reply matches OpenReply::Content(ContentOpen::Header(header)) && !replayable(
                header,
                open.source,
            )
            ||| reply matches OpenReply::Replayed { clean, section_count, total_pages } && !(clean
                && section_count > 0 && total_pages > 0)
        }),
{
}

/// What an open has been told.
pub struct BookWatch {
    pub open: BookOpen,
    pub action: OpenAction,
    pub stage: OpenStage,
    /// A route gave the book: its page is loaded.
    pub served: bool,
    /// Why the book cannot be opened.
    pub error: Option<OpenError>,
    /// What was learned of the cache, in the order it is asked: the index,
    /// and whether it may be used and holds the page.
    pub index: Option<IndexLoad>,
    pub usable: Option<bool>,
    pub hit: Option<bool>,
    /// Whether the sections and the captured text were tried.
    pub relabelled: bool,
    pub content: Option<ContentOpen>,
    /// The walk that the build left, if it left one.
    pub left: Option<BookBuildResume>,
    pub learned: Option<bool>,
}

pub open spec fn book_noted(
    before: BookWatch,
    open: BookOpen,
    step: OpenBookStep,
    reply: OpenReply,
) -> BookWatch {
    let went = reply == OpenReply::Went(true);
    BookWatch {
        open,
        action: step.action,
        stage: step.stage,
        served: before.served || (went && (before.action is LoadSection || before.action
            is PublishReindexed || before.action is PublishReplayed)) || reply == OpenReply::Built(
            Some(BuildEnd::Whole),
        ) || (reply matches OpenReply::Built(Some(end)) && end is Suspended),
        error: match reply {
            OpenReply::Session(Some(error)) => Some(OpenError::Session(error)),
            OpenReply::Session(None) => if before.open.located { None } else { Some(OpenError::File) },
            OpenReply::Built(None) => Some(OpenError::File),
            OpenReply::Built(Some(BuildEnd::Failed(error))) => Some(OpenError::Cache(error)),
            _ => before.error,
        },
        index: match reply {
            OpenReply::Index(index) => Some(index),
            _ => before.index,
        },
        usable: if before.action is AskIndexUsable { Some(went) } else { before.usable },
        hit: if before.action is LoadSection { Some(went) } else { before.hit },
        relabelled: before.relabelled || before.action is LoadLabels,
        content: match reply {
            OpenReply::Content(content) => Some(content),
            _ => before.content,
        },
        left: match reply {
            OpenReply::Built(Some(BuildEnd::Suspended(next))) => Some(next),
            _ => before.left,
        },
        learned: if before.action is AskTitle { Some(went) } else { before.learned },
    }
}

/// An open of a book of the catalog, fed answers in order.
pub open spec fn book_watched(open: BookOpen, replies: Seq<OpenReply>) -> BookWatch
    decreases replies.len(),
{
    if replies.len() == 0 {
        BookWatch {
            open,
            action: OpenAction::OpenSession,
            stage: OpenStage::Session,
            served: false,
            error: None,
            index: None,
            usable: None,
            hit: None,
            relabelled: false,
            content: None,
            left: None,
            learned: None,
        }
    } else {
        let before = book_watched(open, replies.drop_last());
        match open_next(before.open, before.stage, replies.last()) {
            Some(next) => book_noted(before, next.0, next.1, replies.last()),
            None => before,
        }
    }
}

pub open spec fn book_stage_fits(action: OpenAction, stage: OpenStage) -> bool {
    &&& action is OpenSession <==> stage is Session
    &&& action is LoadIndex <==> stage is Index
    &&& action is AskIndexUsable <==> stage is Usable
    &&& action is LoadSection <==> stage is Section
    &&& action is AdoptIndex <==> stage is Adopted
    &&& action is EvictLayouts <==> stage is Evicted
    &&& action is LoadLabels <==> stage is Labels
    &&& action is ReindexSections <==> stage is Reindexed
    &&& action is PublishReindexed <==> stage is ReindexPublished
    &&& action is OpenContent <==> stage is Content
    &&& action is LoadReplayLabels <==> stage is ReplayLabels
    &&& action is ReplayContent <==> stage is Replayed
    &&& action is DeleteContent <==> stage is ContentDeleted
    &&& action is PublishReplayed <==> stage is ReplayPublished
    &&& action is EmptyLayout <==> stage is LayoutEmptied
    &&& action is BuildFromFile <==> stage is Built
    &&& action is AskTitle <==> stage is Title
    &&& action is UpdateTitle <==> stage is TitleKept
    &&& action is ShowError <==> stage is ErrorShown
    &&& action is Finish <==> stage is Over
}

/// Whether the cache was asked as far as it answers, and did not give the
/// page.
pub open spec fn cache_missed(watch: BookWatch) -> bool {
    watch.index is Some && (!(watch.index->0 is Hit) || watch.usable == Some(false) || watch.hit
        == Some(false))
}

/// What holds of every step of an open.
pub open spec fn book_is_right(begun: BookOpen, watch: BookWatch) -> bool {
    let stage = watch.stage;
    let answered = stage is Adopted || stage is Title || stage is TitleKept;
    &&& book_stage_fits(watch.action, stage)
    &&& watch.open.index == begun.index && watch.open.source == begun.source && watch.open.layout
        == begun.layout && watch.open.located == begun.located && watch.open.entry_resume
        == begun.entry_resume
    &&& !(stage is ErrorShown || stage is Over) ==> watch.error is None
    &&& !(answered || stage is Over) ==> !watch.served
    &&& answered ==> watch.served
    &&& stage is Session || stage is Index ==> watch.index is None && watch.usable is None && watch.hit
        is None
    &&& stage is Usable ==> watch.index is Some && watch.index->0 is Hit && watch.usable is None
        && watch.hit is None
    &&& stage is Section ==> watch.usable == Some(true) && watch.index is Some && watch.index->0 is Hit
        && watch.hit is None
    &&& past_the_cache(stage) ==> cache_missed(watch) && begun.located && watch.open.resume is None
        && watch.left is None
    &&& stage is Session || stage is Index || stage is Usable || stage is Section || stage is Adopted
        ==> watch.open.resume == begun.resume && watch.left is None
    &&& (watch.action matches OpenAction::AskIndexUsable { unfinished, walk_is_live } ==> watch.index
        == Some(IndexLoad::Hit { unfinished }) && walk_is_live == is_live(
        begun.resume,
        begun.index as int,
        begun.source,
        begun.layout,
    ))
    &&& stage is Index || stage is Usable || stage is Section ==> begun.located
    &&& past_the_cache(stage) && !(stage is Evicted || stage is Labels) ==> watch.relabelled
    &&& stage is ReplayLabels || stage is Replayed || stage is ReplayPublished || stage
        is LayoutEmptied ==> watch.content == Some(
        ContentOpen::Header(ContentHeader { complete: true, source: begun.source }),
    )
    &&& stage is Built || stage is ContentDeleted ==> watch.content is Some
    &&& (watch.action matches OpenAction::ShowError(error) ==> watch.error == Some(error)
        && !watch.served)
    &&& stage is Title || stage is TitleKept ==> (watch.hit == Some(true) && watch.open.resume
        == begun.resume) || (cache_missed(watch) && watch.open.resume == watch.left)
    &&& stage is TitleKept ==> watch.learned == Some(true)
    &&& stage is Adopted ==> watch.hit == Some(true)
    &&& (watch.action matches OpenAction::Finish { outcome, status } ==> {
        &&& status is Ready <==> watch.served
        &&& status is Error <==> watch.error is Some
        &&& watch.learned is Some <==> watch.served
        &&& outcome is Carried ==> watch.open.resume == begun.entry_resume
        &&& !(outcome is Settled) ==> watch.open.resume is Some && watch.open.resume->0.index
            == begun.index && watch.open.resume->0.source == begun.source && watch.open.resume->0.layout
            == begun.layout
        &&& outcome is Settled ==> watch.open.resume is None
    })
    &&& !(stage is Over || stage is TitleKept) ==> watch.learned is None
}

/// A book opens exactly when a route gave it, and otherwise the reader is
/// told why none could. The cache is asked first, and everything costlier
/// only when it does not hold the page: then the section files, then the
/// captured text, if it is whole and of this very file, and the book itself
/// last. A book whose place on the card is unknown is not read from any of
/// them. What is carried, started or settled is this book's own walk.
pub proof fn law_book_opens_by_the_cheapest_route(begun: BookOpen, replies: Seq<OpenReply>)
    requires
        begun.entry_resume == begun.resume,
    ensures
        book_is_right(begun, book_watched(begun, replies)),
    decreases replies.len(),
{
    if replies.len() > 0 {
        law_book_opens_by_the_cheapest_route(begun, replies.drop_last());
        let before = book_watched(begun, replies.drop_last());
        lemma_book_step(begun, before, replies.last());
    }
}

proof fn lemma_book_step(begun: BookOpen, before: BookWatch, reply: OpenReply)
    requires
        begun.entry_resume == begun.resume,
        book_is_right(begun, before),
    ensures
        open_next(before.open, before.stage, reply) matches Some(next) ==> book_is_right(
            begun,
            book_noted(before, next.0, next.1, reply),
        ),
{
}

/// A route that can go on does: a usable index is read, a page it holds is
/// shown, labels that load lead to the sections, sections that read are
/// published, and captured text that is whole and of this file is replayed.
pub proof fn law_route_that_answers_is_taken(open: BookOpen, stage: OpenStage, reply: OpenReply)
    ensures
        open_next(open, stage, reply) matches Some(next) ==> {
            let went = reply == OpenReply::Went(true);
            &&& stage is Usable && went ==> next.1.action is LoadSection
            &&& stage is Section && went ==> next.1.action is AdoptIndex
            &&& stage is Labels && went ==> next.1.action is ReindexSections
            &&& stage is Reindexed && went ==> next.1.action is PublishReindexed
            &&& stage is ReindexPublished && went ==> next.1.action is AskTitle
            &&& stage is Content && reply == OpenReply::Content(
                ContentOpen::Header(ContentHeader { complete: true, source: open.source }),
            ) ==> next.1.action is LoadReplayLabels
            &&& stage is ReplayLabels && went ==> next.1.action is ReplayContent
            &&& (reply matches OpenReply::Replayed { clean, section_count, total_pages } ==> (clean
                && section_count > 0 && total_pages > 0 ==> next.1.action is PublishReplayed))
            &&& stage is ReplayPublished && went ==> next.1.action is AskTitle
            &&& stage is Title && went ==> next.1.action is UpdateTitle
            &&& stage is Labels || stage is Reindexed || stage is ReindexPublished ==> (!went
                ==> next.1.action is OpenContent)
            &&& reply == OpenReply::Content(ContentOpen::Missing) ==> next.1.action is BuildFromFile
        },
{
}

/// A replay counts only if it came through clean and made a book: sections and
/// pages. Anything less is deleted, and the book is built from its file.
pub proof fn law_empty_replay_is_no_book(open: BookOpen, clean: bool, section_count: usize, total_pages: u32)
    ensures
        open_next(
            open,
            OpenStage::Replayed,
            OpenReply::Replayed { clean, section_count, total_pages },
        ) matches Some(next) && next.0 == open && (next.1.action is PublishReplayed <==> clean
            && section_count != 0 && total_pages != 0) && (!(next.1.action is PublishReplayed)
            ==> next.1.action is DeleteContent),
{
}

} // verus!
