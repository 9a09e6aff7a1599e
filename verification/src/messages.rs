//! The values the tasks hand each other: storage commands, library events and
//! the reader state that survives a reboot.
use vstd::prelude::*;

verus! {

/// The type settings a section is paginated under, as the codes the durable
/// record stores.
#[derive(Clone, Copy, PartialEq, Eq, Structural, Debug)]
pub struct TypeSettings {
    pub size: u8,
    pub spacing: u8,
    pub weight: u8,
    pub family: u8,
}

/// Reader state as the app persists it.
#[derive(Clone, Copy, PartialEq, Eq, Structural, Debug)]
pub struct PersistedState {
    pub book_id: u32,
    pub chapter: u16,
    pub screen: u32,
    pub shell_orientation: u8,
    pub reading_orientation: u8,
    pub refresh_policy: u8,
    pub font_size: u8,
    pub line_spacing: u8,
    pub font_weight: u8,
    pub font_family: u8,
    pub front_buttons: u8,
}

/// The record on the card: [`PersistedState`] with the identity of the source
/// file it was taken in.
#[derive(Clone, Copy, PartialEq, Eq, Structural, Debug)]
pub struct AppStateRecord {
    pub book_id: u32,
    pub chapter: u16,
    pub screen: u32,
    pub shell_orientation: u8,
    pub reading_orientation: u8,
    pub refresh_policy: u8,
    pub font_size: u8,
    pub line_spacing: u8,
    pub font_weight: u8,
    pub font_family: u8,
    pub front_buttons: u8,
    pub source_hash: u32,
    pub source_size: u32,
    pub legacy_source_identity: bool,
}

/// The path hash and byte length a source file is recognised by.
#[derive(Clone, Copy, PartialEq, Eq, Structural, Debug)]
pub struct SourceIdentity {
    pub hash: u32,
    pub size: u32,
}

/// A place in a book the app can navigate to.
#[derive(Clone, Copy, PartialEq, Eq, Structural, Debug)]
pub struct BookPosition {
    pub chapter: u16,
    pub page: u32,
}

/// Work the app asks of the storage task. The bytes of a wireless credential
/// or access-point hint decide nothing here and travel beside the command.
#[derive(Clone, Copy, PartialEq, Eq, Structural, Debug)]
pub enum StorageCommand {
    LoadCatalogCache,
    RefreshCatalog,
    OpenBook {
        request_id: u32,
        book_id: u32,
        index: u16,
        chapter: u16,
        target_pages: u32,
        type_settings: TypeSettings,
        portrait: bool,
        previous: Option<PersistedState>,
        catalog_epoch: Option<u32>,
        resolve_place: bool,
    },
    ExtendSection {
        request_id: u32,
        book_id: u32,
        index: u16,
        chapter: u16,
        target_pages: u32,
        type_settings: TypeSettings,
        portrait: bool,
    },
    LoadChapters { request_id: u32, book_id: u32, index: u16 },
    JumpChapter {
        request_id: u32,
        book_id: u32,
        index: u16,
        chapter: u16,
        type_settings: TypeSettings,
        portrait: bool,
    },
    ClearBookCache { request_id: u32, index: u16, browse_epoch: u32 },
    ChooseLibraryRow { request_id: u32, index: u16, browse_epoch: u32 },
    LeaveLibraryFolder { request_id: u32, browse_epoch: u32 },
    StoreProgress(PersistedState),
    LoanSyncMemory,
    ReceiveUpload,
    StoreWifiCredentials,
    StoreWifiApHint,
    ForgetWifiCredentials,
}

/// What a folder listing put on screen.
#[derive(Clone, Copy, PartialEq, Eq, Structural, Debug)]
pub struct FolderListing {
    pub depth: u8,
    pub count: u16,
    pub books: u16,
    pub selection: u16,
}

/// How many chapters the app keeps the first pages of.
pub const CHAPTER_CAP: usize = 128;

/// Where the first chapters of a book begin.
#[derive(Clone, Copy, PartialEq, Eq, Debug)]
pub struct ChapterPages {
    pub pages: [u16; CHAPTER_CAP],
}

/// What the storage task tells the app.
#[allow(inconsistent_fields)]
#[derive(Clone, Copy, PartialEq, Eq, Debug)]
pub enum LibraryEvent {
    Scanned { count: u16, catalog_epoch: u32 },
    Loaded {
        book_id: u32,
        pages: u32,
        chapters: u16,
        current_chapter: u16,
        chapter_pages: ChapterPages,
        position: Option<u32>,
        text_replaced: bool,
    },
    BookOpenFailed { book_id: u32 },
    ChapterPage { book_id: u32, chapter: u16, page: u32 },
    CustomFont { available: bool },
    Restored {
        book_id: u32,
        chapter: u16,
        page: u32,
        page_count: u32,
        reading_orientation: u8,
        refresh_policy: u8,
        font_size: u8,
        line_spacing: u8,
        font_weight: u8,
        font_family: u8,
        front_buttons: u8,
    },
    CacheCleared { request_id: u32, ok: bool },
    LibraryUnreadable { browse_epoch: u32 },
    FolderListed {
        request_id: Option<u32>,
        browse_epoch: u32,
        depth: u8,
        count: u16,
        books: u16,
        selection: u16,
    },
    RowIsBook { request_id: u32, index: u16, catalog_epoch: u32 },
    RowFailed { request_id: u32 },
}

#[derive(Clone, Copy, PartialEq, Eq, Structural, Debug)]
pub enum AppView {
    Home,
    Library,
    Reading,
    Chapters,
    Settings,
    Wireless,
}

#[derive(Clone, Copy, PartialEq, Eq, Structural, Debug)]
pub enum RenderKind {
    Boot,
    Page,
}

/// The record of a state the app persisted, with the identity of its source.
///
/// The app counts chapters only so far; for the book that is loaded the store
/// knows the true one, and the record names that.
pub open spec fn record_of(state: PersistedState, identity: SourceIdentity, loaded_chapter: Option<u16>) -> AppStateRecord {
    AppStateRecord {
        book_id: state.book_id,
        chapter: match loaded_chapter {
            Some(chapter) => chapter,
            None => state.chapter,
        },
        screen: state.screen,
        shell_orientation: state.shell_orientation,
        reading_orientation: state.reading_orientation,
        refresh_policy: state.refresh_policy,
        font_size: state.font_size,
        line_spacing: state.line_spacing,
        font_weight: state.font_weight,
        font_family: state.font_family,
        front_buttons: state.front_buttons,
        source_hash: identity.hash,
        source_size: identity.size,
        legacy_source_identity: false,
    }
}

/// Fills in what only the store knows about a persisted state: the source
/// identity, and the chapter when this is the SD book the store has loaded.
pub fn record_for_persisted(
    state: PersistedState,
    identity: SourceIdentity,
    is_sd: bool,
    is_loaded_index: bool,
    current_chapter: u16,
) -> (record: AppStateRecord)
    ensures
        record == record_of(
            state,
            identity,
            if is_sd && is_loaded_index { Some(current_chapter) } else { None },
        ),
{
    let chapter: u16 = if is_sd && is_loaded_index { current_chapter } else { state.chapter };
    AppStateRecord {
        book_id: state.book_id,
        chapter,
        screen: state.screen,
        shell_orientation: state.shell_orientation,
        reading_orientation: state.reading_orientation,
        refresh_policy: state.refresh_policy,
        font_size: state.font_size,
        line_spacing: state.line_spacing,
        font_weight: state.font_weight,
        font_family: state.font_family,
        front_buttons: state.front_buttons,
        source_hash: identity.hash,
        source_size: identity.size,
        legacy_source_identity: false,
    }
}

} // verus!
