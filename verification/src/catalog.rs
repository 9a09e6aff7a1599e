//! The catalog on the card: what a read of it came to, where its rows lie,
//! and how a book is found in it.
use vstd::prelude::*;
use crate::cache_clear::CacheHeader;
use crate::messages::{FolderListing, SourceIdentity};
use crate::storage::{CatalogRow, RowChoice};

verus! {

/// Why a catalog read did not give a catalog.
#[derive(Clone, Copy, PartialEq, Eq, Structural, Debug)]
pub enum CatalogFault {
    /// There is none.
    Missing,
    /// Written by firmware of another version.
    Stale,
    /// It is there and does not check out.
    Invalid,
    /// The card refused.
    Device,
    /// An interrupted upload was finished since it was written.
    Reclaimed,
    /// Recovery could not finish.
    Unreconciled,
}

/// How an open of a directory or file failed.
#[derive(Clone, Copy, PartialEq, Eq, Structural, Debug)]
pub enum OpenFailure {
    NotFound,
    Other,
}

/// A failed open is a missing catalog only when the card said so.
pub fn open_fault(failure: OpenFailure) -> (fault: CatalogFault)
    ensures
        fault == fault_of_open(failure),
        fault == if failure == OpenFailure::NotFound {
            CatalogFault::Missing
        } else {
            CatalogFault::Device
        },
{
    match failure {
        OpenFailure::NotFound => CatalogFault::Missing,
        OpenFailure::Other => CatalogFault::Device,
    }
}

pub open spec fn fault_token(fault: CatalogFault) -> Seq<char> {
    match fault {
        CatalogFault::Missing => "miss"@,
        CatalogFault::Stale => "stale"@,
        CatalogFault::Invalid => "invalid"@,
        CatalogFault::Device => "error"@,
        CatalogFault::Reclaimed => "reclaimed"@,
        CatalogFault::Unreconciled => "unreconciled"@,
    }
}

impl CatalogFault {
    /// The token a capture is judged on.
    pub fn bench_result(self) -> (token: &'static str)
        ensures
            token@ == fault_token(self),
    {
        match self {
            CatalogFault::Missing => "miss",
            CatalogFault::Stale => "stale",
            CatalogFault::Invalid => "invalid",
            CatalogFault::Device => "error",
            CatalogFault::Reclaimed => "reclaimed",
            CatalogFault::Unreconciled => "unreconciled",
        }
    }
}

/// Why a header names no catalog.
#[derive(Clone, Copy, PartialEq, Eq, Structural, Debug)]
pub enum HeaderFault {
    Stale,
    Invalid,
}

/// The sizes of the catalog's parts.
#[derive(Clone, Copy, PartialEq, Eq, Structural, Debug)]
pub struct CatalogLayout {
    pub header_bytes: u32,
    pub record_bytes: u32,
    /// Where the title lies in a record.
    pub title_offset: u32,
}

impl CatalogLayout {
    /// A catalog of the most rows a header can count fits a file.
    pub open spec fn wf(self) -> bool {
        self.record_bytes > 0 && self.title_offset <= self.record_bytes && self.header_bytes + (
        u16::MAX + 1) * self.record_bytes <= u32::MAX
    }

    pub open spec fn offset(self, index: int) -> int {
        self.header_bytes + index * self.record_bytes
    }
}

proof fn lemma_offset_bound(layout: CatalogLayout, index: int)
    requires
        layout.wf(),
        0 <= index <= u16::MAX,
    ensures
        0 <= layout.offset(index),
        layout.offset(index) + layout.record_bytes <= u32::MAX,
        index * layout.record_bytes >= 0,
{
    let r = layout.record_bytes as int;
    assert(index * r + r <= 65536 * r && index * r >= 0) by (nonlinear_arith)
        requires
            0 <= index <= 65535,
            r > 0,
    ;
}

/// Where a record begins.
pub fn record_offset(layout: &CatalogLayout, index: u16) -> (offset: u32)
    requires
        layout.wf(),
    ensures
        offset == layout.offset(index as int),
{
    proof {
        lemma_offset_bound(*layout, index as int);
    }
    layout.header_bytes + index as u32 * layout.record_bytes
}

/// Where a record's title lies.
pub fn title_offset(layout: &CatalogLayout, index: u16) -> (offset: u32)
    requires
        layout.wf(),
    ensures
        offset == layout.offset(index as int) + layout.title_offset,
{
    proof {
        lemma_offset_bound(*layout, index as int);
    }
    record_offset(layout, index) + layout.title_offset
}

/// What opening the catalog came to, step by step: each part is `None` where
/// an earlier one failed.
#[derive(Clone, Copy, Debug)]
pub struct CatalogOpen {
    /// How opening its directory or the file itself failed.
    pub open: Option<OpenFailure>,
    /// How reading the header failed.
    pub read: Option<CatalogFault>,
    /// The book count, or why the header names none.
    pub header: Result<u16, HeaderFault>,
    pub file_len: u32,
}

/// Judges an opened catalog: its directory and file opened, its header was
/// read and names a count, and the file is exactly as long as that many
/// records. A file of any other length was touched outside the writer.
pub fn check_catalog(opened: &CatalogOpen, layout: &CatalogLayout) -> (count: Result<u16, CatalogFault>)
    requires
        layout.wf(),
    ensures
        count == catalog_judged(opened.open, opened.read, opened.header, opened.file_len, *layout),
        count == match (opened.open, opened.read, opened.header) {
            (Some(failure), _, _) => Err(
                if failure == OpenFailure::NotFound {
                    CatalogFault::Missing
                } else {
                    CatalogFault::Device
                },
            ),
            (None, Some(fault), _) => Err(fault),
            (None, None, Err(HeaderFault::Stale)) => Err(CatalogFault::Stale),
            (None, None, Err(HeaderFault::Invalid)) => Err(CatalogFault::Invalid),
            (None, None, Ok(count)) => if opened.file_len == layout.offset(count as int) {
                Ok(count)
            } else {
                Err(CatalogFault::Invalid)
            },
        },
{
    if let Some(failure) = opened.open {
        return Err(open_fault(failure));
    }
    if let Some(fault) = opened.read {
        return Err(fault);
    }
    match opened.header {
        Err(HeaderFault::Stale) => Err(CatalogFault::Stale),
        Err(HeaderFault::Invalid) => Err(CatalogFault::Invalid),
        Ok(count) => {
            if opened.file_len == record_offset(layout, count) {
                Ok(count)
            } else {
                Err(CatalogFault::Invalid)
            }
        },
    }
}

/// What one read of a file gave.
#[derive(Clone, Copy, PartialEq, Eq, Structural, Debug)]
pub enum FileRead {
    Read(usize),
    Refused,
}

/// What follows a read while bytes are still owed: more reading, the end, or
/// a fault. A refused read is the card; a read that gives nothing is a file
/// shorter than it claims.
pub fn read_exact_step(owed: usize, read: FileRead) -> (left: Result<usize, CatalogFault>)
    requires
        read matches FileRead::Read(count) ==> count <= owed,
    ensures
        left == read_goes_on(owed, read),
        left == match read {
            FileRead::Refused => Err::<usize, CatalogFault>(CatalogFault::Device),
            FileRead::Read(count) => if count == 0 {
                Err(CatalogFault::Invalid)
            } else {
                Ok((owed - count) as usize)
            },
        },
{
    match read {
        FileRead::Refused => Err(CatalogFault::Device),
        FileRead::Read(count) => {
            if count == 0 {
                Err(CatalogFault::Invalid)
            } else {
                Ok(owed - count)
            }
        },
    }
}

/// How many records a window from `start` holds.
pub fn window_take(start: usize, count: u16, window: usize) -> (take: usize)
    ensures
        take == records_in_window(start as int, count as int, window as int),
        take == if start >= count {
            0
        } else if window <= count - start {
            window as int
        } else {
            count - start
        },
{
    if start >= count as usize {
        return 0;
    }
    let left: usize = count as usize - start;
    if window <= left {
        window
    } else {
        left
    }
}

/// How many rows before `end` match.
pub open spec fn matches_before(rows: Seq<SourceIdentity>, wanted: SourceIdentity, end: int) -> nat
    decreases end,
{
    if end <= 0 {
        0
    } else {
        matches_before(rows, wanted, end - 1) + if rows[end - 1] == wanted { 1nat } else { 0 }
    }
}

/// The row of a source identity among the catalog's rows, when exactly one
/// row has it: two rows that share an identity are two books, and neither may
/// be taken for the other. The empty identity names no book.
pub fn find_in_catalog(rows: &Vec<SourceIdentity>, wanted: SourceIdentity) -> (found: Option<usize>)
    ensures
        match found {
            Some(at) => {
                &&& at < rows@.len()
                &&& rows@[at as int] == wanted
                &&& matches_before(rows@, wanted, rows@.len() as int) == 1
                &&& wanted != (SourceIdentity { hash: 0, size: 0 })
            },
            None => wanted == (SourceIdentity { hash: 0, size: 0 }) || matches_before(
                rows@,
                wanted,
                rows@.len() as int,
            ) != 1,
        },
{
    if wanted.hash == 0 && wanted.size == 0 {
        return None;
    }
    let mut found: Option<usize> = None;
    let mut several: bool = false;
    let mut i: usize = 0;
    while i < rows.len()
        invariant
            i <= rows@.len(),
            several ==> matches_before(rows@, wanted, i as int) >= 2,
            !several ==> match found {
                Some(at) => at < i && rows@[at as int] == wanted && matches_before(
                    rows@,
                    wanted,
                    i as int,
                ) == 1,
                None => matches_before(rows@, wanted, i as int) == 0,
            },
        decreases rows@.len() - i,
    {
        if rows[i] == wanted {
            if found.is_some() {
                several = true;
            } else {
                found = Some(i);
            }
        }
        i += 1;
    }
    if several {
        None
    } else {
        found
    }
}

/// The two readings of a row's identity: by today's rule, and by the one that
/// saved states older than it used.
#[derive(Clone, Copy, PartialEq, Eq, Structural, Debug)]
pub struct RowIdentity {
    pub current: SourceIdentity,
    pub legacy: SourceIdentity,
}

/// The rows by one of the two readings.
pub open spec fn by_reading(rows: Seq<RowIdentity>, legacy: bool) -> Seq<SourceIdentity> {
    rows.map_values(|row: RowIdentity| if legacy { row.legacy } else { row.current })
}

/// Resolves a saved identity to its row. The saved state says which rule its
/// identity was made by, and that reading alone is tried: the other could
/// name an unrelated book. `None` for the rows stands for a catalog that
/// could not be read.
pub fn find_index_by_identity(rows: &Option<Vec<RowIdentity>>, wanted: SourceIdentity, legacy: bool) -> (found: Option<
    usize,
>)
    ensures
        match (*rows, found) {
            (None, _) => found is None,
            (Some(rows), Some(at)) => {
                let read = by_reading(rows@, legacy);
                &&& at < read.len()
                &&& read[at as int] == wanted
                &&& matches_before(read, wanted, read.len() as int) == 1
                &&& wanted != (SourceIdentity { hash: 0, size: 0 })
            },
            (Some(rows), None) => {
                let read = by_reading(rows@, legacy);
                wanted == (SourceIdentity { hash: 0, size: 0 }) || matches_before(
                    read,
                    wanted,
                    read.len() as int,
                ) != 1
            },
        },
{
    let rows = match rows {
        Some(rows) => rows,
        None => return None,
    };
    let mut read: Vec<SourceIdentity> = Vec::new();
    let mut i: usize = 0;
    while i < rows.len()
        invariant
            i <= rows@.len(),
            read@ == by_reading(rows@, legacy).take(i as int),
        decreases rows@.len() - i,
    {
        read.push(
            if legacy {
                rows[i].legacy
            } else {
                rows[i].current
            },
        );
        i += 1;
        assert(read@ =~= by_reading(rows@, legacy).take(i as int));
    }
    assert(read@ =~= by_reading(rows@, legacy));
    find_in_catalog(&read, wanted)
}

proof fn lemma_two_matches(rows: Seq<SourceIdentity>, wanted: SourceIdentity, a: int, b: int, end: int)
    requires
        0 <= a < b < end <= rows.len(),
        rows[a] == wanted,
        rows[b] == wanted,
    ensures
        matches_before(rows, wanted, end) >= 2,
    decreases end,
{
    if b < end - 1 {
        lemma_two_matches(rows, wanted, a, b, end - 1);
    } else {
        lemma_one_match(rows, wanted, a, end - 1);
    }
}

proof fn lemma_one_match(rows: Seq<SourceIdentity>, wanted: SourceIdentity, a: int, end: int)
    requires
        0 <= a < end <= rows.len(),
        rows[a] == wanted,
    ensures
        matches_before(rows, wanted, end) >= 1,
    decreases end,
{
    if a < end - 1 {
        lemma_one_match(rows, wanted, a, end - 1);
    }
}

/// A book that shares its identity with another is never taken for it: what a
/// lookup finds is the one row with that identity, and where two rows have it
/// nothing is found.
pub proof fn law_twins_are_never_confused(rows: Seq<SourceIdentity>, wanted: SourceIdentity, a: int, b: int)
    requires
        0 <= a < rows.len(),
        0 <= b < rows.len(),
        rows[a] == wanted,
        rows[b] == wanted,
    ensures
        matches_before(rows, wanted, rows.len() as int) == 1 ==> a == b,
{
    if a < b {
        lemma_two_matches(rows, wanted, a, b, rows.len() as int);
    } else if b < a {
        lemma_two_matches(rows, wanted, b, a, rows.len() as int);
    }
}

pub open spec fn located(found: Result<Option<u16>, CatalogFault>) -> CatalogRow {
    match found {
        Ok(Some(index)) => CatalogRow::Found(index),
        Ok(None) => CatalogRow::Rebuild,
        Err(CatalogFault::Device) => CatalogRow::Unreadable,
        Err(_) => CatalogRow::Rebuild,
    }
}

/// What a lookup by place came to. A snapshot that is absent, outdated or
/// damaged has to be rebuilt before it can answer; only a refused read says
/// nothing.
pub fn locate(found: Result<Option<u16>, CatalogFault>) -> (row: CatalogRow)
    ensures
        row == located(found),
{
    match found {
        Ok(Some(index)) => CatalogRow::Found(index),
        Ok(None) => CatalogRow::Rebuild,
        Err(CatalogFault::Device) => CatalogRow::Unreadable,
        Err(_) => CatalogRow::Rebuild,
    }
}

/// What pressing a row of the listing found.
#[derive(Clone, Copy, PartialEq, Eq, Structural, Debug)]
pub enum BrowseChoice {
    Entered(FolderListing),
    Book,
    Failed,
}

/// What pressing a Library row comes to, `row` being where the catalog has
/// the book of the row. `None` stands for a session that would not open.
pub fn choose_library_row(chosen: Option<BrowseChoice>, row: CatalogRow) -> (choice: RowChoice)
    ensures
        choice == row_chosen(chosen, row),
        choice == match chosen {
            Some(BrowseChoice::Entered(listing)) => RowChoice::Entered(listing),
            Some(BrowseChoice::Book) => match row {
                CatalogRow::Found(index) => RowChoice::Book(index),
                CatalogRow::Unreadable => RowChoice::Failed,
                CatalogRow::Rebuild => RowChoice::Stale,
            },
            _ => RowChoice::Failed,
        },
{
    match chosen {
        Some(BrowseChoice::Entered(listing)) => RowChoice::Entered(listing),
        Some(BrowseChoice::Book) => match row {
            CatalogRow::Found(index) => RowChoice::Book(index),
            CatalogRow::Unreadable => RowChoice::Failed,
            CatalogRow::Rebuild => RowChoice::Stale,
        },
        Some(BrowseChoice::Failed) | None => RowChoice::Failed,
    }
}

/// A card that would not answer about its catalog never costs the catalog: a
/// rebuild follows only from a catalog that answered, or one that cannot.
pub proof fn law_refused_read_rebuilds_nothing(found: Result<Option<u16>, CatalogFault>)
    ensures
        located(found) is Unreadable <==> found == Err::<Option<u16>, CatalogFault>(
            CatalogFault::Device,
        ),
        located(found) is Rebuild ==> !(found matches Ok(Some(_))),
{
}

#[derive(Clone, Copy, PartialEq, Eq, Structural, Debug)]
pub enum TitleAction {
    /// Whether the catalog now holds the title.
    Finish(bool),
    /// Open the catalog for writing and read its header. Answer: `Count`.
    Open,
    /// Read the identity of a row. Answer: `Identity`.
    ReadIdentity { index: usize },
    /// Look the identity up in every row. Answer: `Found`.
    Search,
    /// Read the stored title and compare. Answer: `Stored`.
    ReadTitle { index: usize },
    /// Write the title. Answer: `Written`.
    WriteTitle { index: usize },
}

#[derive(Clone, Copy, PartialEq, Eq, Structural, Debug)]
pub enum TitleReply {
    Count(Option<u16>),
    Identity(Option<SourceIdentity>),
    Found(Option<u16>),
    /// Whether the stored title is the wanted one; `None` when it could not
    /// be read.
    Stored(Option<bool>),
    Written(bool),
}

/// Keeping a book's title in its catalog row.
#[derive(Clone, Copy, PartialEq, Eq, Structural, Debug)]
pub struct TitleUpdate {
    pub index: usize,
    pub source: SourceIdentity,
}

pub open spec fn title_next(update: TitleUpdate, action: TitleAction, reply: TitleReply) -> Option<TitleAction> {
    match (action, reply) {
        (TitleAction::Open, TitleReply::Count(count)) => Some(
            match count {
                Some(count) => if update.index < count {
                    TitleAction::ReadIdentity { index: update.index }
                } else {
                    TitleAction::Search
                },
                None => TitleAction::Finish(false),
            },
        ),
        (TitleAction::ReadIdentity { index }, TitleReply::Identity(identity)) => Some(
            if identity == Some(update.source) {
                TitleAction::ReadTitle { index }
            } else {
                TitleAction::Search
            },
        ),
        (TitleAction::Search, TitleReply::Found(found)) => Some(
            match found {
                Some(index) => TitleAction::ReadTitle { index: index as usize },
                None => TitleAction::Finish(false),
            },
        ),
        (TitleAction::ReadTitle { index }, TitleReply::Stored(stored)) => Some(
            match stored {
                Some(true) => TitleAction::Finish(true),
                Some(false) => TitleAction::WriteTitle { index },
                None => TitleAction::Finish(false),
            },
        ),
        (TitleAction::WriteTitle { .. }, TitleReply::Written(written)) => Some(
            TitleAction::Finish(written),
        ),
        _ => None,
    }
}

impl TitleUpdate {
    /// Begins to keep a title. An empty one is not kept.
    pub fn update_catalog_title(index: usize, source: SourceIdentity, title_is_empty: bool) -> (begun: (
        TitleUpdate,
        TitleAction,
    ))
        ensures
            begun == title_begun(index, source, title_is_empty),
            begun.0 == (TitleUpdate { index, source }),
            begun.1 == if title_is_empty { TitleAction::Finish(false) } else { TitleAction::Open },
    {
        (
            TitleUpdate { index, source },
            if title_is_empty {
                TitleAction::Finish(false)
            } else {
                TitleAction::Open
            },
        )
    }

    /// Carries it on after an answer. The row the book was opened from is
    /// trusted only while its identity matches; otherwise the one row with
    /// that identity is.
    pub fn advance(&self, action: TitleAction, reply: TitleReply) -> (next: Option<TitleAction>)
        ensures
            next == title_next(*self, action, reply),
    {
        match (action, reply) {
            (TitleAction::Open, TitleReply::Count(count)) => match count {
                Some(count) => if self.index < count as usize {
                    Some(TitleAction::ReadIdentity { index: self.index })
                } else {
                    Some(TitleAction::Search)
                },
                None => Some(TitleAction::Finish(false)),
            },
            (TitleAction::ReadIdentity { index }, TitleReply::Identity(identity)) => {
                let same: bool = match identity {
                    Some(identity) => identity == self.source,
                    None => false,
                };
                if same {
                    Some(TitleAction::ReadTitle { index })
                } else {
                    Some(TitleAction::Search)
                }
            },
            (TitleAction::Search, TitleReply::Found(found)) => match found {
                Some(index) => Some(TitleAction::ReadTitle { index: index as usize }),
                None => Some(TitleAction::Finish(false)),
            },
            (TitleAction::ReadTitle { index }, TitleReply::Stored(stored)) => match stored {
                Some(true) => Some(TitleAction::Finish(true)),
                Some(false) => Some(TitleAction::WriteTitle { index }),
                None => Some(TitleAction::Finish(false)),
            },
            (TitleAction::WriteTitle { .. }, TitleReply::Written(written)) => Some(
                TitleAction::Finish(written),
            ),
            _ => None,
        }
    }
}

/// A title goes only into a row that was seen to be of this book, and only
/// when it says something new.
pub proof fn law_only_its_own_row_is_retitled(update: TitleUpdate, action: TitleAction, reply: TitleReply)
    ensures
        title_next(update, action, reply) matches Some(next) ==> {
            &&& next is WriteTitle ==> action is ReadTitle && reply == TitleReply::Stored(Some(false))
            &&& next matches TitleAction::ReadTitle { index } ==> {
                ||| action == (TitleAction::ReadIdentity { index }) && reply == TitleReply::Identity(
                    Some(update.source),
                )
                ||| action is Search && reply is Found && reply->Found_0 is Some && index
                    == reply->Found_0->0
            }
        },
{
}

/// Who claims a cache directory, as the sweep reads it.
#[derive(Clone, Copy, PartialEq, Eq, Structural, Debug)]
pub enum DirClaimant {
    Claimed { released: bool },
    Unclaimed,
    Fault,
}

/// Whether the claimant's book is where the claim says.
#[derive(Clone, Copy, PartialEq, Eq, Structural, Debug)]
pub enum ClaimantPlace {
    Live,
    Unreadable,
    Gone,
}

#[derive(Clone, Copy, PartialEq, Eq, Structural, Debug)]
pub enum SweepAction {
    /// Leave the directory as it is.
    Keep,
    /// The directory was emptied.
    Swept,
    /// Ask where the claimant's book is. Answer: `Place`.
    ReadPlace,
    /// Release the claim. Answer: `Went`.
    Release,
    /// Read the directory's index. Answer: `Header`.
    ReadHeader,
    /// Ask whether the catalog holds this identity. Answer: `Went`.
    AskCatalog(SourceIdentity),
    /// Empty the directory. Answer: `Went`.
    Empty,
}

#[derive(Clone, Copy, PartialEq, Eq, Structural, Debug)]
pub enum SweepReply {
    Place(ClaimantPlace),
    Header(CacheHeader),
    Went(bool),
}

/// The first step for a directory with this claim.
pub open spec fn sweep_begun(claimant: DirClaimant) -> SweepAction {
    match claimant {
        DirClaimant::Claimed { .. } => SweepAction::ReadPlace,
        DirClaimant::Unclaimed => SweepAction::ReadHeader,
        DirClaimant::Fault => SweepAction::Keep,
    }
}

pub open spec fn sweep_next(claimant: DirClaimant, action: SweepAction, reply: SweepReply) -> Option<SweepAction> {
    match (action, reply) {
        (SweepAction::ReadPlace, SweepReply::Place(place)) => Some(
            match (place, claimant) {
                (ClaimantPlace::Gone, DirClaimant::Claimed { released: true }) => SweepAction::Empty,
                (ClaimantPlace::Gone, _) => SweepAction::Release,
                _ => SweepAction::Keep,
            },
        ),
        (SweepAction::Release, SweepReply::Went(released)) => Some(
            if released { SweepAction::Empty } else { SweepAction::Keep },
        ),
        (SweepAction::ReadHeader, SweepReply::Header(header)) => Some(
            match header {
                CacheHeader::Present(source) => SweepAction::AskCatalog(source),
                _ => SweepAction::Empty,
            },
        ),
        (SweepAction::AskCatalog(_), SweepReply::Went(held)) => Some(
            if held { SweepAction::Keep } else { SweepAction::Empty },
        ),
        (SweepAction::Empty, SweepReply::Went(_)) => Some(SweepAction::Swept),
        _ => None,
    }
}

/// Begins to judge one cache directory.
pub fn sweep_cache_dir(claimant: DirClaimant) -> (action: SweepAction)
    ensures
        action == sweep_begun(claimant),
{
    match claimant {
        DirClaimant::Claimed { .. } => SweepAction::ReadPlace,
        DirClaimant::Unclaimed => SweepAction::ReadHeader,
        DirClaimant::Fault => SweepAction::Keep,
    }
}

/// Carries the judgement on after an answer.
pub fn continue_sweep(claimant: DirClaimant, action: SweepAction, reply: SweepReply) -> (next: Option<SweepAction>)
    ensures
        next == sweep_next(claimant, action, reply),
{
    match (action, reply) {
        (SweepAction::ReadPlace, SweepReply::Place(place)) => match (place, claimant) {
            (ClaimantPlace::Gone, DirClaimant::Claimed { released: true }) => Some(
                SweepAction::Empty,
            ),
            (ClaimantPlace::Gone, _) => Some(SweepAction::Release),
            _ => Some(SweepAction::Keep),
        },
        (SweepAction::Release, SweepReply::Went(released)) => {
            if released {
                Some(SweepAction::Empty)
            } else {
                Some(SweepAction::Keep)
            }
        },
        (SweepAction::ReadHeader, SweepReply::Header(header)) => match header {
            CacheHeader::Present(source) => Some(SweepAction::AskCatalog(source)),
            CacheHeader::Absent | CacheHeader::Unreadable => Some(SweepAction::Empty),
        },
        (SweepAction::AskCatalog(_), SweepReply::Went(held)) => {
            if held {
                Some(SweepAction::Keep)
            } else {
                Some(SweepAction::Empty)
            }
        },
        (SweepAction::Empty, SweepReply::Went(_)) => Some(SweepAction::Swept),
        _ => None,
    }
}

/// A cache is emptied only on evidence: its claimant's book is gone and the
/// claim was given up, or nobody claims it and the catalog does not hold its
/// book. A claim or a place that could not be read is no evidence.
pub proof fn law_sweep_needs_evidence(claimant: DirClaimant, action: SweepAction, reply: SweepReply)
    ensures
        !(sweep_begun(claimant) is Empty),
        sweep_next(claimant, action, reply) matches Some(next) ==> (next is Empty ==> {
            ||| reply == SweepReply::Place(ClaimantPlace::Gone) && claimant
                == (DirClaimant::Claimed { released: true })
            ||| action is Release && reply == SweepReply::Went(true)
            ||| action is ReadHeader && reply is Header && !(reply->Header_0 is Present)
            ||| action is AskCatalog && reply == SweepReply::Went(false)
        }),
        sweep_next(claimant, action, reply) matches Some(next) ==> (reply == SweepReply::Place(
            ClaimantPlace::Unreadable,
        ) || reply == SweepReply::Place(ClaimantPlace::Live) ==> next is Keep),
{
}

/// How many of a catalog's identities are kept in memory for the sweep, and
/// whether some are not. A catalog that could not be read keeps none, and
/// counts as one that did not fit.
pub fn stage_identities(count: Option<u16>, capacity: usize) -> (staged: (usize, bool))
    ensures
        staged == identities_staged(count, capacity),
        staged == match count {
            Some(count) => (
                if count <= capacity { count as usize } else { capacity },
                count > capacity,
            ),
            None => (0usize, true),
        },
{
    match count {
        Some(count) => if count as usize <= capacity {
            (count as usize, false)
        } else {
            (capacity, true)
        },
        None => (0, true),
    }
}

/// Whether any row has this identity.
pub open spec fn some_row_has(rows: Seq<SourceIdentity>, wanted: SourceIdentity) -> bool {
    exists|i: int| 0 <= i < rows.len() && #[trigger] rows[i] == wanted
}

/// Whether an identity has to be taken for one of the catalog's: it is among
/// the first ones, which are in memory, or, where not all are, on some row of
/// the whole catalog. One row is enough, and two are no less: a cache that
/// any of them may use is not an orphan. `None` stands for a catalog that
/// could not be read to its end, which rules nothing out.
pub fn catalog_holds(staged: bool, truncated: bool, rows: &Option<Vec<SourceIdentity>>, wanted: SourceIdentity) -> (holds: bool)
    ensures
        holds == may_hold(staged, truncated, *rows, wanted),
        holds == (staged || (truncated && match *rows {
            Some(rows) => some_row_has(rows@, wanted),
            None => true,
        })),
{
    if staged || !truncated {
        return staged;
    }
    match rows {
        Some(rows) => row_exists(rows, wanted),
        None => true,
    }
}

fn row_exists(rows: &Vec<SourceIdentity>, wanted: SourceIdentity) -> (exists_one: bool)
    ensures
        exists_one == some_row_has(rows@, wanted),
{
    let mut i: usize = 0;
    while i < rows.len()
        invariant
            i <= rows@.len(),
            forall|j: int| 0 <= j < i ==> #[trigger] rows@[j] != wanted,
        decreases rows@.len() - i,
    {
        if rows[i] == wanted {
            assert(rows@[i as int] == wanted);
            return true;
        }
        i += 1;
    }
    false
}

/// How the identities in memory answer for the whole catalog: they are its
/// first rows, and whether there are more is known.
pub open spec fn staged_from(rows: Seq<SourceIdentity>, count: int, truncated: bool) -> bool {
    0 <= count <= rows.len() && (truncated == (count < rows.len()))
}

/// A live book's cache is never swept, however many rows share its identity
/// and however few of them fit in memory: where a row of the catalog has the
/// identity of an unclaimed directory, the catalog is said to hold it and the
/// directory is kept.
pub proof fn law_live_cache_is_never_swept(rows: Seq<SourceIdentity>, wanted: SourceIdentity, count: int, truncated: bool)
    requires
        staged_from(rows, count, truncated),
        some_row_has(rows, wanted),
    ensures
        ({
            let held = some_row_has(rows.take(count), wanted) || (truncated && some_row_has(
                rows,
                wanted,
            ));
            &&& held
            &&& sweep_next(
                DirClaimant::Unclaimed,
                SweepAction::AskCatalog(wanted),
                SweepReply::Went(held),
            ) == Some(SweepAction::Keep)
        }),
{
    if !truncated {
        assert(rows.take(count) =~= rows);
    }
}

/// Where a row's label comes from.
#[derive(Clone, Copy, PartialEq, Eq, Structural, Debug)]
pub enum LabelSource {
    /// The title kept in the book's cache.
    CachedTitle,
    /// The readable name kept at upload.
    UploadLabel,
    /// Neither: the file name.
    FileStem,
}

/// The label of a row, in order of authority. A row whose root this build
/// does not know has no directory to ask.
pub fn cached_title_label(root_is_known: bool, has_cached_title: bool, has_upload_label: bool) -> (source: LabelSource)
    ensures
        source == label_source(root_is_known, has_cached_title, has_upload_label),
        source == if root_is_known && has_cached_title {
            LabelSource::CachedTitle
        } else if root_is_known && has_upload_label {
            LabelSource::UploadLabel
        } else {
            LabelSource::FileStem
        },
{
    if !root_is_known {
        LabelSource::FileStem
    } else if has_cached_title {
        LabelSource::CachedTitle
    } else if has_upload_label {
        LabelSource::UploadLabel
    } else {
        LabelSource::FileStem
    }
}

/// Whether a row still says where a book is: it was read, it is of this book,
/// and it names a root this build knows.
pub fn record_location(record: Option<SourceIdentity>, identity: SourceIdentity, root_is_known: bool) -> (located: bool)
    ensures
        located == says_where(record, identity, root_is_known),
        located == (record == Some(identity) && root_is_known),
{
    match record {
        Some(found) => found == identity && root_is_known,
        None => false,
    }
}

/// The id of the copy at a row: the resident one for the active book, and
/// otherwise, or where that has none, the row's own.
pub fn record_copy_id(is_active: bool, active_id: Option<u64>, row_id: Option<u64>) -> (id: Option<u64>)
    ensures
        id == copy_id_of(is_active, active_id, row_id),
        id == if is_active && active_id is Some { active_id } else { row_id },
{
    if is_active && active_id.is_some() {
        active_id
    } else {
        row_id
    }
}

/// An entry of a directory, as far as a walk tells it apart.
#[derive(Clone, Copy, PartialEq, Eq, Structural, Debug)]
pub struct EntryFacts {
    pub is_directory: bool,
    pub is_volume: bool,
    /// Its short name was rendered whole; a part of one names another file.
    pub alias_is_whole: bool,
    /// Its names say that it is a book.
    pub is_book: bool,
    /// Its name makes a path.
    pub has_locator: bool,
}

/// Whether a walk reports an entry.
pub fn collects(entry: &EntryFacts) -> (collected: bool)
    ensures
        collected == is_collected(*entry),
        collected == (!entry.is_directory && !entry.is_volume && entry.alias_is_whole
            && entry.is_book && entry.has_locator),
{
    !entry.is_directory && !entry.is_volume && entry.alias_is_whole && entry.is_book
        && entry.has_locator
}

/// What a shelf that opened, or did not, means for a walk.
#[derive(Clone, Copy, PartialEq, Eq, Structural, Debug)]
pub enum ShelfWalk {
    Descend,
    /// There is no shelf; the card's root is all there is.
    Done,
    /// The walk failed: a catalog without the shelf's books must not be
    /// committed.
    Fail,
}

/// How a walk goes on at the shelf.
pub fn walk_shelf(shelf: crate::recovery::Shelf) -> (walk: ShelfWalk)
    ensures
        walk == shelf_walk(shelf),
        walk == match shelf {
            crate::recovery::Shelf::Found => ShelfWalk::Descend,
            crate::recovery::Shelf::Absent => ShelfWalk::Done,
            crate::recovery::Shelf::Unreadable => ShelfWalk::Fail,
        },
{
    match shelf {
        crate::recovery::Shelf::Found => ShelfWalk::Descend,
        crate::recovery::Shelf::Absent => ShelfWalk::Done,
        crate::recovery::Shelf::Unreadable => ShelfWalk::Fail,
    }
}

/// Records lie one after another behind the header, without gap or overlap.
pub proof fn law_records_lie_one_after_another(layout: CatalogLayout, index: int)
    ensures
        layout.offset(0) == layout.header_bytes,
        layout.offset(index + 1) == layout.offset(index) + layout.record_bytes,
{
    let r = layout.record_bytes as int;
    assert((index + 1) * r == index * r + r) by (nonlinear_arith);
    assert(0 * r == 0);
}

proof fn lemma_no_match(rows: Seq<SourceIdentity>, wanted: SourceIdentity, end: int)
    requires
        0 <= end <= rows.len(),
        forall|i: int| 0 <= i < end ==> #[trigger] rows[i] != wanted,
    ensures
        matches_before(rows, wanted, end) == 0,
    decreases end,
{
    if end > 0 {
        lemma_no_match(rows, wanted, end - 1);
        assert(rows[end - 1] != wanted);
    }
}

proof fn lemma_only_match(rows: Seq<SourceIdentity>, wanted: SourceIdentity, at: int, end: int)
    requires
        0 <= at < end <= rows.len(),
        rows[at] == wanted,
        forall|i: int| 0 <= i < end && i != at ==> #[trigger] rows[i] != wanted,
    ensures
        matches_before(rows, wanted, end) == 1,
    decreases end,
{
    if at == end - 1 {
        lemma_no_match(rows, wanted, end - 1);
    } else {
        lemma_only_match(rows, wanted, at, end - 1);
        assert(rows[end - 1] != wanted);
    }
}

/// The rows that match are counted as one exactly when one row has the
/// identity and no other does.
pub proof fn law_one_match_is_one_row(rows: Seq<SourceIdentity>, wanted: SourceIdentity)
    ensures
        matches_before(rows, wanted, rows.len() as int) == 1 <==> exists|at: int|
            0 <= at < rows.len() && #[trigger] rows[at] == wanted && forall|i: int|
                0 <= i < rows.len() && i != at ==> #[trigger] rows[i] != wanted,
{
    let count = matches_before(rows, wanted, rows.len() as int);
    if exists|at: int| 0 <= at < rows.len() && #[trigger] rows[at] == wanted {
        let at = choose|at: int| 0 <= at < rows.len() && #[trigger] rows[at] == wanted;
        if exists|i: int| 0 <= i < rows.len() && i != at && #[trigger] rows[i] == wanted {
            let i = choose|i: int| 0 <= i < rows.len() && i != at && #[trigger] rows[i] == wanted;
            if i < at {
                lemma_two_matches(rows, wanted, i, at, rows.len() as int);
            } else {
                lemma_two_matches(rows, wanted, at, i, rows.len() as int);
            }
        } else {
            lemma_only_match(rows, wanted, at, rows.len() as int);
        }
    } else {
        lemma_no_match(rows, wanted, rows.len() as int);
    }
}

/// A row is read by the rule the saved state was made under and by no other,
/// whichever row it is.
pub proof fn law_one_rule_reads_every_row(rows: Seq<RowIdentity>, legacy: bool, at: int)
    requires
        0 <= at < rows.len(),
    ensures
        by_reading(rows, legacy).len() == rows.len(),
        legacy ==> by_reading(rows, legacy)[at] == rows[at].legacy,
        !legacy ==> by_reading(rows, legacy)[at] == rows[at].current,
{
}

/// A lookup is answered with the row that was found, and a book that was not
/// found, in a catalog that answered or that cannot answer, asks for a new
/// catalog.
pub proof fn law_lookup_is_answered(found: Result<Option<u16>, CatalogFault>)
    ensures
        found matches Ok(Some(index)) ==> located(found) == CatalogRow::Found(index),
        located(found) matches CatalogRow::Found(index) ==> found == Ok::<Option<u16>, CatalogFault>(
            Some(index),
        ),
        located(found) is Rebuild <==> found == Ok::<Option<u16>, CatalogFault>(None) || (found
            is Err && found->Err_0 != CatalogFault::Device),
{
}

/// What keeping a title has come to.
pub struct TitleWatch {
    pub action: TitleAction,
    /// The row last seen to be of this book.
    pub proved: Option<usize>,
    /// The title was found to stand there already, or was written there.
    pub kept: bool,
}

/// Keeping a title, fed answers in order.
pub open spec fn title_watched(update: TitleUpdate, replies: Seq<TitleReply>) -> TitleWatch
    decreases replies.len(),
{
    if replies.len() == 0 {
        TitleWatch { action: TitleAction::Open, proved: None, kept: false }
    } else {
        let before = title_watched(update, replies.drop_last());
        match title_next(update, before.action, replies.last()) {
            Some(next) => TitleWatch {
                action: next,
                proved: match (before.action, replies.last()) {
                    (TitleAction::ReadIdentity { index }, TitleReply::Identity(identity)) => {
                        if identity == Some(update.source) { Some(index) } else { None }
                    },
                    (_, TitleReply::Found(Some(index))) => Some(index as usize),
                    _ => before.proved,
                },
                kept: before.kept || replies.last() == TitleReply::Stored(Some(true)) || replies.last()
                    == TitleReply::Written(true),
            },
            None => before,
        }
    }
}

/// A title is compared with, and written to, the row that was seen to be of
/// this book: the row it was opened from while that has its identity, and the
/// one row with that identity otherwise. It counts as kept exactly when it
/// stood there already or was written.
pub proof fn law_title_is_kept_in_its_row(update: TitleUpdate, replies: Seq<TitleReply>)
    ensures
        ({
            let watch = title_watched(update, replies);
            &&& (watch.action matches TitleAction::ReadTitle { index } ==> watch.proved == Some(index))
            &&& (watch.action matches TitleAction::WriteTitle { index } ==> watch.proved == Some(index))
            &&& (watch.action matches TitleAction::ReadIdentity { index } ==> index == update.index)
            &&& (watch.action matches TitleAction::Finish(kept) ==> kept == watch.kept)
            &&& !(watch.action is Finish) ==> !watch.kept
        }),
    decreases replies.len(),
{
    if replies.len() > 0 {
        law_title_is_kept_in_its_row(update, replies.drop_last());
    }
}

/// A title that is not in its row yet is written, and a book that may have
/// moved is searched for before it is given up.
pub proof fn law_title_is_not_given_up_early(update: TitleUpdate, action: TitleAction, reply: TitleReply)
    ensures
        title_next(update, action, reply) == Some(TitleAction::Finish(false)) ==> {
            ||| reply == TitleReply::Count(None)
            ||| reply == TitleReply::Found(None)
            ||| reply == TitleReply::Stored(None)
            ||| reply == TitleReply::Written(false)
        },
        action is ReadTitle && reply == TitleReply::Stored(Some(false)) ==> title_next(
            update,
            action,
            reply,
        ) == Some(TitleAction::WriteTitle { index: action->ReadTitle_index }),
{
}

/// What judging a cache directory has come to.
pub struct SweepWatch {
    pub action: SweepAction,
    pub place: Option<ClaimantPlace>,
    /// The claim was given up, before or now.
    pub released: bool,
    pub header: Option<CacheHeader>,
    /// What the catalog said of the identity it was asked about.
    pub held: Option<bool>,
    pub asked: Option<SourceIdentity>,
}

/// The judgement of a directory, fed answers in order.
pub open spec fn sweep_watched(claimant: DirClaimant, replies: Seq<SweepReply>) -> SweepWatch
    decreases replies.len(),
{
    if replies.len() == 0 {
        SweepWatch {
            action: sweep_begun(claimant),
            place: None,
            released: claimant == (DirClaimant::Claimed { released: true }),
            header: None,
            held: None,
            asked: None,
        }
    } else {
        let before = sweep_watched(claimant, replies.drop_last());
        match sweep_next(claimant, before.action, replies.last()) {
            Some(next) => SweepWatch {
                action: next,
                place: match replies.last() {
                    SweepReply::Place(place) => Some(place),
                    _ => before.place,
                },
                released: before.released || (before.action is Release && replies.last()
                    == SweepReply::Went(true)),
                header: match replies.last() {
                    SweepReply::Header(header) => Some(header),
                    _ => before.header,
                },
                held: match (before.action, replies.last()) {
                    (SweepAction::AskCatalog(_), SweepReply::Went(held)) => Some(held),
                    _ => before.held,
                },
                asked: match before.action {
                    SweepAction::AskCatalog(source) => Some(source),
                    _ => before.asked,
                },
            },
            None => before,
        }
    }
}

/// Whether a directory is nobody's: its claimant's book is gone and the claim
/// is given up, or nobody claims it and its index names no book of the
/// catalog.
pub open spec fn is_nobodys(claimant: DirClaimant, watch: SweepWatch) -> bool {
    match claimant {
        DirClaimant::Claimed { .. } => watch.place == Some(ClaimantPlace::Gone) && watch.released,
        DirClaimant::Unclaimed => (watch.header is Some && !(watch.header->0 is Present)) || (watch.header
            is Some && watch.held == Some(false) && watch.asked is Some && watch.header->0
            == CacheHeader::Present(watch.asked->0)),
        DirClaimant::Fault => false,
    }
}

/// A judged directory is swept exactly when it is nobody's, by all that was
/// read of it, and kept otherwise.
pub proof fn law_sweep_takes_what_is_nobodys(claimant: DirClaimant, replies: Seq<SweepReply>)
    ensures
        ({
            let watch = sweep_watched(claimant, replies);
            &&& watch.action is Empty || watch.action is Swept ==> is_nobodys(claimant, watch)
            &&& watch.action is Keep ==> !is_nobodys(claimant, watch)
            &&& watch.action is ReadPlace || watch.action is Release ==> claimant is Claimed
            &&& watch.action is ReadHeader || watch.action is AskCatalog ==> claimant is Unclaimed
                && watch.held is None && watch.asked is None
            &&& watch.action is ReadPlace ==> watch.released == (claimant == (DirClaimant::Claimed {
                released: true,
            }))
            &&& watch.action is ReadHeader ==> watch.header is None
            &&& (watch.action matches SweepAction::AskCatalog(source) ==> watch.header == Some(
                CacheHeader::Present(source),
            ))
            &&& watch.action is Release ==> watch.place == Some(ClaimantPlace::Gone)
                && !watch.released
        }),
    decreases replies.len(),
{
    if replies.len() > 0 {
        law_sweep_takes_what_is_nobodys(claimant, replies.drop_last());
    }
}

pub open spec fn fault_of_open(failure: OpenFailure) -> CatalogFault {
    match failure {
        OpenFailure::NotFound => CatalogFault::Missing,
        OpenFailure::Other => CatalogFault::Device,
    }
}

/// What an opened catalog counts for.
pub open spec fn catalog_judged(
    open: Option<OpenFailure>,
    read: Option<CatalogFault>,
    header: Result<u16, HeaderFault>,
    file_len: u32,
    layout: CatalogLayout,
) -> Result<u16, CatalogFault> {
    match (open, read, header) {
        (Some(failure), _, _) => Err(fault_of_open(failure)),
        (None, Some(fault), _) => Err(fault),
        (None, None, Err(HeaderFault::Stale)) => Err(CatalogFault::Stale),
        (None, None, Err(HeaderFault::Invalid)) => Err(CatalogFault::Invalid),
        (None, None, Ok(count)) => if file_len == layout.offset(count as int) {
            Ok(count)
        } else {
            Err(CatalogFault::Invalid)
        },
    }
}

/// A catalog counts exactly if it opened, its header was read and names a
/// count, and the file holds that many records and no byte more. Otherwise
/// the first thing that failed is what is wrong with it: only a file the card
/// did not find is missing, and only a refused card is the card's fault.
pub proof fn law_catalog_counts_only_if_whole(
    open: Option<OpenFailure>,
    read: Option<CatalogFault>,
    header: Result<u16, HeaderFault>,
    file_len: u32,
    layout: CatalogLayout,
)
    ensures
        ({
            let judged = catalog_judged(open, read, header, file_len, layout);
            &&& judged matches Ok(count) ==> open is None && read is None && header == Ok::<
                u16,
                HeaderFault,
            >(count) && file_len == layout.header_bytes + count * layout.record_bytes
            &&& (header matches Ok(count) && open is None && read is None && file_len
                == layout.header_bytes + count * layout.record_bytes) ==> judged is Ok
            &&& open == Some(OpenFailure::NotFound) ==> judged == Err::<u16, CatalogFault>(
                CatalogFault::Missing,
            )
            &&& open == Some(OpenFailure::Other) ==> judged == Err::<u16, CatalogFault>(
                CatalogFault::Device,
            )
            &&& open is None && read is Some ==> judged == Err::<u16, CatalogFault>(read->0)
            &&& open is None && read is None && header == Err::<u16, HeaderFault>(HeaderFault::Stale)
                ==> judged == Err::<u16, CatalogFault>(CatalogFault::Stale)
            &&& open is None && read is None && header != Err::<u16, HeaderFault>(HeaderFault::Stale)
                && judged is Err ==> judged == Err::<u16, CatalogFault>(CatalogFault::Invalid)
        }),
{
}

pub open spec fn read_goes_on(owed: usize, read: FileRead) -> Result<usize, CatalogFault> {
    match read {
        FileRead::Refused => Err(CatalogFault::Device),
        FileRead::Read(count) => if count == 0 {
            Err(CatalogFault::Invalid)
        } else {
            Ok((owed - count) as usize)
        },
    }
}

/// Reading goes on with what is still owed, which gets less with every read;
/// one that gives nothing, or is refused, ends it, and the two are told apart.
pub proof fn law_reading_gets_on(owed: usize, count: usize)
    requires
        count <= owed,
    ensures
        read_goes_on(owed, FileRead::Refused) == Err::<usize, CatalogFault>(CatalogFault::Device),
        count == 0 ==> read_goes_on(owed, FileRead::Read(count)) == Err::<usize, CatalogFault>(
            CatalogFault::Invalid,
        ),
        count > 0 ==> (read_goes_on(owed, FileRead::Read(count)) matches Ok(left) && left + count
            == owed),
{
}

pub open spec fn records_in_window(start: int, count: int, window: int) -> int {
    if start >= count {
        0
    } else if window <= count - start {
        window
    } else {
        count - start
    }
}

/// A window holds as many records as there are behind its start and as fit.
pub proof fn law_window_is_as_long_as_it_can_be(start: int, count: int, window: int)
    requires
        start >= 0,
        count >= 0,
        window >= 0,
    ensures
        ({
            let take = records_in_window(start, count, window);
            &&& 0 <= take <= window
            &&& take > 0 ==> start + take <= count
            &&& take == window || start + take >= count
        }),
{
}

pub open spec fn row_chosen(chosen: Option<BrowseChoice>, row: CatalogRow) -> RowChoice {
    match chosen {
        Some(BrowseChoice::Entered(listing)) => RowChoice::Entered(listing),
        Some(BrowseChoice::Book) => match row {
            CatalogRow::Found(index) => RowChoice::Book(index),
            CatalogRow::Unreadable => RowChoice::Failed,
            CatalogRow::Rebuild => RowChoice::Stale,
        },
        _ => RowChoice::Failed,
    }
}

/// A folder is entered whatever the catalog says; a book is opened at the row
/// the catalog has it at, asks for a new catalog where that does not have it,
/// and fails where it could not be read. Nothing else opens anything.
pub proof fn law_row_is_what_was_pressed(chosen: Option<BrowseChoice>, row: CatalogRow)
    ensures
        row_chosen(chosen, row) matches RowChoice::Entered(listing) ==> chosen == Some(
            BrowseChoice::Entered(listing),
        ),
        row_chosen(chosen, row) matches RowChoice::Book(index) ==> chosen == Some(BrowseChoice::Book)
            && row == CatalogRow::Found(index),
        row_chosen(chosen, row) is Stale <==> chosen == Some(BrowseChoice::Book) && row is Rebuild,
        row_chosen(chosen, row) is Failed <==> chosen is None || chosen == Some(BrowseChoice::Failed)
            || (chosen == Some(BrowseChoice::Book) && row is Unreadable),
{
}

pub open spec fn identities_staged(count: Option<u16>, capacity: usize) -> (usize, bool) {
    match count {
        Some(count) => (if count <= capacity { count as usize } else { capacity }, count > capacity),
        None => (0usize, true),
    }
}

/// As many identities are kept as there are and as fit, and some are known to
/// be missing exactly if they do not all fit or could not be counted.
pub proof fn law_missing_identities_are_known(count: Option<u16>, capacity: usize)
    ensures
        ({
            let (kept, truncated) = identities_staged(count, capacity);
            &&& kept <= capacity
            &&& !truncated <==> count is Some && kept == count->0
            &&& count is Some && truncated ==> kept == capacity < count->0
            &&& count is None ==> kept == 0
        }),
{
}

pub open spec fn label_source(root_is_known: bool, has_cached_title: bool, has_upload_label: bool) -> LabelSource {
    if root_is_known && has_cached_title {
        LabelSource::CachedTitle
    } else if root_is_known && has_upload_label {
        LabelSource::UploadLabel
    } else {
        LabelSource::FileStem
    }
}

/// A row is labelled by what is there, and by the title before the name of the
/// upload; by its file only where there is neither to ask.
pub proof fn law_title_outranks_the_name(root_is_known: bool, has_cached_title: bool, has_upload_label: bool)
    ensures
        ({
            let source = label_source(root_is_known, has_cached_title, has_upload_label);
            &&& source is CachedTitle <==> root_is_known && has_cached_title
            &&& source is UploadLabel ==> has_upload_label && !has_cached_title && root_is_known
            &&& source is FileStem <==> !root_is_known || (!has_cached_title && !has_upload_label)
        }),
{
}

pub open spec fn says_where(record: Option<SourceIdentity>, identity: SourceIdentity, root_is_known: bool) -> bool {
    record == Some(identity) && root_is_known
}

/// A row says where a book is only if it is that book's, in every part.
pub proof fn law_row_speaks_for_its_own_book(record: Option<SourceIdentity>, identity: SourceIdentity, root_is_known: bool)
    ensures
        says_where(record, identity, root_is_known) <==> root_is_known && record is Some
            && record->0.hash == identity.hash && record->0.size == identity.size,
{
}

pub open spec fn copy_id_of(is_active: bool, active_id: Option<u64>, row_id: Option<u64>) -> Option<u64> {
    if is_active && active_id is Some { active_id } else { row_id }
}

/// The id in memory is that of the active book alone, and a row that has none
/// in memory has its own.
pub proof fn law_copy_id_is_of_the_row(is_active: bool, active_id: Option<u64>, row_id: Option<u64>)
    ensures
        !is_active || active_id is None ==> copy_id_of(is_active, active_id, row_id) == row_id,
        is_active && active_id is Some ==> copy_id_of(is_active, active_id, row_id) == active_id,
{
}

pub open spec fn is_collected(entry: EntryFacts) -> bool {
    !entry.is_directory && !entry.is_volume && entry.alias_is_whole && entry.is_book
        && entry.has_locator
}

/// A walk reports exactly the files that are books and can be found again: by
/// a whole short name and a path.
pub proof fn law_books_are_collected(entry: EntryFacts)
    ensures
        is_collected(entry) ==> entry.is_book && entry.alias_is_whole && entry.has_locator,
        is_collected(entry) ==> !(entry.is_directory || entry.is_volume),
        entry.is_book && entry.alias_is_whole && entry.has_locator && !entry.is_directory
            && !entry.is_volume ==> is_collected(entry),
{
}

pub open spec fn shelf_walk(shelf: crate::recovery::Shelf) -> ShelfWalk {
    match shelf {
        crate::recovery::Shelf::Found => ShelfWalk::Descend,
        crate::recovery::Shelf::Absent => ShelfWalk::Done,
        crate::recovery::Shelf::Unreadable => ShelfWalk::Fail,
    }
}

/// A walk goes into a shelf that is there, is done without one, and fails for
/// one that may be there and cannot be read.
pub proof fn law_unread_shelf_fails_the_walk(shelf: crate::recovery::Shelf)
    ensures
        shelf_walk(shelf) is Fail <==> shelf is Unreadable,
        shelf_walk(shelf) is Descend <==> shelf is Found,
        shelf_walk(shelf) is Done <==> shelf is Absent,
{
}

pub open spec fn title_begun(index: usize, source: SourceIdentity, title_is_empty: bool) -> (TitleUpdate, TitleAction) {
    (
        TitleUpdate { index, source },
        if title_is_empty { TitleAction::Finish(false) } else { TitleAction::Open },
    )
}

pub open spec fn may_hold(staged: bool, truncated: bool, rows: Option<Vec<SourceIdentity>>, wanted: SourceIdentity) -> bool {
    staged || (truncated && match rows {
        Some(rows) => some_row_has(rows@, wanted),
        None => true,
    })
}

/// A title is written to the row and for the book it was read of, and an empty
/// one is written nowhere.
pub proof fn law_title_goes_to_its_row(index: usize, source: SourceIdentity)
    ensures
        title_begun(index, source, false).1 is Open,
        title_begun(index, source, false).0.index == index,
        title_begun(index, source, false).0.source == source,
        title_begun(index, source, true).1 == TitleAction::Finish(false),
{
}

/// An identity that some row has is never taken for nobody's, nor is any as
/// long as the rows could not all be read; one that no row has is nobody's as
/// soon as they were.
pub proof fn law_rows_protect_their_caches(staged: bool, rows: Vec<SourceIdentity>, wanted: SourceIdentity, at: int)
    ensures
        may_hold(true, false, None, wanted),
        may_hold(true, true, Some(rows), wanted),
        may_hold(false, true, None, wanted),
        0 <= at < rows@.len() && rows@[at] == wanted ==> may_hold(staged, true, Some(rows), wanted),
        may_hold(false, true, Some(rows), wanted) ==> exists|i: int|
            0 <= i < rows@.len() && #[trigger] rows@[i] == wanted,
        !may_hold(false, false, None, wanted),
        !may_hold(false, false, Some(rows), wanted),
{
}

/// Two faults are never told by the same token, and none by that of success.
pub proof fn law_tokens_tell_faults_apart(fault: CatalogFault, other: CatalogFault)
    ensures
        fault_token(fault) == fault_token(other) ==> fault == other,
        fault_token(fault) != "hit"@,
{
    reveal_strlit("miss");
    reveal_strlit("stale");
    reveal_strlit("invalid");
    reveal_strlit("error");
    reveal_strlit("reclaimed");
    reveal_strlit("unreconciled");
    reveal_strlit("hit");
    assert(fault_token(fault).len() > "hit"@.len());
    if fault_token(fault) == fault_token(other) {
        assert(fault_token(fault)[0] == fault_token(other)[0]);
    }
}

} // verus!
