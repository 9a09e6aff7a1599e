//! Clearing one book's cache without touching another's.
use vstd::prelude::*;
use crate::messages::SourceIdentity;

verus! {

/// Who claims a cache directory.
#[derive(Clone, Copy, PartialEq, Eq, Structural, Debug)]
pub enum ClaimState {
    MineActive,
    MineReleased,
    Unclaimed,
    OtherActive,
    OtherReleased,
    Fault,
}

/// What the directory's index says of its book.
#[derive(Clone, Copy, PartialEq, Eq, Structural, Debug)]
pub enum CacheHeader {
    Present(SourceIdentity),
    /// It is there and cannot be read, so it cannot say whose it is.
    Unreadable,
    /// There is none: nothing usable is there for anyone.
    Absent,
}

#[derive(Clone, Copy, PartialEq, Eq, Structural, Debug)]
pub enum ClearAction {
    /// The clear is over. Drop what describes files that may be gone.
    Finish { cleared: bool, drop_loaded: bool, drop_cover: bool },
    /// Read the row's identity from the card. Answer: `Identity`.
    ReadRow,
    /// Open a session and look for the row's location. Answer: `Claim`.
    ReadClaim,
    /// Read the directory's index. Answer: `Header`.
    ReadHeader,
    /// Empty the directory. Answer: `Emptied`.
    Empty,
}

#[derive(Clone, Copy, PartialEq, Eq, Structural, Debug)]
pub enum ClearReply {
    Identity(Option<SourceIdentity>),
    /// `None` when the session would not open. The claim is `None` when the
    /// row has no provable location.
    Claim(Option<Option<ClaimState>>),
    Header(CacheHeader),
    /// Whether every file went.
    Emptied(bool),
}

#[derive(Clone, Copy, PartialEq, Eq, Structural, Debug)]
pub enum ClearStage {
    Over,
    Row,
    Claim,
    Header,
    Emptying,
    /// The index is read once more to see that it is gone.
    Proof { emptied: bool },
}

/// A clear in progress.
#[derive(Clone, Copy, PartialEq, Eq, Structural, Debug)]
pub struct CacheClear {
    pub index: usize,
    pub source: Option<SourceIdentity>,
    pub loaded_index: Option<usize>,
    pub current_index: Option<usize>,
}

pub open spec fn claim_allows(claim: Option<ClaimState>) -> bool {
    match claim {
        None => true,
        Some(state) => state is MineActive || state is MineReleased || state is Unclaimed,
    }
}

/// Whether an index lets its directory be cleared for this book.
pub open spec fn header_allows(header: CacheHeader, source: Option<SourceIdentity>) -> bool {
    match header {
        CacheHeader::Present(found) => source == Some(found),
        CacheHeader::Unreadable => false,
        CacheHeader::Absent => true,
    }
}

pub open spec fn refused() -> (ClearAction, ClearStage) {
    (
        ClearAction::Finish { cleared: false, drop_loaded: false, drop_cover: false },
        ClearStage::Over,
    )
}

/// A delete that ran, however it ended, may have taken files that are
/// resident; those are dropped.
pub open spec fn attempted(clear: CacheClear, cleared: bool) -> (ClearAction, ClearStage) {
    (
        ClearAction::Finish {
            cleared,
            drop_loaded: clear.loaded_index == Some(clear.index),
            drop_cover: clear.current_index == Some(clear.index),
        },
        ClearStage::Over,
    )
}

pub open spec fn clear_next(clear: CacheClear, stage: ClearStage, reply: ClearReply) -> Option<(CacheClear, (ClearAction, ClearStage))> {
    match (stage, reply) {
        (ClearStage::Row, ClearReply::Identity(source)) => Some(
            match source {
                Some(_) => (CacheClear { source, ..clear }, (ClearAction::ReadClaim, ClearStage::Claim)),
                None => (clear, refused()),
            },
        ),
        (ClearStage::Claim, ClearReply::Claim(claim)) => Some(
            (
                clear,
                match claim {
                    Some(claim) => if claim_allows(claim) {
                        (ClearAction::ReadHeader, ClearStage::Header)
                    } else {
                        refused()
                    },
                    None => refused(),
                },
            ),
        ),
        (ClearStage::Header, ClearReply::Header(header)) => Some(
            (
                clear,
                if header_allows(header, clear.source) {
                    (ClearAction::Empty, ClearStage::Emptying)
                } else {
                    refused()
                },
            ),
        ),
        (ClearStage::Emptying, ClearReply::Emptied(emptied)) => Some(
            (
                clear,
                if emptied {
                    (ClearAction::ReadHeader, ClearStage::Proof { emptied })
                } else {
                    attempted(clear, false)
                },
            ),
        ),
        (ClearStage::Proof { emptied }, ClearReply::Header(header)) => Some(
            (clear, attempted(clear, emptied && header is Absent)),
        ),
        _ => None,
    }
}

fn same_index(found: Option<usize>, index: usize) -> (same: bool)
    ensures
        same == (found == Some(index)),
{
    match found {
        Some(found) => found == index,
        None => false,
    }
}

impl CacheClear {
    /// Begins to clear the cache of row `index`. The row's identity comes from
    /// the store, or from the card when the store does not hold the row.
    pub fn clear_book_cache(
        index: usize,
        entry: Option<SourceIdentity>,
        loaded_index: Option<usize>,
        current_index: Option<usize>,
    ) -> (begun: (CacheClear, (ClearAction, ClearStage)))
        ensures
            begun == clearing_begun(index, entry, loaded_index, current_index),
            begun.0 == (CacheClear { index, source: entry, loaded_index, current_index }),
            begun.1 == if entry is Some {
                (ClearAction::ReadClaim, ClearStage::Claim)
            } else {
                (ClearAction::ReadRow, ClearStage::Row)
            },
    {
        let clear = CacheClear { index, source: entry, loaded_index, current_index };
        if entry.is_some() {
            (clear, (ClearAction::ReadClaim, ClearStage::Claim))
        } else {
            (clear, (ClearAction::ReadRow, ClearStage::Row))
        }
    }

    fn refuse(&self) -> (step: (ClearAction, ClearStage))
        ensures
            step == refused(),
    {
        (
            ClearAction::Finish { cleared: false, drop_loaded: false, drop_cover: false },
            ClearStage::Over,
        )
    }

    fn finish(&self, cleared: bool) -> (step: (ClearAction, ClearStage))
        ensures
            step == attempted(*self, cleared),
    {
        (
            ClearAction::Finish {
                cleared,
                drop_loaded: same_index(self.loaded_index, self.index),
                drop_cover: same_index(self.current_index, self.index),
            },
            ClearStage::Over,
        )
    }

    /// What the answer to the last action does. `None`, with nothing changed,
    /// when the stage is not waiting for that kind of answer.
    pub fn advance(&mut self, stage: ClearStage, reply: ClearReply) -> (step: Option<(ClearAction, ClearStage)>)
        ensures
            match clear_next(*old(self), stage, reply) {
                Some(next) => step == Some(next.1) && *final(self) == next.0,
                None => step is None && *final(self) == *old(self),
            },
    {
        match (stage, reply) {
            (ClearStage::Row, ClearReply::Identity(source)) => match source {
                Some(_) => {
                    self.source = source;
                    Some((ClearAction::ReadClaim, ClearStage::Claim))
                },
                None => Some(self.refuse()),
            },
            (ClearStage::Claim, ClearReply::Claim(claim)) => {
                let allowed: bool = match claim {
                    None => false,
                    Some(None) => true,
                    Some(Some(state)) => match state {
                        ClaimState::MineActive
                        | ClaimState::MineReleased
                        | ClaimState::Unclaimed => true,
                        ClaimState::OtherActive
                        | ClaimState::OtherReleased
                        | ClaimState::Fault => false,
                    },
                };
                if allowed {
                    Some((ClearAction::ReadHeader, ClearStage::Header))
                } else {
                    Some(self.refuse())
                }
            },
            (ClearStage::Header, ClearReply::Header(header)) => {
                let allowed: bool = match header {
                    CacheHeader::Present(found) => match self.source {
                        Some(source) => source == found,
                        None => false,
                    },
                    CacheHeader::Unreadable => false,
                    CacheHeader::Absent => true,
                };
                if allowed {
                    Some((ClearAction::Empty, ClearStage::Emptying))
                } else {
                    Some(self.refuse())
                }
            },
            (ClearStage::Emptying, ClearReply::Emptied(emptied)) => {
                if emptied {
                    Some((ClearAction::ReadHeader, ClearStage::Proof { emptied }))
                } else {
                    Some(self.finish(false))
                }
            },
            (ClearStage::Proof { emptied }, ClearReply::Header(header)) => {
                let gone: bool = matches!(header, CacheHeader::Absent);
                Some(self.finish(emptied && gone))
            },
            _ => None,
        }
    }
}

/// Nothing is deleted unless the claim and the index both allow it: not for
/// another book's claim, not for another book's index, and not for an index
/// that cannot say whose it is.
pub proof fn law_only_its_own_cache_is_cleared(clear: CacheClear, stage: ClearStage, reply: ClearReply)
    ensures
        clear_next(clear, stage, reply) matches Some(next) ==> {
            &&& next.1.0 is Empty ==> stage is Header && reply is Header && header_allows(
                reply->Header_0,
                clear.source,
            )
            &&& next.1.1 is Header ==> stage is Claim && reply is Claim && reply->Claim_0 is Some
                && claim_allows(reply->Claim_0->0)
        },
{
}

/// A cache is reported cleared only when every file went and the index is
/// seen to be gone; and whenever a delete ran, the resident copy of this book
/// is dropped.
pub proof fn law_cleared_means_gone(clear: CacheClear, stage: ClearStage, reply: ClearReply)
    ensures
        clear_next(clear, stage, reply) matches Some(next) ==> (next.1.0 matches ClearAction::Finish {
            cleared,
            drop_loaded,
            ..
        } ==> {
            &&& cleared ==> stage == (ClearStage::Proof { emptied: true }) && reply
                == ClearReply::Header(CacheHeader::Absent)
            &&& (stage is Emptying || stage is Proof) && clear.loaded_index == Some(clear.index)
                ==> drop_loaded
        }),
{
}

/// What a clear has been told.
pub struct ClearWatch {
    pub clear: CacheClear,
    pub action: ClearAction,
    pub stage: ClearStage,
    /// The claim as it was read; `None` before that.
    pub claim: Option<Option<ClaimState>>,
    /// What the index said before anything was deleted.
    pub header: Option<CacheHeader>,
    /// Whether files were deleted, and whether every one went.
    pub emptied: Option<bool>,
    /// What the index said afterwards.
    pub after: Option<CacheHeader>,
}

/// A clear that was begun, fed answers in order.
pub open spec fn clear_watched(begun: (CacheClear, (ClearAction, ClearStage)), replies: Seq<ClearReply>) -> ClearWatch
    decreases replies.len(),
{
    if replies.len() == 0 {
        ClearWatch {
            clear: begun.0,
            action: begun.1.0,
            stage: begun.1.1,
            claim: None,
            header: None,
            emptied: None,
            after: None,
        }
    } else {
        let before = clear_watched(begun, replies.drop_last());
        match clear_next(before.clear, before.stage, replies.last()) {
            Some(next) => ClearWatch {
                clear: next.0,
                action: next.1.0,
                stage: next.1.1,
                claim: match replies.last() {
                    ClearReply::Claim(claim) => claim,
                    _ => before.claim,
                },
                header: match replies.last() {
                    ClearReply::Header(header) => if before.emptied is None {
                        Some(header)
                    } else {
                        before.header
                    },
                    _ => before.header,
                },
                emptied: match replies.last() {
                    ClearReply::Emptied(emptied) => Some(emptied),
                    _ => before.emptied,
                },
                after: match replies.last() {
                    ClearReply::Header(header) => if before.emptied is Some {
                        Some(header)
                    } else {
                        before.after
                    },
                    _ => before.after,
                },
            },
            None => before,
        }
    }
}

/// Whether what was read shows that the directory holds nothing of another
/// book: no other book claims it, nor does a claim that cannot be read, and
/// its index is this book's or is not there.
pub open spec fn shown_to_be_ours(watch: ClearWatch) -> bool {
    &&& watch.claim matches Some(claim) && (claim is None || claim == Some(ClaimState::MineActive)
        || claim == Some(ClaimState::MineReleased) || claim == Some(ClaimState::Unclaimed))
    &&& watch.header == Some(CacheHeader::Absent) || (watch.clear.source is Some && watch.header
        == Some(CacheHeader::Present(watch.clear.source->0)))
}

/// Files are deleted only where both the claim and the index show that they
/// are this book's. A clear succeeds exactly when every file went and the
/// index is then seen to be gone. Resident copies of this row are dropped
/// exactly when files were deleted, and those of other rows never.
pub proof fn law_clear_is_told_as_it_went(begun: (CacheClear, (ClearAction, ClearStage)), replies: Seq<ClearReply>)
    requires
        begun.1 == (ClearAction::ReadClaim, ClearStage::Claim) || begun.1 == (
            ClearAction::ReadRow,
            ClearStage::Row,
        ),
    ensures
        ({
            let watch = clear_watched(begun, replies);
            &&& watch.clear.index == begun.0.index
            &&& watch.clear.loaded_index == begun.0.loaded_index
            &&& watch.clear.current_index == begun.0.current_index
            &&& watch.action is Empty || watch.emptied is Some ==> shown_to_be_ours(watch)
            &&& watch.action is Empty <==> watch.stage is Emptying
            &&& watch.stage is Row || watch.stage is Claim || watch.stage is Header
                || watch.stage is Emptying ==> watch.emptied is None && watch.after is None
            &&& watch.stage is Header ==> (watch.claim matches Some(claim) && (claim is None || claim
                == Some(ClaimState::MineActive) || claim == Some(ClaimState::MineReleased) || claim
                == Some(ClaimState::Unclaimed)))
            &&& (watch.stage matches ClearStage::Proof { emptied } ==> watch.emptied == Some(true)
                && emptied && watch.after is None)
            &&& watch.stage is Over <==> watch.action is Finish
            &&& (watch.action matches ClearAction::Finish { cleared, drop_loaded, drop_cover } ==> {
                &&& cleared <==> watch.emptied == Some(true) && watch.after == Some(CacheHeader::Absent)
                &&& drop_loaded <==> watch.emptied is Some && begun.0.loaded_index == Some(
                    begun.0.index,
                )
                &&& drop_cover <==> watch.emptied is Some && begun.0.current_index == Some(
                    begun.0.index,
                )
            })
        }),
    decreases replies.len(),
{
    if replies.len() > 0 {
        law_clear_is_told_as_it_went(begun, replies.drop_last());
    }
}

pub open spec fn clearing_begun(index: usize, entry: Option<SourceIdentity>, loaded_index: Option<usize>, current_index: Option<usize>) -> (CacheClear, (ClearAction, ClearStage)) {
    (
        CacheClear { index, source: entry, loaded_index, current_index },
        if entry is Some {
            (ClearAction::ReadClaim, ClearStage::Claim)
        } else {
            (ClearAction::ReadRow, ClearStage::Row)
        },
    )
}

/// Clearing is of the row it was asked for and of no other book: one whose
/// identity is not known yet reads the row for it first, and one whose
/// identity is known goes on to what the cache claims.
pub proof fn law_clearing_begins_with_an_identity(index: usize, entry: Option<SourceIdentity>, loaded_index: Option<usize>, current_index: Option<usize>)
    ensures
        ({
            let (clear, begun) = clearing_begun(index, entry, loaded_index, current_index);
            &&& clear.index == index
            &&& clear.source == entry
            &&& clear.loaded_index == loaded_index
            &&& clear.current_index == current_index
            &&& entry is None ==> begun.0 is ReadRow && begun.1 is Row
            &&& entry is Some ==> begun.0 is ReadClaim && begun.1 is Claim
        }),
{
}

} // verus!
