//! What an upload session does with a request, seen from outside: by what it
//! asks for and what it is told.
use vstd::prelude::*;
use crate::recovery::{IntentRead, ReplaceRecovery, Shelf};
use crate::upload::{
    upload_next, ChunkInput, SessionInput, UploadAction, UploadReply, UploadRequest, UploadSession,
    UploadSessionExit, UploadStage,
};

verus! {

/// What a session asks for, and what it has been told.
pub struct UploadWatch {
    pub session: UploadSession,
    pub stage: UploadStage,
    pub action: UploadAction,
    /// What setting up came to: whether the volume opened, the old snapshot
    /// went, and the first reclaim settled; how the shelf was found, and
    /// whether it was made.
    pub opened: bool,
    pub cleared: bool,
    pub settled: Option<bool>,
    pub shelf: Option<Shelf>,
    pub made: bool,
    /// The request at hand, and what has been answered since it came.
    pub request: Option<UploadRequest>,
    pub reclaimed: bool,
    pub journal_clear: bool,
    pub replaceable: bool,
    pub removed: Option<bool>,
    pub staged: bool,
    /// A write failed; an abort came; the last chunk came.
    pub torn: bool,
    pub aborted: bool,
    pub last: bool,
    pub landed: Option<bool>,
    /// What ended the session.
    pub exit: Option<UploadSessionExit>,
}

pub open spec fn takes_request(action: UploadAction, reply: UploadReply) -> bool {
    action is WaitInput && reply is Input && reply->Input_0 is Request
}

/// What an answer says about the end of the session.
pub open spec fn exit_in(reply: UploadReply) -> Option<UploadSessionExit> {
    match reply {
        UploadReply::Input(SessionInput::Stop) => Some(UploadSessionExit::Wireless),
        UploadReply::Chunk(ChunkInput::Stop) => Some(UploadSessionExit::Wireless),
        UploadReply::Input(SessionInput::Sleep { generation }) => Some(
            UploadSessionExit::Sleep { generation },
        ),
        UploadReply::Chunk(ChunkInput::Sleep { generation }) => Some(
            UploadSessionExit::Sleep { generation },
        ),
        _ => None,
    }
}

/// What the watch notes of one answer that the session took.
pub open spec fn upload_noted(
    before: UploadWatch,
    session: UploadSession,
    stage: UploadStage,
    action: UploadAction,
    reply: UploadReply,
) -> UploadWatch {
    let went = reply == UploadReply::Went(true);
    let fresh = takes_request(before.action, reply);
    UploadWatch {
        session,
        stage,
        action,
        opened: before.opened || (before.action is OpenVolume && went),
        cleared: if before.action is ClearSnapshot { went } else { before.cleared },
        settled: if before.action is RecoverReclaim && before.settled is None {
            Some(went)
        } else {
            before.settled
        },
        shelf: match reply {
            UploadReply::Shelf(shelf) => Some(shelf),
            _ => before.shelf,
        },
        made: before.made || (before.action is MakeShelf && went),
        request: if fresh { Some(reply->Input_0->Request_0) } else { before.request },
        reclaimed: if fresh {
            false
        } else if before.action is RecoverReclaim {
            went
        } else {
            before.reclaimed
        },
        journal_clear: if fresh {
            false
        } else if before.action is ReadIntent {
            reply == UploadReply::Intent(IntentRead::Absent) || reply == UploadReply::Intent(
                IntentRead::Truncated,
            )
        } else {
            before.journal_clear
        },
        replaceable: if fresh {
            false
        } else if before.action is RecoverReplace {
            reply == UploadReply::Replaced(ReplaceRecovery::Nothing) || reply
                == UploadReply::Replaced(ReplaceRecovery::Settled)
        } else {
            before.replaceable
        },
        removed: if fresh {
            None
        } else if before.action is Delete {
            Some(went)
        } else {
            before.removed
        },
        staged: if fresh {
            false
        } else if before.action is Stage {
            went
        } else {
            before.staged
        },
        torn: !fresh && (before.torn || (before.action is WriteChunk && !went)),
        aborted: !fresh && (before.aborted || (reply matches UploadReply::Chunk(
            ChunkInput::Chunk { abort, .. },
        ) && abort)),
        last: !fresh && (before.last || (reply matches UploadReply::Chunk(
            ChunkInput::Chunk { last, .. },
        ) && last)),
        landed: if fresh {
            None
        } else if before.action is Install {
            Some(went)
        } else {
            before.landed
        },
        exit: if exit_in(reply) is Some { exit_in(reply) } else { before.exit },
    }
}

/// A session fed answers in order.
pub open spec fn upload_watched(replies: Seq<UploadReply>) -> UploadWatch
    decreases replies.len(),
{
    if replies.len() == 0 {
        UploadWatch {
            session: UploadSession { volume_open: false, serving: false, snapshot_cleared: false },
            stage: UploadStage::Card,
            action: UploadAction::ProbeCard,
            opened: false,
            cleared: false,
            settled: None,
            shelf: None,
            made: false,
            request: None,
            reclaimed: false,
            journal_clear: false,
            replaceable: false,
            removed: None,
            staged: false,
            torn: false,
            aborted: false,
            last: false,
            landed: None,
            exit: None,
        }
    } else {
        let before = upload_watched(replies.drop_last());
        match upload_next(before.session, before.stage, replies.last()) {
            Some(next) => upload_noted(
                before,
                next.0,
                next.1.stage,
                next.1.action,
                replies.last(),
            ),
            None => before,
        }
    }
}

/// Each stage waits for its own action.
pub open spec fn upload_stage_fits(action: UploadAction, stage: UploadStage) -> bool {
    &&& action is ProbeCard <==> stage is Card
    &&& action is OpenVolume <==> stage is Volume
    &&& action is OpenRoot <==> stage is Root
    &&& action is ClearSnapshot <==> stage is Snapshot
    &&& action is OpenShelf <==> stage is Shelf
    &&& action is RecoverReclaim <==> stage is Reclaim || stage is ServeReclaim || stage is GateReclaim
    &&& action is MakeShelf <==> stage is ShelfMade
    &&& action is RecoverInstalls <==> stage is ServeInstalls || stage is GateInstalls
    &&& action is RecoverReplace <==> stage is ServeReplace || stage is GateReplace
    &&& action is WaitInput <==> stage is Waiting
    &&& action is ReadIntent <==> stage is GateIntent
    &&& action is Delete <==> stage is Deleting
    &&& action is DeleteSidecars <==> stage is Sidecars
    &&& action is Stage <==> stage is Staging
    &&& action is WaitChunk <==> stage is Chunking || stage is Draining
    &&& action is WriteChunk <==> stage is Writing
    &&& action is Recycle <==> stage is Recycling || stage is DrainRecycled
    &&& action is Abandon <==> stage is Abandoned
    &&& action is Install <==> stage is Installing
    &&& action is RecordIdentity <==> stage is Recorded
    &&& action is SendResult <==> stage is Answered
    &&& action is Finish <==> stage is Over
}

/// Whether setting up is over, well or not.
pub open spec fn is_set_up(stage: UploadStage) -> bool {
    !(stage is Card || stage is Volume || stage is Root || stage is Snapshot || stage is Shelf || stage
        is Reclaim || stage is ShelfMade)
}

/// What holds while a session is set up and after.
pub open spec fn setup_is_right(watch: UploadWatch) -> bool {
    let stage = watch.stage;
    &&& watch.session.volume_open == watch.opened
    &&& watch.session.snapshot_cleared == watch.cleared
    &&& stage is Card || stage is Volume || stage is Root || stage is Snapshot || stage is Shelf
        ==> watch.settled is None && watch.shelf is None && !watch.made && !watch.session.serving
    &&& (stage matches UploadStage::Reclaim { exists } ==> watch.settled is None && !watch.made
        && !watch.session.serving && watch.shelf == Some(
        if exists { Shelf::Found } else { Shelf::Absent },
    ))
    &&& stage is ShelfMade ==> watch.settled == Some(true) && watch.shelf == Some(Shelf::Absent)
        && !watch.made && !watch.session.serving
    &&& watch.session.serving ==> watch.settled == Some(true) && (watch.shelf == Some(Shelf::Found)
        || (watch.shelf == Some(Shelf::Absent) && watch.made))
    &&& is_set_up(stage) && !watch.session.serving ==> watch.settled != Some(true) || !(watch.shelf
        == Some(Shelf::Found) || watch.made)
    &&& stage is ServeReclaim || stage is ServeInstalls || stage is ServeReplace
        ==> watch.session.serving
    &&& watch.settled is None ==> !(stage is ServeReclaim || stage is GateReclaim)
}

/// Nothing has been done for the request yet.
pub open spec fn untouched(watch: UploadWatch) -> bool {
    watch.request is Some && watch.removed is None && !watch.staged && watch.landed is None
        && !watch.torn && !watch.aborted && !watch.last
}

/// The request may run.
pub open spec fn let_through(watch: UploadWatch) -> bool {
    watch.session.serving && watch.cleared && watch.reclaimed && watch.journal_clear
        && watch.replaceable
}

/// What the request asked for was done.
pub open spec fn is_done(watch: UploadWatch) -> bool {
    if watch.request->0.delete { watch.removed == Some(true) } else { watch.landed == Some(true) }
}

/// What holds while a request is worked on.
pub open spec fn work_is_right(watch: UploadWatch) -> bool {
    let stage = watch.stage;
    let upload = watch.request is Some && !watch.request->0.delete;
    &&& (stage matches UploadStage::GateReclaim(request) ==> watch.request == Some(request)
        && untouched(watch) && watch.session.serving && watch.cleared)
    &&& (stage matches UploadStage::GateIntent { request, .. } ==> watch.request == Some(request)
        && untouched(watch) && watch.session.serving && watch.cleared && watch.reclaimed)
    &&& (stage matches UploadStage::GateInstalls(request) ==> watch.request == Some(request)
        && untouched(watch) && watch.session.serving && watch.cleared && watch.reclaimed)
    &&& (stage matches UploadStage::GateReplace(request) ==> watch.request == Some(request)
        && untouched(watch) && watch.session.serving && watch.cleared && watch.reclaimed
        && watch.journal_clear)
    &&& (stage matches UploadStage::Deleting { in_books } ==> let_through(watch) && untouched(watch)
        && watch.request->0 == (UploadRequest { delete: true, in_books }) && watch.action
        == UploadAction::Delete { in_books })
    &&& stage is Sidecars ==> watch.request == Some(UploadRequest { delete: true, in_books: true })
        && watch.removed == Some(true)
    &&& stage is Staging ==> let_through(watch) && untouched(watch) && upload
    &&& (stage matches UploadStage::Chunking { failed } ==> let_through(watch) && upload
        && watch.staged && failed == watch.torn && !watch.aborted && !watch.last && watch.landed
        is None)
    &&& (stage matches UploadStage::Writing { last } ==> let_through(watch) && upload && watch.staged
        && !watch.torn && !watch.aborted && last == watch.last && watch.landed is None)
    &&& (stage matches UploadStage::Recycling { failed, last, aborted } ==> let_through(watch)
        && upload && watch.staged && failed == watch.torn && last == watch.last && aborted
        == watch.aborted && watch.landed is None)
    &&& (stage matches UploadStage::Abandoned { exit } ==> let_through(watch) && upload && watch.staged
        && watch.landed is None && exit == watch.exit && (exit is None ==> watch.torn
        || watch.aborted))
    &&& stage is Installing ==> let_through(watch) && upload && watch.staged && !watch.torn
        && !watch.aborted && watch.last && watch.landed is None
    &&& stage is Recorded ==> upload && watch.landed == Some(true)
    &&& stage is Draining || stage is DrainRecycled ==> watch.request is Some && watch.removed is None
        && watch.landed is None && (watch.session.serving ==> upload && !watch.staged)
    &&& !(stage is Abandoned || stage is Over) ==> watch.exit is None
}

/// An answer says whether the request was carried out, and a request that was
/// let through fails only for a reason of its own.
pub open spec fn answer_is_right(watch: UploadWatch) -> bool {
    watch.action matches UploadAction::SendResult(ok) ==> {
        &&& watch.request is Some
        &&& ok == is_done(watch)
        &&& !ok && let_through(watch) ==> {
            ||| watch.removed == Some(false)
            ||| watch.landed == Some(false)
            ||| !watch.request->0.delete && (!watch.staged || watch.torn || watch.aborted)
        }
    }
}

/// What a session ends with is what ended it.
pub open spec fn ending_is_right(watch: UploadWatch) -> bool {
    watch.action matches UploadAction::Finish { exit, volume_open } ==> watch.exit == Some(exit)
        && volume_open == watch.opened
}

proof fn lemma_upload_step(before: UploadWatch, reply: UploadReply)
    requires
        upload_stage_fits(before.action, before.stage),
        setup_is_right(before),
        work_is_right(before),
        answer_is_right(before),
        ending_is_right(before),
    ensures
        upload_next(before.session, before.stage, reply) matches Some(next) ==> {
            let after = upload_noted(before, next.0, next.1.stage, next.1.action, reply);
            &&& upload_stage_fits(after.action, after.stage)
            &&& setup_is_right(after)
            &&& work_is_right(after)
            &&& answer_is_right(after)
            &&& ending_is_right(after)
        },
{
}

/// In every session: a request is answered with success exactly when what it
/// asked for was done, a book deleted or a whole book installed, and one that
/// was let through fails only because the card failed it or its sender gave
/// up. Nothing is deleted or staged for a request before the shelf is set up,
/// the snapshot gone, the reclaim settled, the journal clear and no
/// replacement standing; what is deleted is what was asked for, and where. A
/// book is installed exactly when all of its bytes were written and the last
/// came. The session ends by what ended it, and says whether the volume is
/// open.
pub proof fn law_requests_are_carried_out(replies: Seq<UploadReply>)
    ensures
        ({
            let watch = upload_watched(replies);
            &&& upload_stage_fits(watch.action, watch.stage)
            &&& setup_is_right(watch)
            &&& work_is_right(watch)
            &&& answer_is_right(watch)
            &&& ending_is_right(watch)
        }),
    decreases replies.len(),
{
    if replies.len() > 0 {
        law_requests_are_carried_out(replies.drop_last());
        lemma_upload_step(upload_watched(replies.drop_last()), replies.last());
    }
}

/// A session that waits takes up what comes: a request is looked into as far
/// as the shelf allows, a stop or a sleep ends it, and a frame of another
/// view is passed over. A request's bytes are always taken, whether or not
/// they are kept.
pub proof fn law_session_takes_up_what_comes(session: UploadSession, input: SessionInput)
    ensures
        upload_next(session, UploadStage::Waiting, UploadReply::Input(input)) matches Some(next) && {
            &&& next.0 == session
            &&& input is Request && session.serving && session.snapshot_cleared ==> next.1.stage
                == UploadStage::GateReclaim(input->Request_0)
            &&& input is Request && session.serving && !session.snapshot_cleared ==> next.1.action
                == UploadAction::SendResult(false)
            &&& input is Request && !session.serving ==> next.1.action is WaitChunk
            &&& input is Stop || input is Sleep ==> next.1.action is Finish
            &&& input is Render ==> next.1.action is WaitInput && next.1.stage is Waiting
        },
{
}

/// Bytes of a book are written as long as no write failed and the sender did
/// not give up, and every buffer that comes goes back.
pub proof fn law_bytes_are_written(session: UploadSession, failed: bool, has_bytes: bool, last: bool, abort: bool)
    ensures
        upload_next(
            session,
            UploadStage::Chunking { failed },
            UploadReply::Chunk(ChunkInput::Chunk { has_bytes, last, abort }),
        ) matches Some(next) && (if has_bytes && !failed && !abort {
            next.1.action is WriteChunk
        } else {
            next.1.action is Recycle
        }),
        upload_next(
            session,
            UploadStage::Draining,
            UploadReply::Chunk(ChunkInput::Chunk { has_bytes, last, abort }),
        ) matches Some(next) && next.1.action is Recycle,
        upload_next(session, UploadStage::Writing { last }, UploadReply::Went(!failed)) matches Some(next)
            && next.1.action is Recycle,
{
}

} // verus!
