//! Replaying captured text into sections, group by group.
use vstd::prelude::*;

verus! {

/// How a group of captured blocks leaves the replay.
#[derive(Clone, Copy, PartialEq, Eq, Structural, Debug)]
pub enum ReplayFlow {
    Continue,
    /// The index is full, as it would be for a full build: publish what there
    /// is.
    Stop,
    /// The stream cannot be trusted.
    Fail,
}

/// Whether a captured stream can be replayed at all: the file is as long as
/// its header says, and its records can be reached.
pub fn may_replay(file_len: u32, expected_len: u32, seek_ok: bool) -> (may: bool)
    ensures
        may == is_replayable(file_len, expected_len, seek_ok),
        may == (file_len == expected_len && seek_ok),
{
    file_len == expected_len && seek_ok
}

#[derive(Clone, Copy, PartialEq, Eq, Structural, Debug)]
pub enum GroupAction {
    /// The group is over.
    Finish(ReplayFlow),
    /// Begin the spine item of the group. Answer: `Done`.
    BeginSpine { spine: u16 },
    /// Read the next block of the group. Answer: `Block`.
    NextBlock,
    /// Set the block that was read. Answer: `Pushed`.
    PushBlock,
    /// Finish the spine item: its last section is written. Answer: `Done`.
    FinishSpine,
}

/// What reading the next block came to.
#[derive(Clone, Copy, PartialEq, Eq, Structural, Debug)]
pub enum BlockRead {
    Block,
    /// The group holds no more.
    End,
    /// The record does not read.
    Broken,
}

#[derive(Clone, Copy, PartialEq, Eq, Structural, Debug)]
pub enum GroupReply {
    Done,
    Block(BlockRead),
    /// Whether the sink took the block, and whether it stopped by itself.
    Pushed { accepted: bool, stopped: bool },
}

#[derive(Clone, Copy, PartialEq, Eq, Structural, Debug)]
pub enum GroupStage {
    Over,
    Begun,
    Reading,
    Pushing,
    Finishing(ReplayFlow),
}

pub open spec fn group_over(flow: ReplayFlow) -> (GroupAction, GroupStage) {
    (GroupAction::Finish(flow), GroupStage::Over)
}

pub open spec fn finishing(flow: ReplayFlow) -> (GroupAction, GroupStage) {
    (GroupAction::FinishSpine, GroupStage::Finishing(flow))
}

/// What an answer does. `None` when the stage is not waiting for it.
pub open spec fn group_next(stage: GroupStage, reply: GroupReply) -> Option<(GroupAction, GroupStage)> {
    match (stage, reply) {
        (GroupStage::Begun, GroupReply::Done) => Some((GroupAction::NextBlock, GroupStage::Reading)),
        (GroupStage::Reading, GroupReply::Block(read)) => Some(
            match read {
                BlockRead::Block => (GroupAction::PushBlock, GroupStage::Pushing),
                BlockRead::End => finishing(ReplayFlow::Continue),
                BlockRead::Broken => group_over(ReplayFlow::Fail),
            },
        ),
        (GroupStage::Pushing, GroupReply::Pushed { accepted, stopped }) => Some(
            if accepted {
                (GroupAction::NextBlock, GroupStage::Reading)
            } else if stopped {
                finishing(ReplayFlow::Stop)
            } else {
                group_over(ReplayFlow::Fail)
            },
        ),
        (GroupStage::Finishing(flow), GroupReply::Done) => Some(group_over(flow)),
        _ => None,
    }
}

/// Begins a group of captured blocks. A full index ends the replay and leaves
/// the book partial.
pub fn begin_group(spine: u16, section_count: usize, section_capacity: usize, book_partial: &mut bool) -> (begun: (
    GroupAction,
    GroupStage,
))
    ensures
        (begun, *final(book_partial)) == group_begun(spine, section_count as int, section_capacity as int, *old(book_partial)),
        section_count >= section_capacity ==> begun == group_over(ReplayFlow::Stop)
            && *final(book_partial),
        section_count < section_capacity ==> begun == (
            GroupAction::BeginSpine { spine },
            GroupStage::Begun,
        ) && *final(book_partial) == *old(book_partial),
{
    if section_count >= section_capacity {
        *book_partial = true;
        (GroupAction::Finish(ReplayFlow::Stop), GroupStage::Over)
    } else {
        (GroupAction::BeginSpine { spine }, GroupStage::Begun)
    }
}

/// Carries a group on after an answer. A sink that stopped by itself is the
/// same stop a full build takes; any other refusal, and a record that does
/// not read, fails the replay.
pub fn continue_group(stage: GroupStage, reply: GroupReply) -> (next: Option<
    (GroupAction, GroupStage),
>)
    ensures
        next == group_next(stage, reply),
{
    match (stage, reply) {
        (GroupStage::Begun, GroupReply::Done) => Some((GroupAction::NextBlock, GroupStage::Reading)),
        (GroupStage::Reading, GroupReply::Block(read)) => match read {
            BlockRead::Block => Some((GroupAction::PushBlock, GroupStage::Pushing)),
            BlockRead::End => Some(
                (GroupAction::FinishSpine, GroupStage::Finishing(ReplayFlow::Continue)),
            ),
            BlockRead::Broken => Some((GroupAction::Finish(ReplayFlow::Fail), GroupStage::Over)),
        },
        (GroupStage::Pushing, GroupReply::Pushed { accepted, stopped }) => {
            if accepted {
                Some((GroupAction::NextBlock, GroupStage::Reading))
            } else if stopped {
                Some((GroupAction::FinishSpine, GroupStage::Finishing(ReplayFlow::Stop)))
            } else {
                Some((GroupAction::Finish(ReplayFlow::Fail), GroupStage::Over))
            }
        },
        (GroupStage::Finishing(flow), GroupReply::Done) => Some(
            (GroupAction::Finish(flow), GroupStage::Over),
        ),
        _ => None,
    }
}

/// A group that does not fail has finished its spine item, so its last
/// section is on the card; one that fails has not written it.
pub proof fn law_replayed_group_is_finished(stage: GroupStage, reply: GroupReply)
    ensures
        group_next(stage, reply) matches Some(next) ==> {
            &&& next.0 matches GroupAction::Finish(flow) ==> (if stage is Finishing {
                stage == GroupStage::Finishing(flow)
            } else {
                flow is Fail
            })
            &&& next.1 is Finishing ==> next.0 is FinishSpine && next.1 != GroupStage::Finishing(
                ReplayFlow::Fail,
            )
        },
{
}

/// What a replay does until its group is over, and how often.
pub struct GroupWatch {
    pub action: GroupAction,
    pub stage: GroupStage,
    /// The blocks that were read, and those that the sink took.
    pub read: nat,
    pub taken: nat,
    /// The stream held no more, or the sink stopped by itself.
    pub ended: bool,
    pub stopped: bool,
    /// The spine item was begun and is not finished.
    pub open: bool,
}

/// A group that was begun, fed answers in order. The watch sees what is asked
/// for and what comes back, and one answer at a time.
pub open spec fn group_watched(spine: u16, replies: Seq<GroupReply>) -> GroupWatch
    decreases replies.len(),
{
    if replies.len() == 0 {
        GroupWatch {
            action: GroupAction::BeginSpine { spine },
            stage: GroupStage::Begun,
            read: 0,
            taken: 0,
            ended: false,
            stopped: false,
            open: false,
        }
    } else {
        let before = group_watched(spine, replies.drop_last());
        let reply = replies.last();
        match group_next(before.stage, reply) {
            Some(next) => GroupWatch {
                action: next.0,
                stage: next.1,
                read: before.read + if reply == GroupReply::Block(BlockRead::Block) { 1nat } else { 0 },
                taken: before.taken + match reply {
                    GroupReply::Pushed { accepted: true, .. } => 1nat,
                    _ => 0nat,
                },
                ended: before.ended || reply == GroupReply::Block(BlockRead::End),
                stopped: before.stopped || reply == (GroupReply::Pushed {
                    accepted: false,
                    stopped: true,
                }),
                open: if before.action is BeginSpine {
                    true
                } else if before.action is FinishSpine {
                    false
                } else {
                    before.open
                },
            },
            None => before,
        }
    }
}

/// A replayed group goes on to the next exactly when its stream ended, and
/// then the sink took every block that was read; it stops exactly when the
/// sink stopped by itself. Either way the spine item that was begun is
/// finished. Anything else fails the replay.
pub proof fn law_group_is_replayed_whole(spine: u16, replies: Seq<GroupReply>)
    ensures
        ({
            let watch = group_watched(spine, replies);
            &&& watch.action == GroupAction::PushBlock <==> watch.stage is Pushing
            &&& watch.stage is Pushing ==> watch.read == watch.taken + 1 && watch.open
            &&& watch.stage is Reading ==> watch.read == watch.taken && watch.open && watch.action
                == GroupAction::NextBlock
            &&& watch.stage is Begun ==> watch.action is BeginSpine && !watch.open && watch.read
                == watch.taken == 0
            &&& watch.stage is Begun || watch.stage is Reading || watch.stage is Pushing ==> !watch.ended
                && !watch.stopped
            &&& watch.stage is Finishing ==> watch.action is FinishSpine && watch.ended
                != watch.stopped && watch.open
            &&& watch.stage == GroupStage::Finishing(ReplayFlow::Continue) ==> watch.ended
                && watch.read == watch.taken
            &&& watch.stage == GroupStage::Finishing(ReplayFlow::Stop) ==> watch.stopped
            &&& watch.stage != GroupStage::Finishing(ReplayFlow::Fail)
            &&& watch.stage is Over <==> watch.action is Finish
            &&& watch.action matches GroupAction::Finish(flow) ==> {
                &&& flow is Continue <==> watch.ended
                &&& flow is Stop <==> watch.stopped
                &&& flow is Continue ==> watch.read == watch.taken
                &&& flow is Continue || flow is Stop ==> !watch.open
            }
        }),
    decreases replies.len(),
{
    if replies.len() > 0 {
        law_group_is_replayed_whole(spine, replies.drop_last());
    }
}

pub open spec fn is_replayable(file_len: u32, expected_len: u32, seek_ok: bool) -> bool {
    file_len == expected_len && seek_ok
}

pub open spec fn group_begun(spine: u16, section_count: int, section_capacity: int, book_partial: bool) -> ((GroupAction, GroupStage), bool) {
    if section_count >= section_capacity {
        (group_over(ReplayFlow::Stop), true)
    } else {
        ((GroupAction::BeginSpine { spine }, GroupStage::Begun), book_partial)
    }
}

/// A spool is replayed only if it is as long as it was written and its start
/// was found: one of another length never is.
pub proof fn law_torn_spool_is_not_replayed(file_len: u32, expected_len: u32, seek_ok: bool)
    ensures
        is_replayable(file_len, expected_len, seek_ok) ==> file_len == expected_len && seek_ok,
        is_replayable(expected_len, expected_len, true),
{
}

/// A group is begun under its own spine number as long as the table has room,
/// and one that has none stops the replay and leaves the book known to be
/// partial. A book known to be partial stays so.
pub proof fn law_full_table_stops_the_replay(spine: u16, section_count: int, section_capacity: int, book_partial: bool)
    ensures
        ({
            let (begun, partial) = group_begun(spine, section_count, section_capacity, book_partial);
            &&& book_partial ==> partial
            &&& section_count < section_capacity ==> begun.0 == (GroupAction::BeginSpine { spine })
                && begun.1 is Begun && partial == book_partial
            &&& section_count >= section_capacity ==> partial && begun == group_over(
                ReplayFlow::Stop,
            )
        }),
{
}

} // verus!
