//! Where the lines of a block begin in the source, whatever widths come back.
use vstd::prelude::*;
use crate::bounded::utf8_len;
use crate::sink::{saturated, SinkModel, SinkStage};
use crate::sink_runs::{flushed, set_on, Measured, Setting};

verus! {

/// The bytes of the first `n` words, and one for the gap behind each.
pub open spec fn bytes_before(words: Seq<Seq<char>>, n: int) -> int
    decreases n,
{
    if n <= 0 {
        0
    } else {
        bytes_before(words, n - 1) + utf8_len(words[n - 1]) + 1
    }
}

/// Where the word of this number stands in the source: behind the words
/// before it and their gaps, and never past the end of its block.
pub open spec fn anchor_of(sink: SinkModel, n: int) -> u32 {
    let before = bytes_before(sink.words, n);
    let len = sink.state.block_len as int;
    saturated(sink.state.block_offset + if before <= len { before } else { len })
}

/// A setting that keeps note of the word each line began with, by its number
/// in the block, and of the offset the line was given. A line that was begun
/// before the block has no such word.
pub struct Anchored {
    pub setting: Setting,
    pub first: Option<int>,
    pub firsts: Seq<Option<int>>,
    pub offsets: Seq<u32>,
}

/// Whether the word being measured opens its line.
pub open spec fn opens_line(sink: SinkModel) -> bool {
    sink.stage is Remeasuring || (sink.stage is Measuring && sink.stage->Measuring_line_was_empty)
}

pub open spec fn anchored_on(at: Anchored, answer: Measured) -> Anchored {
    let sink = at.setting.sink;
    let next = set_on(at.setting, answer);
    match sink.stage {
        SinkStage::Measuring { .. } | SinkStage::Remeasuring => Anchored {
            setting: next,
            first: if next.sink.next > sink.next && opens_line(sink) {
                Some(sink.next)
            } else {
                at.first
            },
            ..at
        },
        SinkStage::Ready => at,
        _ => if sink.line.len() == 0 {
            Anchored { setting: next, ..at }
        } else {
            Anchored {
                setting: next,
                first: None,
                firsts: at.firsts.push(at.first),
                offsets: at.offsets.push(sink.state.line_offset),
            }
        },
    }
}

/// A block set by the answers in order.
pub open spec fn anchored_all(at: Anchored, answers: Seq<Measured>) -> Anchored
    decreases answers.len(),
{
    if answers.len() == 0 {
        at
    } else {
        anchored_on(anchored_all(at, answers.drop_last()), answers.last())
    }
}

/// The block as it was taken: nothing of it is consumed, and no line of it
/// has been flushed.
pub open spec fn just_begun(at: Anchored) -> bool {
    &&& at.setting.sink.next == 0
    &&& at.setting.sink.state.block_consumed == 0
    &&& at.first is None
    &&& at.firsts.len() == 0
    &&& at.offsets.len() == 0
}

/// Holds at every step of setting the block that began as `begun`.
pub open spec fn anchors_hold(at: Anchored, begun: SinkModel) -> bool {
    let sink = at.setting.sink;
    &&& sink.words == begun.words
    &&& sink.state.block_offset == begun.state.block_offset
    &&& sink.state.block_len == begun.state.block_len
    &&& sink.next >= 0
    &&& sink.state.block_consumed == {
        let before = bytes_before(sink.words, sink.next);
        if before <= sink.state.block_len { before } else { sink.state.block_len as int }
    }
    &&& at.first matches Some(n) ==> sink.state.line_offset == anchor_of(begun, n)
    &&& at.firsts.len() == at.offsets.len()
    &&& forall|k: int|
        0 <= k < at.firsts.len() ==> ((#[trigger] at.firsts[k]) matches Some(n) ==> at.offsets[k]
            == anchor_of(begun, n))
}

proof fn lemma_anchored_on(at: Anchored, begun: SinkModel, answer: Measured)
    requires
        anchors_hold(at, begun),
    ensures
        anchors_hold(anchored_on(at, answer), begun),
{
    let sink = at.setting.sink;
    let after = anchored_on(at, answer);
    match sink.stage {
        SinkStage::Measuring { line_was_empty, .. } => {
            lemma_settled_anchor(sink, line_was_empty);
            lemma_next_keeps(sink.word_settled(line_was_empty));
        },
        SinkStage::Remeasuring => {
            lemma_settled_anchor(sink, true);
            lemma_next_keeps(sink.word_settled(true));
        },
        SinkStage::Ready => {},
        _ => {
            let out = flushed(at.setting).sink;
            lemma_next_keeps(out.words_started());
        },
    }
}

/// Putting the next word on the line moves no anchor.
proof fn lemma_next_keeps(sink: SinkModel)
    ensures
        ({
            let next = sink.next_word().0;
            &&& next.words == sink.words
            &&& next.next == sink.next
            &&& next.state.block_offset == sink.state.block_offset
            &&& next.state.block_len == sink.state.block_len
            &&& next.state.block_consumed == sink.state.block_consumed
            &&& next.state.line_offset == sink.state.line_offset
        }),
{
}

/// A word that is settled is consumed once, and one that opens its line gives
/// the line its own place.
proof fn lemma_settled_anchor(sink: SinkModel, line_was_empty: bool)
    requires
        sink.next >= 0,
        sink.state.block_consumed == {
            let before = bytes_before(sink.words, sink.next);
            if before <= sink.state.block_len { before } else { sink.state.block_len as int }
        },
    ensures
        ({
            let after = sink.word_settled(line_was_empty);
            &&& after.next == sink.next + 1
            &&& after.state.block_consumed == {
                let before = bytes_before(sink.words, sink.next + 1);
                if before <= sink.state.block_len { before } else { sink.state.block_len as int }
            }
            &&& after.state.line_offset == if line_was_empty {
                anchor_of(sink, sink.next)
            } else {
                sink.state.line_offset
            }
        }),
{
    assert(bytes_before(sink.words, sink.next + 1) == bytes_before(sink.words, sink.next)
        + utf8_len(sink.words[sink.next]) + 1);
}

proof fn lemma_anchored_all(at: Anchored, begun: SinkModel, answers: Seq<Measured>)
    requires
        anchors_hold(at, begun),
    ensures
        anchors_hold(anchored_all(at, answers), begun),
    decreases answers.len(),
{
    if answers.len() > 0 {
        lemma_anchored_all(at, begun, answers.drop_last());
        lemma_anchored_on(anchored_all(at, answers.drop_last()), begun, answers.last());
    }
}

/// A line knows where it began: the offset of every line of a block, and of
/// the line in progress, is the block's own plus the bytes of the words
/// before the line's first one and one for each gap, and lies in the block. A
/// word that was wrapped or overflowed counts once like any other.
pub proof fn law_line_begins_at_its_first_word(begun: Anchored, answers: Seq<Measured>)
    requires
        just_begun(begun),
    ensures
        ({
            let at = anchored_all(begun, answers);
            &&& at.first matches Some(n) ==> at.setting.sink.state.line_offset == anchor_of(
                begun.setting.sink,
                n,
            )
            &&& at.firsts.len() == at.offsets.len()
            &&& forall|k: int|
                0 <= k < at.firsts.len() ==> ((#[trigger] at.firsts[k]) matches Some(n)
                    ==> at.offsets[k] == anchor_of(begun.setting.sink, n))
        }),
{
    assert(bytes_before(begun.setting.sink.words, 0) == 0);
    lemma_anchored_all(begun, begun.setting.sink, answers);
}

proof fn lemma_bytes_grow(words: Seq<Seq<char>>, n: int)
    ensures
        bytes_before(words, n) >= 0,
        n >= 0 ==> bytes_before(words, n) < bytes_before(words, n + 1),
    decreases n,
{
    if n > 0 {
        lemma_bytes_grow(words, n - 1);
    }
}

/// Lines that begin with later words begin no earlier in the source.
pub proof fn law_later_words_stand_later(sink: SinkModel, a: int, b: int)
    requires
        0 <= a <= b <= sink.words.len(),
    ensures
        anchor_of(sink, a) <= anchor_of(sink, b),
    decreases b - a,
{
    if a < b {
        law_later_words_stand_later(sink, a, b - 1);
        lemma_bytes_grow(sink.words, b - 1);
    }
}

} // verus!
