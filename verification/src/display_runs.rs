//! What holds of a whole sleep turn of the display, whatever is drained and
//! whatever the panel says.
use vstd::prelude::*;
use crate::display_loop::{
    before_sleep, display_next, idle, sleep_next, DisplayAction, DisplayFacts, DisplayLoop,
    DisplayReply, DisplayStage, SleepAction,
};
use crate::progress::{flush_ended, Progress};

verus! {

/// An answer, and what the planner, the store and the card said with it.
pub struct DisplayInput {
    pub reply: DisplayReply,
    pub facts: DisplayFacts,
    /// The progress as the command that was run left it.
    pub progress_left: Progress,
    /// The card's answer to the record that was owed, and when it came.
    pub stored: bool,
    pub now_ms: u64,
}

/// A sleep turn as it runs.
pub struct SleepRun {
    pub display: DisplayLoop,
    pub stage: DisplayStage,
    /// The reader's progress, and what of it is not on the card.
    pub progress: Progress,
    /// The sleep sequence was told that the progress is written, and of no
    /// command that was run since.
    pub told_written: bool,
    /// What the sleep request was answered with, so far.
    pub answers: Seq<DisplayAction>,
    /// The sleep sequence let the turn go on.
    pub proceeded: bool,
    /// The holder said that no event would be lost.
    pub holder_is_clear: bool,
    /// The panel acknowledged its sleep sequence.
    pub panel_slept: bool,
}

/// Whether an action answers the sleep request.
pub open spec fn answers_sleep(action: DisplayAction) -> bool {
    action is RefuseSleep || action is FailSleep || action is ParkAsleep
}

/// The generation an answer carries.
pub open spec fn generation_of(action: DisplayAction) -> u32 {
    match action {
        DisplayAction::RefuseSleep { generation, .. } => generation,
        DisplayAction::FailSleep { generation } => generation,
        DisplayAction::ParkAsleep { generation } => generation,
        _ => 0,
    }
}

/// Whether an answer is the one that what was done gives: a flush is answered
/// with what became of the owed progress.
pub open spec fn is_truthful(run: SleepRun, input: DisplayInput) -> bool {
    run.stage is ProgressFlushed ==> input.reply == DisplayReply::Went(
        flush_ended(run.progress, input.stored, input.now_ms).1,
    )
}

/// One more answer. One the stage is not waiting for, or that is not what was
/// done, changes nothing.
pub open spec fn sleep_extend(run: SleepRun, input: DisplayInput) -> SleepRun {
    match display_next(run.display, run.stage, input.reply, input.facts) {
        Some(next) if is_truthful(run, input) => SleepRun {
            display: next.0,
            stage: next.1.stage,
            progress: match run.stage {
                DisplayStage::Applied { .. } => input.progress_left,
                DisplayStage::ProgressFlushed { .. } => flush_ended(
                    run.progress,
                    input.stored,
                    input.now_ms,
                ).0,
                _ => run.progress,
            },
            told_written: match run.stage {
                DisplayStage::AppliedReported { .. } => false,
                DisplayStage::FlushReported { stored, .. } => stored,
                _ => run.told_written,
            },
            answers: if answers_sleep(next.1.action) {
                run.answers.push(next.1.action)
            } else {
                run.answers
            },
            proceeded: run.proceeded || lets_go_on(run, input),
            holder_is_clear: run.holder_is_clear || (run.stage is MaySleep && input.reply
                == DisplayReply::Went(true)),
            panel_slept: run.panel_slept || (run.stage is PanelSlept && input.reply
                == DisplayReply::Went(true)),
        },
        _ => run,
    }
}

/// Whether the sleep sequence lets the turn go on.
pub open spec fn lets_go_on(run: SleepRun, input: DisplayInput) -> bool {
    run.stage is Draining && input.reply == DisplayReply::Sleep(SleepAction::Proceed)
}

/// The turn that a sleep request of this generation begins, fed answers in
/// order.
pub open spec fn sleep_run(display: DisplayLoop, progress: Progress, generation: u32, inputs: Seq<DisplayInput>) -> SleepRun
    decreases inputs.len(),
{
    if inputs.len() == 0 {
        SleepRun {
            display,
            stage: DisplayStage::SequenceBegun { generation },
            progress,
            told_written: false,
            answers: Seq::empty(),
            proceeded: false,
            holder_is_clear: false,
            panel_slept: false,
        }
    } else {
        sleep_extend(sleep_run(display, progress, generation, inputs.drop_last()), inputs.last())
    }
}

/// The rule of the sleep sequence: it lets the turn go on only once it was
/// told that the progress is written, and of no command that was run since.
pub open spec fn sequence_keeps_its_rule(display: DisplayLoop, progress: Progress, generation: u32, inputs: Seq<DisplayInput>) -> bool
    decreases inputs.len(),
{
    inputs.len() > 0 ==> {
        let before = sleep_run(display, progress, generation, inputs.drop_last());
        &&& sequence_keeps_its_rule(display, progress, generation, inputs.drop_last())
        &&& lets_go_on(before, inputs.last()) ==> before.told_written
    }
}

/// Whether the request was answered, once, and rightly.
pub open spec fn answered_once(run: SleepRun, generation: u32) -> bool {
    &&& run.answers.len() == 1
    &&& answers_sleep(run.answers[0])
    &&& generation_of(run.answers[0]) == generation
    &&& run.answers[0] is ParkAsleep ==> run.proceeded && run.holder_is_clear && run.panel_slept
}

/// Holds at every moment of the turn.
pub open spec fn sleep_invariant(run: SleepRun, generation: u32) -> bool {
    let unanswered = run.answers.len() == 0;
    match run.stage {
        DisplayStage::SequenceBegun { generation: g } => g == generation && unanswered,
        DisplayStage::MayDrain { generation: g } => g == generation && unanswered,
        DisplayStage::Draining { generation: g } => g == generation && unanswered,
        DisplayStage::Taking { generation: g } => g == generation && unanswered,
        DisplayStage::Judging { generation: g, .. } => g == generation && unanswered,
        DisplayStage::Applied { generation: g } => g == generation && unanswered,
        DisplayStage::AppliedReported { generation: g } => g == generation && unanswered,
        DisplayStage::Requeued { generation: g } => g == generation && unanswered,
        DisplayStage::ProgressFlushed { generation: g } => g == generation && unanswered,
        DisplayStage::FlushReported { generation: g, .. } => g == generation && unanswered,
        DisplayStage::Reported { generation: g } => g == generation && unanswered,
        DisplayStage::MaySleep { generation: g } => g == generation && unanswered && run.proceeded,
        DisplayStage::SleepPainted { generation: g } => g == generation && unanswered
            && run.proceeded && run.holder_is_clear,
        DisplayStage::SleepFlushed { generation: g } => g == generation && unanswered
            && run.proceeded && run.holder_is_clear,
        DisplayStage::PanelSlept { generation: g, .. } => g == generation && unanswered
            && run.proceeded && run.holder_is_clear,
        DisplayStage::SleepRecorded { generation: g } => g == generation && unanswered
            && run.proceeded && run.holder_is_clear && run.panel_slept,
        DisplayStage::Ending | DisplayStage::Idle => answered_once(run, generation),
        _ => false,
    }
}

/// A stage of a sleep is left by the rules of sleeping alone.
proof fn lemma_sleep_rules(run: SleepRun, input: DisplayInput, generation: u32)
    requires
        sleep_invariant(run, generation),
    ensures
        ({
            let next = display_next(run.display, run.stage, input.reply, input.facts);
            &&& run.stage is Idle ==> next is None
            &&& run.stage is Ending ==> (next matches Some(then) ==> then.1 == idle())
            &&& !(run.stage is Idle) && !(run.stage is Ending) ==> next == sleep_next(
                run.display,
                run.stage,
                input.reply,
                input.facts,
            )
        }),
{
}

proof fn lemma_sleep_step(run: SleepRun, input: DisplayInput, generation: u32)
    requires
        sleep_invariant(run, generation),
    ensures
        sleep_invariant(sleep_extend(run, input), generation),
{
    lemma_sleep_rules(run, input, generation);
    if run.stage is Ending || run.stage is Idle {
        assert(sleep_extend(run, input).answers == run.answers);
    }
}

proof fn lemma_sleep_run(display: DisplayLoop, progress: Progress, generation: u32, inputs: Seq<DisplayInput>)
    ensures
        sleep_invariant(sleep_run(display, progress, generation, inputs), generation),
    decreases inputs.len(),
{
    if inputs.len() > 0 {
        lemma_sleep_run(display, progress, generation, inputs.drop_last());
        lemma_sleep_step(
            sleep_run(display, progress, generation, inputs.drop_last()),
            inputs.last(),
            generation,
        );
    }
}

/// What holds of the owed progress at every moment of a turn whose sequence
/// keeps its rule: what the sequence was told is so, until a command is run,
/// and once it let the turn go on nothing is owed.
pub open spec fn progress_invariant(run: SleepRun) -> bool {
    &&& run.told_written && !(run.stage is AppliedReported) ==> run.progress.pending is None
    &&& run.stage matches DisplayStage::FlushReported { stored, .. } ==> (stored
        ==> run.progress.pending is None)
    &&& run.proceeded ==> run.progress.pending is None && !before_proceed(run.stage)
}

/// The stages in which commands are still drained.
pub open spec fn before_proceed(stage: DisplayStage) -> bool {
    before_sleep(stage) && !(stage is MaySleep)
}

proof fn lemma_progress_run(display: DisplayLoop, progress: Progress, generation: u32, inputs: Seq<DisplayInput>)
    requires
        sequence_keeps_its_rule(display, progress, generation, inputs),
    ensures
        progress_invariant(sleep_run(display, progress, generation, inputs)),
    decreases inputs.len(),
{
    if inputs.len() > 0 {
        let before = sleep_run(display, progress, generation, inputs.drop_last());
        lemma_progress_run(display, progress, generation, inputs.drop_last());
        lemma_sleep_run(display, progress, generation, inputs.drop_last());
        lemma_sleep_rules(before, inputs.last(), generation);
    }
}

/// Every sleep request is answered exactly once, under its own generation: it
/// is refused, it fails or the panel is parked asleep, by the time the turn is
/// over and never twice. The panel is parked only after the sleep sequence
/// let the turn go on, the holder said that no event would be lost, and the
/// panel acknowledged.
pub proof fn law_sleep_is_answered_once(display: DisplayLoop, progress: Progress, generation: u32, inputs: Seq<DisplayInput>)
    ensures
        ({
            let run = sleep_run(display, progress, generation, inputs);
            &&& run.answers.len() <= 1
            &&& forall|i: int|
                0 <= i < run.answers.len() ==> answers_sleep(#[trigger] run.answers[i])
                    && generation_of(run.answers[i]) == generation
            &&& run.stage is Idle ==> run.answers.len() == 1
            &&& forall|i: int|
                0 <= i < run.answers.len() && (#[trigger] run.answers[i]) is ParkAsleep
                    ==> run.proceeded && run.holder_is_clear && run.panel_slept
        }),
{
    lemma_sleep_run(display, progress, generation, inputs);
}

/// With a sleep sequence that keeps its rule the panel is parked asleep only
/// with no progress left unwritten, whatever was owed when the request came
/// and whatever the drained commands did: no position goes down with it.
pub proof fn law_asleep_leaves_no_progress_behind(display: DisplayLoop, progress: Progress, generation: u32, inputs: Seq<DisplayInput>)
    requires
        sequence_keeps_its_rule(display, progress, generation, inputs),
    ensures
        ({
            let run = sleep_run(display, progress, generation, inputs);
            forall|i: int|
                0 <= i < run.answers.len() && (#[trigger] run.answers[i]) is ParkAsleep
                    ==> run.progress.pending is None && run.holder_is_clear && run.panel_slept
        }),
{
    lemma_sleep_run(display, progress, generation, inputs);
    lemma_progress_run(display, progress, generation, inputs);
}

} // verus!
