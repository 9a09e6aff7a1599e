//! What holds of the app loop over its whole life, whatever happens and in
//! whatever order.
use vstd::prelude::*;
use crate::app_laws::{
    frame_invariant, frame_kept, law_boot_frame_is_sent_once, law_one_frame_in_flight,
    law_only_a_taken_command_counts,
};
use crate::app_loop::{
    AppAction, AppEvent, AppFacts, AppLoop, AppReply, AppStage, AppStep, Button, SleepBlockers,
};
use crate::app_model::{
    advance, advance_cycle, advance_event, advance_press, advance_transition, begin, blockers,
};
use crate::messages::RenderKind;

verus! {

/// What reaches the loop: an event, which it takes up between turns, or the
/// answer to its last action.
pub enum AppInput {
    Event(AppEvent, AppFacts),
    Answer(AppReply, AppFacts),
}

/// The loop as it runs.
pub struct AppRun {
    pub app: AppLoop,
    pub stage: AppStage,
    /// The last action, and what the state, the queue and the clock said when
    /// it was chosen.
    pub action: AppAction,
    pub facts: Option<AppFacts>,
    /// Frames that were sent and have neither settled nor failed.
    pub in_flight: int,
    /// Frames that initialise the panel, so far.
    pub boot_frames: int,
}

/// The loop before anything has happened.
pub open spec fn app_at_boot() -> AppRun {
    AppRun {
        app: AppLoop {
            rendering: false,
            render_pending: false,
            catalog_refresh_requested: true,
            reader_relayout_pending: false,
            opening_book: None,
            rollback_held: false,
            suppress_input_until_open_settled: false,
            block_confirm_until_ms: None,
            boot_render_pending: true,
            latest_request_id: 0,
        },
        stage: AppStage::Idle,
        action: AppAction::Wait,
        facts: None,
        in_flight: 0,
        boot_frames: 0,
    }
}

/// Whether an event tells of the end of a frame.
pub open spec fn ends_a_frame(event: AppEvent) -> bool {
    event is Settled || event is RefreshFailed
}

/// The run after a step, `in_flight` frames being out before its action.
pub open spec fn stepped(run: AppRun, next: (AppLoop, AppStep), facts: AppFacts, in_flight: int) -> AppRun {
    AppRun {
        app: next.0,
        stage: next.1.stage,
        action: next.1.action,
        facts: Some(facts),
        in_flight: in_flight + if next.1.action is SendRender { 1int } else { 0 },
        boot_frames: run.boot_frames + if next.1.action == AppAction::SendRender(RenderKind::Boot) {
            1int
        } else {
            0
        },
    }
}

/// One more input. An event waits for the turn to end, an answer nobody asked
/// for changes nothing, and a frame ends only if one is out.
pub open spec fn app_extend(run: AppRun, input: AppInput) -> AppRun {
    match input {
        AppInput::Event(event, facts) => if run.stage is Idle && (ends_a_frame(event)
            ==> run.in_flight > 0) {
            stepped(
                run,
                begin(run.app, event, facts),
                facts,
                run.in_flight - if ends_a_frame(event) { 1int } else { 0 },
            )
        } else {
            run
        },
        AppInput::Answer(reply, facts) => match advance(run.app, run.stage, reply, facts) {
            Some(next) => stepped(run, next, facts, run.in_flight),
            None => run,
        },
    }
}

pub open spec fn app_run(inputs: Seq<AppInput>) -> AppRun
    decreases inputs.len(),
{
    if inputs.len() == 0 {
        app_at_boot()
    } else {
        app_extend(app_run(inputs.drop_last()), inputs.last())
    }
}

/// Holds at every moment of a run.
pub open spec fn run_invariant(run: AppRun) -> bool {
    &&& frame_invariant(run.app, run.stage)
    &&& if run.stage is CursorApplied {
        run.in_flight == 0
    } else {
        run.in_flight == if run.app.rendering { 1int } else { 0 }
    }
    &&& run.boot_frames == if run.app.boot_render_pending { 0int } else { 1 }
}

/// A turn that starts leaves the render lock alone, but where a frame ended.
proof fn lemma_begin_frames(app: AppLoop, event: AppEvent, facts: AppFacts)
    ensures
        ({
            let started = begin(app, event, facts);
            &&& !(started.1.action is SendRender)
            &&& started.0.boot_render_pending == app.boot_render_pending
            &&& !ends_a_frame(event) ==> started.0.rendering == app.rendering && !(started.1.stage
                is CursorApplied)
            &&& ends_a_frame(event) && !(started.1.stage is CursorApplied)
                ==> !started.0.rendering
        }),
{
}

/// An answer opens the render lock only after a chapter correction, and the
/// panel is counted as initialised only by its own frame.
proof fn lemma_advance_frames(app: AppLoop, stage: AppStage, reply: AppReply, facts: AppFacts)
    requires
        frame_invariant(app, stage),
    ensures
        advance(app, stage, reply, facts) matches Some(next) ==> {
            &&& frame_kept(app, next)
            &&& !(next.1.stage is CursorApplied)
            &&& stage is CursorApplied ==> !next.0.rendering && !(next.1.action is SendRender)
            &&& !(stage is CursorApplied) && app.rendering ==> next.0.rendering
            &&& app.boot_render_pending && !next.0.boot_render_pending ==> next.1.action
                == AppAction::SendRender(RenderKind::Boot)
            &&& next.1.action == AppAction::SendRender(RenderKind::Boot) ==> app.boot_render_pending
                && !next.0.boot_render_pending
            &&& !app.boot_render_pending ==> !next.0.boot_render_pending
        },
{
    law_one_frame_in_flight(app, stage, reply, facts, AppEvent::Asleep);
    law_boot_frame_is_sent_once(app, stage, reply, facts);
    lemma_transition_frames(app, stage, reply, facts);
    lemma_press_frames(app, stage, reply, facts);
    lemma_event_frames(app, stage, reply, facts);
    lemma_cycle_frames(app, stage, reply, facts);
}

/// What every family of answers keeps.
pub open spec fn lock_kept(app: AppLoop, stage: AppStage, next: (AppLoop, AppStep)) -> bool {
    &&& !(next.1.stage is CursorApplied)
    &&& stage is CursorApplied ==> !next.0.rendering && !(next.1.action is SendRender)
    &&& !(stage is CursorApplied) && app.rendering ==> next.0.rendering
    &&& app.boot_render_pending && !next.0.boot_render_pending ==> next.1.action
        == AppAction::SendRender(RenderKind::Boot)
}

proof fn lemma_transition_frames(app: AppLoop, stage: AppStage, reply: AppReply, facts: AppFacts)
    requires
        frame_invariant(app, stage),
    ensures
        advance_transition(app, stage, reply, facts) matches Some(next)
            ==> lock_kept(app, stage, next),
{
}

proof fn lemma_press_frames(app: AppLoop, stage: AppStage, reply: AppReply, facts: AppFacts)
    requires
        frame_invariant(app, stage),
    ensures
        advance_press(app, stage, reply, facts) matches Some(next) ==> lock_kept(
            app,
            stage,
            next,
        ),
{
}

proof fn lemma_event_frames(app: AppLoop, stage: AppStage, reply: AppReply, facts: AppFacts)
    requires
        frame_invariant(app, stage),
    ensures
        advance_event(app, stage, reply, facts) matches Some(next) ==> lock_kept(
            app,
            stage,
            next,
        ),
{
}

proof fn lemma_cycle_frames(app: AppLoop, stage: AppStage, reply: AppReply, facts: AppFacts)
    requires
        frame_invariant(app, stage),
    ensures
        advance_cycle(app, stage, reply, facts) matches Some(next) ==> lock_kept(
            app,
            stage,
            next,
        ),
{
}

proof fn lemma_app_run(inputs: Seq<AppInput>)
    ensures
        run_invariant(app_run(inputs)),
    decreases inputs.len(),
{
    if inputs.len() > 0 {
        let before = app_run(inputs.drop_last());
        lemma_app_run(inputs.drop_last());
        match inputs.last() {
            AppInput::Event(event, facts) => {
                lemma_begin_frames(before.app, event, facts);
                law_one_frame_in_flight(
                    before.app,
                    before.stage,
                    AppReply::Done,
                    facts,
                    event,
                );
            },
            AppInput::Answer(reply, facts) => {
                lemma_advance_frames(before.app, before.stage, reply, facts);
            },
        }
    }
}

/// In every run of the loop at most one frame is in flight, and the loop
/// knows when one is: between turns the render lock is shut exactly then.
pub proof fn law_frames_never_overlap(inputs: Seq<AppInput>)
    ensures
        ({
            let run = app_run(inputs);
            &&& 0 <= run.in_flight <= 1
            &&& run.stage is Idle ==> (run.app.rendering <==> run.in_flight == 1)
        }),
{
    lemma_app_run(inputs);
}

/// In every run of the loop the panel is initialised by at most one frame,
/// and once it was, the loop never takes itself for newly booted again.
pub proof fn law_panel_is_initialised_once(inputs: Seq<AppInput>)
    ensures
        ({
            let run = app_run(inputs);
            &&& 0 <= run.boot_frames <= 1
            &&& run.app.boot_render_pending <==> run.boot_frames == 0
        }),
{
    lemma_app_run(inputs);
}

/// In every run of the loop the request id in force changes only when a
/// command was sent or parked, and then to the id that was reserved for it.
pub proof fn law_request_id_moves_with_a_command(inputs: Seq<AppInput>, input: AppInput)
    ensures
        ({
            let before = app_run(inputs);
            let after = app_run(inputs.push(input));
            after.app.latest_request_id != before.app.latest_request_id ==> before.stage is Sending
                && after.app.latest_request_id == before.stage->Sending_request_id
        }),
{
    let before = app_run(inputs);
    assert(inputs.push(input).drop_last() =~= inputs);
    if let AppInput::Answer(reply, facts) = input {
        law_only_a_taken_command_counts(before.app, before.stage, reply, facts);
    }
}

/// The blockers the sleep rule was last asked about, as they stood then.
pub open spec fn asked_with(run: AppRun) -> bool {
    &&& run.stage is PowerPressed || run.stage is Releasing ==> run.facts is Some
    &&& run.stage is PowerPressed ==> run.action == AppAction::PressSleep(
        blockers(run.app, run.facts->0),
    )
    &&& run.stage is Releasing ==> run.action == AppAction::ReleaseSleep(
        blockers(run.app, run.facts->0),
    )
}

proof fn lemma_asked_begin(app: AppLoop, event: AppEvent, facts: AppFacts)
    ensures
        ({
            let next = begin(app, event, facts);
            &&& !(next.1.stage is Releasing)
            &&& !(next.1.action is SendSleepNow)
            &&& next.1.stage is PowerPressed ==> next.1.action == AppAction::PressSleep(
                blockers(next.0, facts),
            )
        }),
{
}

/// What one answer may do about sleep.
pub open spec fn sleep_kept(app: AppLoop, stage: AppStage, reply: AppReply, facts: AppFacts, next: (AppLoop, AppStep)) -> bool {
    &&& !(next.1.stage is PowerPressed)
    &&& next.1.stage is Releasing ==> next.1.action == AppAction::ReleaseSleep(
        blockers(next.0, facts),
    )
    &&& next.1.action is SendSleepNow ==> (stage is PowerPressed || stage is Releasing) && reply
        == AppReply::Allowed(true) && next.0 == app
}

proof fn lemma_asked_transition(app: AppLoop, stage: AppStage, reply: AppReply, facts: AppFacts)
    ensures
        advance_transition(app, stage, reply, facts) matches Some(next) ==> sleep_kept(
            app,
            stage,
            reply,
            facts,
            next,
        ),
{
}

proof fn lemma_asked_press(app: AppLoop, stage: AppStage, reply: AppReply, facts: AppFacts)
    ensures
        advance_press(app, stage, reply, facts) matches Some(next) ==> sleep_kept(
            app,
            stage,
            reply,
            facts,
            next,
        ),
{
}

proof fn lemma_asked_event(app: AppLoop, stage: AppStage, reply: AppReply, facts: AppFacts)
    ensures
        advance_event(app, stage, reply, facts) matches Some(next) ==> sleep_kept(
            app,
            stage,
            reply,
            facts,
            next,
        ),
{
}

proof fn lemma_asked_cycle(app: AppLoop, stage: AppStage, reply: AppReply, facts: AppFacts)
    ensures
        advance_cycle(app, stage, reply, facts) matches Some(next) ==> sleep_kept(
            app,
            stage,
            reply,
            facts,
            next,
        ),
{
}

proof fn lemma_asked_advance(app: AppLoop, stage: AppStage, reply: AppReply, facts: AppFacts)
    ensures
        advance(app, stage, reply, facts) matches Some(next) ==> sleep_kept(
            app,
            stage,
            reply,
            facts,
            next,
        ),
{
    lemma_asked_transition(app, stage, reply, facts);
    lemma_asked_press(app, stage, reply, facts);
    lemma_asked_event(app, stage, reply, facts);
    lemma_asked_cycle(app, stage, reply, facts);
}

proof fn lemma_asked_run(inputs: Seq<AppInput>)
    ensures
        asked_with(app_run(inputs)),
    decreases inputs.len(),
{
    if inputs.len() > 0 {
        let before = app_run(inputs.drop_last());
        lemma_asked_run(inputs.drop_last());
        match inputs.last() {
            AppInput::Event(event, facts) => {
                lemma_asked_begin(before.app, event, facts);
            },
            AppInput::Answer(reply, facts) => {
                lemma_asked_advance(before.app, before.stage, reply, facts);
            },
        }
    }
}

/// Whether nothing stands in the way of sleep.
pub open spec fn is_clear(blockers: SleepBlockers) -> bool {
    !blockers.open_unresolved && !blockers.parked_storage && !blockers.awaiting_open_frame
}

/// Whether an input makes the loop send the power task to sleep.
pub open spec fn sends_sleep(before: AppRun, input: AppInput) -> bool {
    match input {
        AppInput::Event(event, facts) => begin(before.app, event, facts).1.action is SendSleepNow
            && before.stage is Idle,
        AppInput::Answer(reply, facts) => match advance(before.app, before.stage, reply, facts) {
            Some(next) => next.1.action is SendSleepNow,
            None => false,
        },
    }
}

/// The blockers the sleep rule was asked about.
pub open spec fn asked_blockers(action: AppAction) -> Option<SleepBlockers> {
    match action {
        AppAction::PressSleep(blockers) => Some(blockers),
        AppAction::ReleaseSleep(blockers) => Some(blockers),
        _ => None,
    }
}

/// The rule of the sleep gate: of a press, and of a press it put off, it says
/// yes only when nothing stands in the way of sleep.
pub open spec fn gate_keeps_its_rule(inputs: Seq<AppInput>) -> bool
    decreases inputs.len(),
{
    inputs.len() > 0 ==> {
        let before = app_run(inputs.drop_last());
        &&& gate_keeps_its_rule(inputs.drop_last())
        &&& asked_blockers(before.action) matches Some(asked) ==> (inputs.last() matches AppInput::Answer(
            reply,
            _,
        ) ==> (reply == AppReply::Allowed(true) ==> is_clear(asked)))
    }
}

/// Sleep is asked of the power task only in answer to a yes of the sleep gate,
/// which was asked about the blockers as they stood; and the loop has not
/// moved since.
proof fn lemma_sleep_is_allowed(inputs: Seq<AppInput>, input: AppInput)
    ensures
        ({
            let before = app_run(inputs);
            sends_sleep(before, input) ==> {
                &&& input is Answer && input->Answer_0 == AppReply::Allowed(true)
                &&& before.facts is Some
                &&& asked_blockers(before.action) == Some(blockers(before.app, before.facts->0))
                &&& app_run(inputs.push(input)).app == before.app
            }
        }),
{
    let before = app_run(inputs);
    assert(inputs.push(input).drop_last() =~= inputs);
    lemma_asked_run(inputs);
    match input {
        AppInput::Event(event, facts) => {
            lemma_asked_begin(before.app, event, facts);
        },
        AppInput::Answer(reply, facts) => {
            lemma_asked_advance(before.app, before.stage, reply, facts);
        },
    }
}

/// In every run of the loop with a sleep gate that keeps its rule, sleep is
/// never asked for while something blocks it: when the power task is told to
/// sleep no open is unresolved, no command is parked and no frame of an open
/// is awaited. So a Power press that comes while one of them stands sends
/// nothing before all three have cleared.
pub proof fn law_sleep_waits_until_nothing_blocks(inputs: Seq<AppInput>, input: AppInput)
    requires
        gate_keeps_its_rule(inputs.push(input)),
    ensures
        ({
            let before = app_run(inputs);
            let after = app_run(inputs.push(input));
            sends_sleep(before, input) ==> {
                &&& after.app == before.app
                &&& after.app.opening_book is None
                &&& !after.app.suppress_input_until_open_settled
                &&& before.facts is Some && before.facts->0.parked_is_empty
            }
        }),
{
    assert(inputs.push(input).drop_last() =~= inputs);
    lemma_sleep_is_allowed(inputs, input);
}

/// In every run of the loop with a sleep gate that keeps its rule, a Power
/// press that finds an open unresolved, a command parked or the frame of an
/// open awaited is not answered with sleep, moves nothing the loop keeps and
/// sends no frame.
pub proof fn law_blocked_press_is_put_off(inputs: Seq<AppInput>, facts: AppFacts, reply: AppReply, then: AppFacts)
    requires
        app_run(inputs).stage is Idle,
        app_run(inputs).app.opening_book is Some || !facts.parked_is_empty || app_run(
            inputs,
        ).app.suppress_input_until_open_settled,
        gate_keeps_its_rule(
            inputs.push(
                AppInput::Event(AppEvent::Input { button: Some(Button::Power) }, facts),
            ).push(AppInput::Answer(reply, then)),
        ),
    ensures
        ({
            let press = AppInput::Event(AppEvent::Input { button: Some(Button::Power) }, facts);
            let before = app_run(inputs);
            let pressed = app_run(inputs.push(press));
            let after = app_run(inputs.push(press).push(AppInput::Answer(reply, then)));
            &&& pressed.app == before.app && pressed.action is PressSleep
            &&& after.app == before.app
            &&& after.in_flight == before.in_flight
            &&& after.action is Wait || after.action is PressSleep
            &&& reply is Allowed ==> after.action is Wait && after.stage is Idle
        }),
{
    let press = AppInput::Event(AppEvent::Input { button: Some(Button::Power) }, facts);
    let answer = AppInput::Answer(reply, then);
    assert(inputs.push(press).drop_last() =~= inputs);
    assert(inputs.push(press).push(answer).drop_last() =~= inputs.push(press));
    let pressed = app_run(inputs.push(press));
    assert(pressed.stage is PowerPressed);
    assert(advance(pressed.app, pressed.stage, reply, then) == advance_press(
        pressed.app,
        pressed.stage,
        reply,
        then,
    ));
}

/// A Power press moves nothing: it is not folded into the reader's state,
/// changes nothing the loop keeps, and sends no frame. All it does is ask the
/// sleep rule, and then the power task or nobody.
pub proof fn law_power_press_moves_nothing(app: AppLoop, facts: AppFacts, reply: AppReply, then: AppFacts)
    ensures
        begin(app, AppEvent::Input { button: Some(Button::Power) }, facts) == (
            app,
            AppStep {
                action: AppAction::PressSleep(blockers(app, facts)),
                stage: AppStage::PowerPressed,
            },
        ),
        advance(app, AppStage::PowerPressed, reply, then) matches Some(next) ==> {
            &&& next.0 == app
            &&& next.1.action is SendSleepNow || next.1.action is Wait
            &&& next.1.action is SendSleepNow ==> reply == AppReply::Allowed(true)
        },
        advance(app, AppStage::Ending, reply, then) matches Some(next) ==> next.0 == app
            && next.1.action is Wait,
{
}

} // verus!
