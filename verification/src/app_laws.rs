//! What holds of every turn of the app loop, whatever the answers.
use vstd::prelude::*;
use crate::app_loop::{
    AppAction, AppEvent, AppFacts, AppLoop, AppReply, AppStage, AppStep, StorageDispatch,
};
use crate::app_model::{
    advance, advance_cycle, advance_event, advance_press, advance_transition, begin,
    next_request_id, opened_book, owns_the_switch, persisted_before,
};
use crate::messages::{LibraryEvent, RenderKind, StorageCommand};

verus! {

/// A reserved request id is never zero and never the one already out, so a
/// command sent under it cannot be taken for a stale one.
pub proof fn law_request_ids_are_fresh(latest: u32)
    ensures
        next_request_id(latest) != 0,
        next_request_id(latest) != latest,
{
}

/// Where the render lock is known to be open or shut.
pub open spec fn frame_invariant(app: AppLoop, stage: AppStage) -> bool {
    match stage {
        AppStage::RetryNoted
        | AppStage::CatalogAsked
        | AppStage::Draining { .. }
        | AppStage::RetryAsked
        | AppStage::CycleGate => !app.rendering,
        AppStage::CycleRendered => app.rendering,
        _ => true,
    }
}

/// What one answer may do to the render lock.
pub open spec fn frame_kept(app: AppLoop, next: (AppLoop, AppStep)) -> bool {
    &&& frame_invariant(next.0, next.1.stage)
    &&& next.1.action is SendRender ==> !app.rendering && next.0.rendering
    &&& next.0.rendering && !app.rendering ==> next.1.action is SendRender
}

proof fn lemma_frame_transition(app: AppLoop, stage: AppStage, reply: AppReply, facts: AppFacts)
    requires
        frame_invariant(app, stage),
    ensures
        advance_transition(app, stage, reply, facts) matches Some(next) ==> frame_kept(app, next),
{
}

proof fn lemma_frame_press(app: AppLoop, stage: AppStage, reply: AppReply, facts: AppFacts)
    requires
        frame_invariant(app, stage),
    ensures
        advance_press(app, stage, reply, facts) matches Some(next) ==> frame_kept(app, next),
{
}

proof fn lemma_frame_event(app: AppLoop, stage: AppStage, reply: AppReply, facts: AppFacts)
    requires
        frame_invariant(app, stage),
    ensures
        advance_event(app, stage, reply, facts) matches Some(next) ==> frame_kept(app, next),
{
}

proof fn lemma_frame_cycle(app: AppLoop, stage: AppStage, reply: AppReply, facts: AppFacts)
    requires
        frame_invariant(app, stage),
    ensures
        advance_cycle(app, stage, reply, facts) matches Some(next) ==> frame_kept(app, next),
{
}

/// At most one frame is in flight: a frame is sent only while none is, and
/// shuts the lock. The invariant this rests on holds of a turn's start and
/// is kept by every answer.
pub proof fn law_one_frame_in_flight(app: AppLoop, stage: AppStage, reply: AppReply, facts: AppFacts, event: AppEvent)
    requires
        frame_invariant(app, stage),
    ensures
        ({
            let started = begin(app, event, facts);
            frame_invariant(started.0, started.1.stage) && !(started.1.action is SendRender)
        }),
        advance(app, stage, reply, facts) matches Some(next) ==> frame_kept(app, next),
{
    lemma_frame_transition(app, stage, reply, facts);
    lemma_frame_press(app, stage, reply, facts);
    lemma_frame_event(app, stage, reply, facts);
    lemma_frame_cycle(app, stage, reply, facts);
}

/// A press reaches the reducer only while no open is pending.
pub proof fn law_input_waits_for_the_open(app: AppLoop, event: AppEvent, facts: AppFacts)
    ensures
        begin(app, event, facts).1.action is FoldInput ==> app.opening_book is None
            && !app.suppress_input_until_open_settled,
{
}

/// An open that is waited on has the input lock.
pub open spec fn lock_invariant(app: AppLoop) -> bool {
    app.opening_book is Some ==> app.suppress_input_until_open_settled
}

/// The book being waited on and the input lock are taken together, and the
/// lock outlives the wait: as long as the input lock is only lifted while no open
/// is pending, input is never let through to an open.
pub proof fn law_open_keeps_the_lock(app: AppLoop, stage: AppStage, reply: AppReply, facts: AppFacts, event: AppEvent)
    requires
        lock_invariant(app),
        (stage is QuietGate || stage is CycleGate) && reply == AppReply::Allowed(true)
            ==> app.opening_book is None,
    ensures
        lock_invariant(begin(app, event, facts).0),
        advance(app, stage, reply, facts) matches Some(next) ==> lock_invariant(next.0),
{
    assert(advance_transition(app, stage, reply, facts) matches Some(next) ==> lock_invariant(
        next.0,
    ));
    assert(advance_press(app, stage, reply, facts) matches Some(next) ==> lock_invariant(next.0));
    assert(advance_event(app, stage, reply, facts) matches Some(next) ==> lock_invariant(next.0));
    assert(advance_cycle(app, stage, reply, facts) matches Some(next) ==> lock_invariant(next.0));
}

/// A request id is published only for a command that was sent or parked. A
/// command that was neither arms nothing: all it may still lead to is the
/// frame its event owes.
pub proof fn law_only_a_taken_command_counts(app: AppLoop, stage: AppStage, reply: AppReply, facts: AppFacts)
    ensures
        advance(app, stage, reply, facts) matches Some(next) ==> (next.0.latest_request_id
            != app.latest_request_id ==> stage is Sending && reply is Dispatched && reply
            != AppReply::Dispatched(StorageDispatch::Rejected)),
        stage is Sending && reply == AppReply::Dispatched(StorageDispatch::Rejected) ==> advance(
            app,
            stage,
            reply,
            facts,
        ) is Some && ({
            let after = (advance(app, stage, reply, facts)->0).0;
            after == AppLoop {
                rendering: after.rendering,
                render_pending: after.render_pending,
                boot_render_pending: after.boot_render_pending,
                ..app
            }
        }),
{
    assert(advance_transition(app, stage, reply, facts) matches Some(next) ==> (
    next.0.latest_request_id != app.latest_request_id ==> stage is Sending && reply is Dispatched
        && reply != AppReply::Dispatched(StorageDispatch::Rejected)));
    assert(advance_press(app, stage, reply, facts) matches Some(next) ==> next.0.latest_request_id
        == app.latest_request_id);
    assert(advance_event(app, stage, reply, facts) matches Some(next) ==> next.0.latest_request_id
        == app.latest_request_id);
    assert(advance_cycle(app, stage, reply, facts) matches Some(next) ==> next.0.latest_request_id
        == app.latest_request_id);
}

/// An open nobody took puts the reader back on the book it never left.
pub proof fn law_rejected_open_rolls_back(app: AppLoop, stage: AppStage, facts: AppFacts)
    requires
        stage is Sending,
        opened_book(stage->Sending_command) is Some,
    ensures
        advance(app, stage, AppReply::Dispatched(StorageDispatch::Rejected), facts) matches Some(next)
            && next.1.action is RestorePrevious,
{
}

/// A transition that changed what is persisted is followed by a progress
/// write of what it is now, and no other is. The exception is an open that
/// closes out the departing book: a separate write would name the arriving
/// one.
pub proof fn law_switch_owns_the_position(app: AppLoop, stage: AppStage, reply: AppReply, facts: AppFacts)
    ensures
        stage matches AppStage::Holding { cause, dispatch } ==> (advance(app, stage, reply, facts) matches Some(
            next,
        ) ==> stores_progress(
            next.1,
            facts,
            persisted_before(cause) != facts.view.persisted && !dispatch.switch_dispatched,
        )),
        stage matches AppStage::RolledBack { cause } ==> (advance(app, stage, reply, facts) matches Some(
            next,
        ) ==> stores_progress(next.1, facts, persisted_before(cause) != facts.view.persisted)),
{
}

/// Whether a step writes the reader's progress if it is due, and none else.
pub open spec fn stores_progress(step: AppStep, facts: AppFacts, due: bool) -> bool {
    if due {
        step.action == AppAction::Dispatch(StorageCommand::StoreProgress(facts.view.persisted))
    } else {
        !(step.action matches AppAction::Dispatch(StorageCommand::StoreProgress(_)))
    }
}

/// The switch is recorded exactly when the command that was taken carries the
/// departing book's position.
pub proof fn law_switch_is_recorded(app: AppLoop, stage: AppStage, outcome: StorageDispatch, facts: AppFacts)
    requires
        stage is Sending,
        outcome != StorageDispatch::Rejected,
    ensures
        advance(app, stage, AppReply::Dispatched(outcome), facts) matches Some(next)
            && next.1.stage is Holding && next.1.stage->Holding_dispatch.switch_dispatched
            == owns_the_switch(stage->Sending_command),
{
}

/// The panel is initialised by the first frame a library event sends, and by
/// no later one.
pub proof fn law_boot_frame_is_sent_once(app: AppLoop, stage: AppStage, reply: AppReply, facts: AppFacts)
    ensures
        advance(app, stage, reply, facts) matches Some(next) ==> {
            &&& next.1.action == AppAction::SendRender(RenderKind::Boot) ==> app.boot_render_pending
                && !next.0.boot_render_pending
            &&& !app.boot_render_pending ==> !next.0.boot_render_pending
        },
{
    assert(advance_transition(app, stage, reply, facts) matches Some(next) ==> {
        &&& next.1.action == AppAction::SendRender(RenderKind::Boot) ==> app.boot_render_pending
            && !next.0.boot_render_pending
        &&& !app.boot_render_pending ==> !next.0.boot_render_pending
    });
}

/// A load or a refusal of the book being waited on ends the wait; one that
/// names another book does not.
pub proof fn law_only_its_own_answer_ends_the_wait(app: AppLoop, event: LibraryEvent, facts: AppFacts)
    requires
        app.opening_book is Some,
    ensures
        begin(app, AppEvent::Library(event), facts).0.opening_book is None <==> (event matches LibraryEvent::Loaded {
            book_id,
            ..
        } && book_id == app.opening_book->0) || (event matches LibraryEvent::BookOpenFailed { book_id }
            && book_id == app.opening_book->0),
        begin(app, AppEvent::Library(event), facts).0.opening_book is Some ==> begin(
            app,
            AppEvent::Library(event),
            facts,
        ).0.opening_book == app.opening_book,
{
}

} // verus!
