//! What holds of every storage command, whatever the card answers.
use vstd::prelude::*;
use crate::messages::{AppStateRecord, LibraryEvent, StorageCommand};
use crate::storage::{
    Emission, Opening, StorageAction, StorageReply, StorageStage, StorageStep, StorageTask,
    StoreFacts, PLACE_RESOLVE_STEPS,
};
use crate::storage_model::{
    advance, advance_browse, advance_catalog, advance_loan, advance_open, advance_writes, begin,
};

verus! {

/// One answer from outside and what the store said with it.
pub struct StorageInput {
    pub reply: StorageReply,
    pub facts: StoreFacts,
}

/// Where a run of the machine has got to.
pub struct StorageRun {
    pub task: StorageTask,
    pub stage: StorageStage,
    pub steps: Seq<StorageStep>,
}

/// One more answer. An answer the stage is not waiting for changes nothing.
pub open spec fn extend(run: StorageRun, input: StorageInput) -> StorageRun {
    match advance(run.task, run.stage, input.reply, input.facts) {
        Some(next) => StorageRun {
            task: next.0,
            stage: next.1.stage,
            steps: run.steps.push(next.1),
        },
        None => run,
    }
}

/// A command started and fed `inputs` in order.
pub open spec fn run(task: StorageTask, command: StorageCommand, latest_request_id: u32, facts: StoreFacts, inputs: Seq<StorageInput>) -> StorageRun
    decreases inputs.len(),
{
    if inputs.len() == 0 {
        let (task, step) = begin(task, command, latest_request_id, facts);
        StorageRun { task, stage: step.stage, steps: seq![step] }
    } else {
        extend(
            run(task, command, latest_request_id, facts, inputs.drop_last()),
            inputs.last(),
        )
    }
}

/// The press a command answers, if it answers one.
pub open spec fn press_of(command: StorageCommand) -> Option<u32> {
    match command {
        StorageCommand::ClearBookCache { request_id, .. } => Some(request_id),
        StorageCommand::ChooseLibraryRow { request_id, .. } => Some(request_id),
        StorageCommand::LeaveLibraryFolder { request_id, .. } => Some(request_id),
        _ => None,
    }
}

/// The press a stage still owes an answer.
pub open spec fn owed(stage: StorageStage) -> Option<u32> {
    match stage {
        StorageStage::RefreshScan { request } => request,
        StorageStage::RestoreRecord { request } => request,
        StorageStage::RestoreRow { request, .. } => request,
        StorageStage::RestoreEntry { request, .. } => request,
        StorageStage::RestorePlace { request, .. } => request,
        StorageStage::RestoreTitle { request, .. } => request,
        StorageStage::RestoreCount { request, .. } => request,
        StorageStage::Relist { request } => request,
        StorageStage::Unreadable { request } => request,
        StorageStage::ClearResume { request_id, .. } => Some(request_id),
        StorageStage::ClearRow { request_id } => Some(request_id),
        StorageStage::ClearLocated { request_id } => Some(request_id),
        StorageStage::ClearDone { request_id } => Some(request_id),
        StorageStage::Chosen { request_id } => Some(request_id),
        StorageStage::Left { request_id } => Some(request_id),
        _ => None,
    }
}

/// The press an event answers.
pub open spec fn answered(event: LibraryEvent) -> Option<u32> {
    match event {
        LibraryEvent::CacheCleared { request_id, .. } => Some(request_id),
        LibraryEvent::RowFailed { request_id } => Some(request_id),
        LibraryEvent::RowIsBook { request_id, .. } => Some(request_id),
        LibraryEvent::FolderListed { request_id, .. } => request_id,
        _ => None,
    }
}

pub open spec fn answers(emission: Option<Emission>) -> nat {
    match emission {
        Some(emission) => if answered(emission.event) is Some { 1 } else { 0 },
        None => 0,
    }
}

pub open spec fn answers_in_step(step: StorageStep) -> nat {
    answers(step.first) + answers(step.second)
}

/// How many presses the steps of a run answered.
pub open spec fn answers_in(steps: Seq<StorageStep>) -> nat
    decreases steps.len(),
{
    if steps.len() == 0 {
        0
    } else {
        answers_in(steps.drop_last()) + answers_in_step(steps.last())
    }
}

/// Whether every answer in the steps goes to `press`.
pub open spec fn answers_only(steps: Seq<StorageStep>, press: Option<u32>) -> bool {
    forall|i: int| 0 <= i < steps.len() ==> step_answers_only(#[trigger] steps[i], press)
}

pub open spec fn step_answers_only(step: StorageStep, press: Option<u32>) -> bool {
    &&& step.first matches Some(e) ==> (answered(e.event) is Some ==> answered(e.event) == press)
    &&& step.second matches Some(e) ==> (answered(e.event) is Some ==> answered(e.event) == press)
}

proof fn lemma_answers_push(steps: Seq<StorageStep>, step: StorageStep)
    ensures
        answers_in(steps.push(step)) == answers_in(steps) + answers_in_step(step),
{
    assert(steps.push(step).drop_last() =~= steps);
}

/// One step either passes the debt on or pays it, once and to the right press.
pub open spec fn debt_kept(stage: StorageStage, step: StorageStep) -> bool {
    &&& step_answers_only(step, owed(stage))
    &&& owed(stage) is None ==> answers_in_step(step) == 0 && owed(step.stage) is None
    &&& owed(stage) is Some ==> {
        ||| answers_in_step(step) == 1 && owed(step.stage) is None
        ||| answers_in_step(step) == 0 && owed(step.stage) == owed(stage)
    }
}

proof fn lemma_debt_open(task: StorageTask, stage: StorageStage, reply: StorageReply, facts: StoreFacts)
    ensures
        advance_open(task, stage, reply, facts) matches Some(next) ==> debt_kept(stage, next.1),
{
}

proof fn lemma_debt_catalog(task: StorageTask, stage: StorageStage, reply: StorageReply, facts: StoreFacts)
    ensures
        advance_catalog(task, stage, reply, facts) matches Some(next) ==> debt_kept(stage, next.1),
{
}

proof fn lemma_debt_browse(task: StorageTask, stage: StorageStage, reply: StorageReply, facts: StoreFacts)
    ensures
        advance_browse(task, stage, reply, facts) matches Some(next) ==> debt_kept(stage, next.1),
{
}

proof fn lemma_debt_loan(task: StorageTask, stage: StorageStage, reply: StorageReply, facts: StoreFacts)
    ensures
        advance_loan(task, stage, reply, facts) matches Some(next) ==> debt_kept(stage, next.1),
{
}

proof fn lemma_debt_writes(task: StorageTask, stage: StorageStage, reply: StorageReply, facts: StoreFacts)
    ensures
        advance_writes(task, stage, reply, facts) matches Some(next) ==> debt_kept(stage, next.1),
{
}

proof fn lemma_debt(task: StorageTask, stage: StorageStage, reply: StorageReply, facts: StoreFacts)
    ensures
        advance(task, stage, reply, facts) matches Some(next) ==> debt_kept(stage, next.1),
{
    lemma_debt_open(task, stage, reply, facts);
    lemma_debt_catalog(task, stage, reply, facts);
    lemma_debt_browse(task, stage, reply, facts);
    lemma_debt_loan(task, stage, reply, facts);
    lemma_debt_writes(task, stage, reply, facts);
}

/// A press in Library is answered exactly once, to the request that made it,
/// whatever the card says; and a command nobody pressed for answers none.
pub proof fn law_presses_are_answered_once(
    task: StorageTask,
    command: StorageCommand,
    latest_request_id: u32,
    facts: StoreFacts,
    inputs: Seq<StorageInput>,
)
    ensures
        ({
            let end = run(task, command, latest_request_id, facts, inputs);
            &&& answers_only(end.steps, press_of(command))
            &&& press_of(command) is None ==> answers_in(end.steps) == 0
            &&& press_of(command) is Some ==> answers_in(end.steps) <= 1
            &&& press_of(command) is Some && end.stage is Over ==> answers_in(end.steps) == 1
        }),
{
    lemma_debt_of_run(task, command, latest_request_id, facts, inputs);
}

/// A run that stands at `stage` after `steps` has paid what it does not owe.
pub open spec fn debt_holds(steps: Seq<StorageStep>, stage: StorageStage, press: Option<u32>) -> bool {
    &&& answers_only(steps, press)
    &&& owed(stage) is Some ==> owed(stage) == press
    &&& answers_in(steps) + (if owed(stage) is Some { 1nat } else { 0 }) == (if press is Some {
        1nat
    } else {
        0
    })
}

proof fn lemma_debt_begins(task: StorageTask, command: StorageCommand, latest_request_id: u32, facts: StoreFacts)
    ensures
        ({
            let step = begin(task, command, latest_request_id, facts).1;
            debt_holds(seq![step], step.stage, press_of(command))
        }),
{
    let step = begin(task, command, latest_request_id, facts).1;
    let none = Seq::<StorageStep>::empty();
    assert(seq![step] =~= none.push(step));
    lemma_answers_push(none, step);
    assert(answers_in(none) == 0);
}

proof fn lemma_debt_goes_on(steps: Seq<StorageStep>, stage: StorageStage, step: StorageStep, press: Option<u32>)
    requires
        debt_holds(steps, stage, press),
        debt_kept(stage, step),
    ensures
        debt_holds(steps.push(step), step.stage, press),
{
    lemma_answers_push(steps, step);
    assert forall|i: int| 0 <= i < steps.push(step).len() implies step_answers_only(
        #[trigger] steps.push(step)[i],
        press,
    ) by {
        if i < steps.len() {
            assert(steps.push(step)[i] == steps[i]);
        } else {
            assert(steps.push(step)[i] == step);
        }
    }
}

proof fn lemma_debt_of_run(
    task: StorageTask,
    command: StorageCommand,
    latest_request_id: u32,
    facts: StoreFacts,
    inputs: Seq<StorageInput>,
)
    ensures
        ({
            let end = run(task, command, latest_request_id, facts, inputs);
            debt_holds(end.steps, end.stage, press_of(command))
        }),
    decreases inputs.len(),
{
    if inputs.len() == 0 {
        lemma_debt_begins(task, command, latest_request_id, facts);
    } else {
        let before = run(task, command, latest_request_id, facts, inputs.drop_last());
        let input = inputs.last();
        lemma_debt_of_run(task, command, latest_request_id, facts, inputs.drop_last());
        lemma_debt(before.task, before.stage, input.reply, input.facts);
        if let Some(next) = advance(before.task, before.stage, input.reply, input.facts) {
            lemma_debt_goes_on(before.steps, before.stage, next.1, press_of(command));
        }
    }
}

/// Whether an action settles the loan the wireless task is blocked on.
pub open spec fn settles_loan(action: StorageAction) -> bool {
    action is RefuseLoan || action is SendLoan
}

pub open spec fn loan_settlements(steps: Seq<StorageStep>) -> nat
    decreases steps.len(),
{
    if steps.len() == 0 {
        0
    } else {
        loan_settlements(steps.drop_last()) + if settles_loan(steps.last().action) {
            1nat
        } else {
            0
        }
    }
}

pub open spec fn loan_owed(stage: StorageStage) -> bool {
    stage is LoanFlush || stage is LoanScratch || stage is LoanCredentials || stage is LoanHint
        || stage is LoanListing
}

/// A request for the sync loan is settled exactly once, granted or refused.
pub proof fn law_loan_is_settled_once(
    task: StorageTask,
    latest_request_id: u32,
    facts: StoreFacts,
    inputs: Seq<StorageInput>,
)
    ensures
        ({
            let end = run(task, StorageCommand::LoanSyncMemory, latest_request_id, facts, inputs);
            &&& loan_settlements(end.steps) <= 1
            &&& end.stage is Over ==> loan_settlements(end.steps) == 1
        }),
{
    lemma_loan(task, latest_request_id, facts, inputs);
}

proof fn lemma_loan(
    task: StorageTask,
    latest_request_id: u32,
    facts: StoreFacts,
    inputs: Seq<StorageInput>,
)
    ensures
        ({
            let end = run(task, StorageCommand::LoanSyncMemory, latest_request_id, facts, inputs);
            &&& loan_owed(end.stage) || end.stage is Closing || end.stage is Over
            &&& loan_settlements(end.steps) == if loan_owed(end.stage) { 0nat } else { 1 }
        }),
    decreases inputs.len(),
{
    let command = StorageCommand::LoanSyncMemory;
    if inputs.len() == 0 {
        let step = begin(task, command, latest_request_id, facts).1;
        let none = Seq::<StorageStep>::empty();
        assert(seq![step].drop_last() =~= none);
        assert(loan_settlements(none) == 0);
    } else {
        let before = run(task, command, latest_request_id, facts, inputs.drop_last());
        let input = inputs.last();
        lemma_loan(task, latest_request_id, facts, inputs.drop_last());
        if let Some(next) = advance(before.task, before.stage, input.reply, input.facts) {
            assert(before.steps.push(next.1).drop_last() =~= before.steps);
        }
    }
}

/// A refused loan leaves the background walk scheduled; a granted one has
/// taken the scratch it lives in, and ends it.
pub proof fn law_refused_loan_keeps_the_walk(
    task: StorageTask,
    stage: StorageStage,
    reply: StorageReply,
    facts: StoreFacts,
)
    requires
        advance(task, stage, reply, facts) is Some,
    ensures
        ({
            let next = advance(task, stage, reply, facts)->0;
            &&& next.1.action is RefuseLoan ==> next.0.background_build == task.background_build
            &&& next.1.action is GrantLoan ==> next.0.background_build is None
        }),
{
}

/// Clearing a cache ends both halves of a walk before anything is deleted:
/// the handle is gone and the first thing asked for is that the resume goes.
pub proof fn law_clearing_ends_the_walk(
    task: StorageTask,
    request_id: u32,
    index: u16,
    browse_epoch: u32,
    latest_request_id: u32,
    facts: StoreFacts,
)
    ensures
        ({
            let next = begin(
                task,
                StorageCommand::ClearBookCache { request_id, index, browse_epoch },
                latest_request_id,
                facts,
            );
            next.0.background_build is None && next.1.action is ClearBuildResume
        }),
{
}

/// The record whose write a stage is waiting on.
pub open spec fn writing(task: StorageTask, stage: StorageStage) -> Option<AppStateRecord> {
    match stage {
        StorageStage::LoanFlush => task.progress.pending,
        StorageStage::DepartingFlush { .. } => task.progress.pending,
        StorageStage::ProgressFlush { .. } => task.progress.pending,
        StorageStage::DepartingStore { record, .. } => Some(record),
        StorageStage::PointerStore { record, .. } => Some(record),
        StorageStage::ProgressWrite { record } => Some(record),
        _ => None,
    }
}

/// What the slot may hold while a record is on its way: nothing, or a record
/// of the same book.
pub open spec fn slot_is_free_for(task: StorageTask, book_id: u32) -> bool {
    match task.progress.pending {
        Some(pending) => pending.book_id == book_id,
        None => true,
    }
}

/// Holds of every stage a run reaches.
pub open spec fn slot_invariant(task: StorageTask, stage: StorageStage) -> bool {
    match stage {
        StorageStage::LoanFlush => task.progress.pending is Some,
        StorageStage::DepartingFlush { .. } => task.progress.pending is Some,
        StorageStage::ProgressFlush { .. } => task.progress.pending is Some,
        StorageStage::DepartingIdentity { previous, .. } => slot_is_free_for(
            task,
            previous.book_id,
        ),
        StorageStage::DepartingStore { record, .. } => slot_is_free_for(task, record.book_id),
        StorageStage::ProgressWrite { record } => slot_is_free_for(task, record.book_id),
        _ => true,
    }
}

proof fn lemma_slot_open(task: StorageTask, stage: StorageStage, reply: StorageReply, facts: StoreFacts)
    requires
        slot_invariant(task, stage),
    ensures
        advance_open(task, stage, reply, facts) matches Some(next) ==> slot_invariant(next.0, next.1.stage),
{
}

proof fn lemma_slot_catalog(task: StorageTask, stage: StorageStage, reply: StorageReply, facts: StoreFacts)
    requires
        slot_invariant(task, stage),
    ensures
        advance_catalog(task, stage, reply, facts) matches Some(next) ==> slot_invariant(next.0, next.1.stage),
{
}

proof fn lemma_slot_browse(task: StorageTask, stage: StorageStage, reply: StorageReply, facts: StoreFacts)
    requires
        slot_invariant(task, stage),
    ensures
        advance_browse(task, stage, reply, facts) matches Some(next) ==> slot_invariant(next.0, next.1.stage),
{
}

proof fn lemma_slot_loan(task: StorageTask, stage: StorageStage, reply: StorageReply, facts: StoreFacts)
    requires
        slot_invariant(task, stage),
    ensures
        advance_loan(task, stage, reply, facts) matches Some(next) ==> slot_invariant(next.0, next.1.stage),
{
}

proof fn lemma_slot_writes(task: StorageTask, stage: StorageStage, reply: StorageReply, facts: StoreFacts)
    requires
        slot_invariant(task, stage),
    ensures
        advance_writes(task, stage, reply, facts) matches Some(next) ==> slot_invariant(next.0, next.1.stage),
{
}

proof fn lemma_slot_step(task: StorageTask, stage: StorageStage, reply: StorageReply, facts: StoreFacts)
    requires
        slot_invariant(task, stage),
    ensures
        advance(task, stage, reply, facts) matches Some(next) ==> slot_invariant(next.0, next.1.stage),
{
    lemma_slot_open(task, stage, reply, facts);
    lemma_slot_catalog(task, stage, reply, facts);
    lemma_slot_browse(task, stage, reply, facts);
    lemma_slot_loan(task, stage, reply, facts);
    lemma_slot_writes(task, stage, reply, facts);
}

proof fn lemma_slot_invariant(
    task: StorageTask,
    command: StorageCommand,
    latest_request_id: u32,
    facts: StoreFacts,
    inputs: Seq<StorageInput>,
)
    ensures
        ({
            let end = run(task, command, latest_request_id, facts, inputs);
            slot_invariant(end.task, end.stage)
        }),
    decreases inputs.len(),
{
    if inputs.len() > 0 {
        let before = run(task, command, latest_request_id, facts, inputs.drop_last());
        lemma_slot_invariant(task, command, latest_request_id, facts, inputs.drop_last());
        lemma_slot_step(before.task, before.stage, inputs.last().reply, inputs.last().facts);
    }
}

/// A position owed to the card leaves the slot only by being written, or by
/// giving way to a newer one of the same book. The one exception is the
/// global pointer of a finished open, which replaces another book's record
/// that is still there.
pub proof fn law_owed_position_is_kept(
    task: StorageTask,
    command: StorageCommand,
    latest_request_id: u32,
    facts: StoreFacts,
    inputs: Seq<StorageInput>,
    input: StorageInput,
)
    requires
        ({
            let before = run(task, command, latest_request_id, facts, inputs);
            &&& before.task.progress.pending is Some
            &&& before.stage is PointerStore && input.reply is Stored
                ==> before.stage->PointerStore_record.book_id
                == before.task.progress.pending->0.book_id
        }),
    ensures
        ({
            let before = run(task, command, latest_request_id, facts, inputs);
            let after = run(task, command, latest_request_id, facts, inputs.push(input));
            let owed = before.task.progress.pending->0;
            let left = after.task.progress.pending;
            ||| left is Some && left->0.book_id == owed.book_id
            ||| {
                &&& input.reply == StorageReply::Stored(true)
                &&& writing(before.task, before.stage) is Some
                &&& writing(before.task, before.stage)->0.book_id == owed.book_id
            }
        }),
{
    lemma_slot_invariant(task, command, latest_request_id, facts, inputs);
    assert(inputs.push(input).drop_last() =~= inputs);
}

/// How far the resolving of a stored place still has to go.
pub open spec fn place_rank(stage: StorageStage) -> int {
    match stage {
        StorageStage::PlaceTarget(resolving) => 3 * resolving.steps_left + 2,
        StorageStage::PlaceCovered { resolving, .. } => 3 * resolving.steps_left + 1,
        StorageStage::PlaceBuilt { resolving, .. } => 3 * resolving.steps_left as int,
        _ => -1,
    }
}

pub open spec fn place_nears_its_end(stage: StorageStage, next: StorageStage) -> bool {
    &&& place_rank(stage) >= 0 ==> place_rank(next) < place_rank(stage)
    &&& place_rank(stage) < 0 ==> place_rank(next) <= 3 * PLACE_RESOLVE_STEPS + 2
}

proof fn lemma_place_open(task: StorageTask, stage: StorageStage, reply: StorageReply, facts: StoreFacts)
    ensures
        advance_open(task, stage, reply, facts) matches Some(next) ==> place_nears_its_end(
            stage,
            next.1.stage,
        ),
{
}

proof fn lemma_place_catalog(task: StorageTask, stage: StorageStage, reply: StorageReply, facts: StoreFacts)
    ensures
        advance_catalog(task, stage, reply, facts) matches Some(next) ==> place_nears_its_end(
            stage,
            next.1.stage,
        ),
{
}

proof fn lemma_place_browse(task: StorageTask, stage: StorageStage, reply: StorageReply, facts: StoreFacts)
    ensures
        advance_browse(task, stage, reply, facts) matches Some(next) ==> place_nears_its_end(
            stage,
            next.1.stage,
        ),
{
}

proof fn lemma_place_loan(task: StorageTask, stage: StorageStage, reply: StorageReply, facts: StoreFacts)
    ensures
        advance_loan(task, stage, reply, facts) matches Some(next) ==> place_nears_its_end(
            stage,
            next.1.stage,
        ),
{
}

proof fn lemma_place_writes(task: StorageTask, stage: StorageStage, reply: StorageReply, facts: StoreFacts)
    ensures
        advance_writes(task, stage, reply, facts) matches Some(next) ==> place_nears_its_end(
            stage,
            next.1.stage,
        ),
{
}

/// Resolving a place comes to an end: each answer brings it nearer, and it
/// starts no more than a fixed distance away.
pub proof fn law_place_resolving_ends(
    task: StorageTask,
    stage: StorageStage,
    reply: StorageReply,
    facts: StoreFacts,
)
    ensures
        advance(task, stage, reply, facts) matches Some(next) ==> place_nears_its_end(
            stage,
            next.1.stage,
        ),
{
    lemma_place_open(task, stage, reply, facts);
    lemma_place_catalog(task, stage, reply, facts);
    lemma_place_browse(task, stage, reply, facts);
    lemma_place_loan(task, stage, reply, facts);
    lemma_place_writes(task, stage, reply, facts);
}

/// The open a stage belongs to.
pub open spec fn open_of(stage: StorageStage) -> Option<Opening> {
    match stage {
        StorageStage::OpenBegin(open) => Some(open),
        StorageStage::OpenNext(open) => Some(open),
        StorageStage::DepartingFlush { open, .. } => Some(open),
        StorageStage::DepartingIdentity { open, .. } => Some(open),
        StorageStage::DepartingStore { open, .. } => Some(open),
        StorageStage::OpenEntry { open, .. } => Some(open),
        StorageStage::OpenLayout(open) => Some(open),
        StorageStage::OpenPlace(open) => Some(open),
        StorageStage::SectionCovered { open, .. } => Some(open),
        StorageStage::SectionBuilt { open, .. } => Some(open),
        StorageStage::PlaceTarget(resolving) => Some(resolving.open),
        StorageStage::PlaceCovered { resolving, .. } => Some(resolving.open),
        StorageStage::PlaceBuilt { resolving, .. } => Some(resolving.open),
        StorageStage::PointerIdentity { open, .. } => Some(open),
        StorageStage::PointerStore { open, .. } => Some(open),
        _ => None,
    }
}

/// An open that builds remembers it, so the load it announces afterwards says
/// that the text under the reader was replaced; only a section answered from
/// memory says that it was not.
pub proof fn law_announced_load_tells_of_new_text(
    task: StorageTask,
    stage: StorageStage,
    reply: StorageReply,
    facts: StoreFacts,
)
    requires
        advance(task, stage, reply, facts) is Some,
        open_of(stage) is Some,
    ensures
        ({
            let step = (advance(task, stage, reply, facts)->0).1;
            &&& step.action is Build ==> open_of(step.stage) is Some && open_of(
                step.stage,
            )->0.section_loaded == Some(false)
            &&& step.first matches Some(e) ==> (e.event matches LibraryEvent::Loaded { text_replaced, .. }
                ==> text_replaced == (open_of(stage)->0.section_loaded != Some(true)))
        }),
{
}

/// Durable state is read at most once per boot: the step that asks for it
/// sets the flag that keeps every later one from asking, and nothing clears
/// it.
pub proof fn law_state_is_restored_once(
    task: StorageTask,
    stage: StorageStage,
    reply: StorageReply,
    facts: StoreFacts,
)
    requires
        advance(task, stage, reply, facts) is Some,
    ensures
        ({
            let next = advance(task, stage, reply, facts)->0;
            &&& task.state_restored ==> next.0.state_restored && !(next.1.action is LoadAppState)
            &&& next.1.action is LoadAppState ==> next.0.state_restored
        }),
{
}

} // verus!
