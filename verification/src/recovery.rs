//! What a mount finds of earlier sessions: interrupted uploads, reclaims and
//! replacements, and whether the catalog may be trusted or rebuilt.
use vstd::prelude::*;
use crate::catalog::{fault_token, CatalogFault};

verus! {

/// Whether the shelf opened.
#[derive(Clone, Copy, PartialEq, Eq, Structural, Debug)]
pub enum Shelf {
    Found,
    /// The card answered and there is none.
    Absent,
    /// The card did not answer.
    Unreadable,
}

/// What the install journal holds.
#[derive(Clone, Copy, PartialEq, Eq, Structural, Debug)]
pub enum IntentRead {
    Absent,
    /// Something was there that cannot be replayed.
    Truncated,
    Valid,
    /// A record this build cannot read.
    Unrecognized,
    Fault,
}

/// What recovering a replacement came to.
#[derive(Clone, Copy, PartialEq, Eq, Structural, Debug)]
pub enum ReplaceRecovery {
    Nothing,
    Settled,
    Refused,
    Fault,
}

/// Whether a replacement's intent still stands.
#[derive(Clone, Copy, PartialEq, Eq, Structural, Debug)]
pub enum ReplaceRead {
    Absent,
    Standing,
    Fault,
}

/// What recovering installs came to.
#[derive(Clone, Copy, PartialEq, Eq, Structural, Debug)]
pub struct InstallRecovery {
    pub touched_shelf: bool,
    pub swept: bool,
    pub had_intent: bool,
    pub complete: bool,
}

/// What one pass found.
#[derive(Clone, Copy, PartialEq, Eq, Structural, Debug)]
pub struct Reconciled {
    pub outcome: InstallRecovery,
    /// The shelf opened, or is not there.
    pub shelf_readable: bool,
    /// It is safe to allocate on this card.
    pub may_mutate: bool,
}

#[derive(Clone, Copy, PartialEq, Eq, Structural, Debug)]
pub enum RecoveryAction {
    Finish(Reconciled),
    /// Open the shelf. Answer: `Shelf`.
    OpenShelf,
    /// Replay a reclaim, on the shelf too if there is one. Answer: `Settled`.
    RecoverReclaim { shelf: bool },
    /// Read the install journal. Answer: `Intent`.
    ReadIntent,
    /// Clear a truncated record. Answer: `Settled`.
    ClearIntent,
    /// Finish interrupted installs. Answer: `Installs`.
    RecoverInstalls,
    /// Settle a replacement in flight. Answer: `Replaced`.
    RecoverReplace,
    /// See whether a replacement stands, without settling it. Answer:
    /// `Standing`.
    ReadReplace,
}

#[derive(Clone, Copy, PartialEq, Eq, Structural, Debug)]
pub enum RecoveryReply {
    Shelf(Shelf),
    Settled(bool),
    Intent(IntentRead),
    Installs(InstallRecovery),
    Replaced(ReplaceRecovery),
    Standing(ReplaceRead),
}

#[derive(Clone, Copy, PartialEq, Eq, Structural, Debug)]
pub enum RecoveryStage {
    Over,
    Shelf,
    Reclaim { shelf: bool },
    Intent,
    IntentCleared,
    Installs,
    Replace { outcome: InstallRecovery },
}

#[derive(Clone, Copy, PartialEq, Eq, Structural, Debug)]
pub struct RecoveryStep {
    pub action: RecoveryAction,
    pub stage: RecoveryStage,
}

pub open spec fn recover(action: RecoveryAction, stage: RecoveryStage) -> RecoveryStep {
    RecoveryStep { action, stage }
}

pub open spec fn reconciled(outcome: InstallRecovery, shelf_readable: bool, may_mutate: bool) -> RecoveryStep {
    recover(
        RecoveryAction::Finish(Reconciled { outcome, shelf_readable, may_mutate }),
        RecoveryStage::Over,
    )
}

/// Nothing is known, so an install may be outstanding.
pub open spec fn unknown_outcome() -> InstallRecovery {
    InstallRecovery { touched_shelf: false, swept: false, had_intent: true, complete: false }
}

/// What a mount without a shelf can say.
pub open spec fn shelfless(had_intent: bool, complete: bool) -> InstallRecovery {
    InstallRecovery { touched_shelf: false, swept: false, had_intent, complete }
}

/// The replacement is looked at last: settled once the filesystem is, and
/// only read while it is not.
pub open spec fn then_replace(outcome: InstallRecovery) -> RecoveryStep {
    recover(
        if outcome.complete { RecoveryAction::RecoverReplace } else { RecoveryAction::ReadReplace },
        RecoveryStage::Replace { outcome },
    )
}

/// What an answer does. `None` when the stage is not waiting for it.
pub open spec fn recovery_next(stage: RecoveryStage, reply: RecoveryReply) -> Option<RecoveryStep> {
    match (stage, reply) {
        (RecoveryStage::Shelf, RecoveryReply::Shelf(shelf)) => Some(
            match shelf {
                Shelf::Found => recover(
                    RecoveryAction::RecoverReclaim { shelf: true },
                    RecoveryStage::Reclaim { shelf: true },
                ),
                Shelf::Absent => recover(
                    RecoveryAction::RecoverReclaim { shelf: false },
                    RecoveryStage::Reclaim { shelf: false },
                ),
                Shelf::Unreadable => reconciled(unknown_outcome(), false, false),
            },
        ),
        (RecoveryStage::Reclaim { shelf }, RecoveryReply::Settled(settled)) => Some(
            if !settled {
                reconciled(unknown_outcome(), true, false)
            } else if shelf {
                recover(RecoveryAction::RecoverInstalls, RecoveryStage::Installs)
            } else {
                recover(RecoveryAction::ReadIntent, RecoveryStage::Intent)
            },
        ),
        (RecoveryStage::Intent, RecoveryReply::Intent(intent)) => Some(
            match intent {
                IntentRead::Absent => then_replace(shelfless(false, true)),
                IntentRead::Truncated => recover(
                    RecoveryAction::ClearIntent,
                    RecoveryStage::IntentCleared,
                ),
                _ => then_replace(shelfless(true, false)),
            },
        ),
        (RecoveryStage::IntentCleared, RecoveryReply::Settled(cleared)) => Some(
            then_replace(shelfless(true, cleared)),
        ),
        (RecoveryStage::Installs, RecoveryReply::Installs(outcome)) => Some(then_replace(outcome)),
        (RecoveryStage::Replace { outcome }, RecoveryReply::Replaced(replaced)) => if outcome.complete {
            Some(
                match replaced {
                    ReplaceRecovery::Nothing => reconciled(outcome, true, true),
                    ReplaceRecovery::Settled => reconciled(
                        InstallRecovery { had_intent: true, ..outcome },
                        true,
                        true,
                    ),
                    _ => reconciled(outcome, true, false),
                },
            )
        } else {
            None
        },
        (RecoveryStage::Replace { outcome }, RecoveryReply::Standing(standing)) => if outcome.complete {
            None
        } else {
            Some(reconciled(outcome, true, standing is Absent))
        },
        _ => None,
    }
}

fn step(action: RecoveryAction, stage: RecoveryStage) -> (step: RecoveryStep)
    ensures
        step == recover(action, stage),
{
    RecoveryStep { action, stage }
}

fn end(outcome: InstallRecovery, shelf_readable: bool, may_mutate: bool) -> (step: RecoveryStep)
    ensures
        step == reconciled(outcome, shelf_readable, may_mutate),
{
    RecoveryStep {
        action: RecoveryAction::Finish(Reconciled { outcome, shelf_readable, may_mutate }),
        stage: RecoveryStage::Over,
    }
}

fn unknown() -> (outcome: InstallRecovery)
    ensures
        outcome == unknown_outcome(),
{
    InstallRecovery { touched_shelf: false, swept: false, had_intent: true, complete: false }
}

fn replace(outcome: InstallRecovery) -> (step: RecoveryStep)
    ensures
        step == then_replace(outcome),
{
    if outcome.complete {
        RecoveryStep {
            action: RecoveryAction::RecoverReplace,
            stage: RecoveryStage::Replace { outcome },
        }
    } else {
        RecoveryStep {
            action: RecoveryAction::ReadReplace,
            stage: RecoveryStage::Replace { outcome },
        }
    }
}

/// Begins to finish what an earlier session left in flight. Runs on every
/// path that goes on to serve the shelf.
pub fn reconcile_interrupted_uploads() -> (begun: RecoveryStep)
    ensures
        begun == recover(RecoveryAction::OpenShelf, RecoveryStage::Shelf),
{
    step(RecoveryAction::OpenShelf, RecoveryStage::Shelf)
}

/// Carries the recovery on after an answer.
pub fn continue_recovery(stage: RecoveryStage, reply: RecoveryReply) -> (next: Option<RecoveryStep>)
    ensures
        next == recovery_next(stage, reply),
{
    match (stage, reply) {
        (RecoveryStage::Shelf, RecoveryReply::Shelf(shelf)) => match shelf {
            Shelf::Found => Some(
                step(
                    RecoveryAction::RecoverReclaim { shelf: true },
                    RecoveryStage::Reclaim { shelf: true },
                ),
            ),
            Shelf::Absent => Some(
                step(
                    RecoveryAction::RecoverReclaim { shelf: false },
                    RecoveryStage::Reclaim { shelf: false },
                ),
            ),
            Shelf::Unreadable => Some(end(unknown(), false, false)),
        },
        (RecoveryStage::Reclaim { shelf }, RecoveryReply::Settled(settled)) => {
            if !settled {
                Some(end(unknown(), true, false))
            } else if shelf {
                Some(step(RecoveryAction::RecoverInstalls, RecoveryStage::Installs))
            } else {
                Some(step(RecoveryAction::ReadIntent, RecoveryStage::Intent))
            }
        },
        (RecoveryStage::Intent, RecoveryReply::Intent(intent)) => match intent {
            IntentRead::Absent => Some(
                replace(
                    InstallRecovery {
                        touched_shelf: false,
                        swept: false,
                        had_intent: false,
                        complete: true,
                    },
                ),
            ),
            IntentRead::Truncated => Some(
                step(RecoveryAction::ClearIntent, RecoveryStage::IntentCleared),
            ),
            IntentRead::Valid | IntentRead::Unrecognized | IntentRead::Fault => Some(
                replace(unknown()),
            ),
        },
        (RecoveryStage::IntentCleared, RecoveryReply::Settled(cleared)) => Some(
            replace(
                InstallRecovery {
                    touched_shelf: false,
                    swept: false,
                    had_intent: true,
                    complete: cleared,
                },
            ),
        ),
        (RecoveryStage::Installs, RecoveryReply::Installs(outcome)) => Some(replace(outcome)),
        (RecoveryStage::Replace { outcome }, RecoveryReply::Replaced(replaced)) => {
            if !outcome.complete {
                return None;
            }
            match replaced {
                ReplaceRecovery::Nothing => Some(end(outcome, true, true)),
                ReplaceRecovery::Settled => Some(
                    end(InstallRecovery { had_intent: true, ..outcome }, true, true),
                ),
                ReplaceRecovery::Refused | ReplaceRecovery::Fault => Some(
                    end(outcome, true, false),
                ),
            }
        },
        (RecoveryStage::Replace { outcome }, RecoveryReply::Standing(standing)) => {
            if outcome.complete {
                return None;
            }
            let absent: bool = matches!(standing, ReplaceRead::Absent);
            Some(end(outcome, true, absent))
        },
        _ => None,
    }
}

/// A card may be written on only if it could be read, and only after the
/// replacement was looked at: settled or absent.
pub proof fn law_only_a_settled_card_is_written(stage: RecoveryStage, reply: RecoveryReply)
    ensures
        recovery_next(stage, reply) matches Some(step) ==> (step.action matches RecoveryAction::Finish(found)
            ==> (found.may_mutate ==> {
            &&& found.shelf_readable
            &&& stage is Replace
            &&& reply == RecoveryReply::Replaced(ReplaceRecovery::Nothing) || reply
                == RecoveryReply::Replaced(ReplaceRecovery::Settled) || reply
                == RecoveryReply::Standing(ReplaceRead::Absent)
        })),
{
}

/// A reclaim that did not settle ends the pass: nothing after it is touched,
/// and nothing may allocate.
pub proof fn law_unsettled_reclaim_stops_everything(shelf: bool)
    ensures
        recovery_next(RecoveryStage::Reclaim { shelf }, RecoveryReply::Settled(false)) == Some(
            reconciled(unknown_outcome(), true, false),
        ),
{
}

/// Every mount replays a reclaim before it looks at installs, and looks at
/// installs before it looks at a replacement.
pub open spec fn order(stage: RecoveryStage) -> int {
    match stage {
        RecoveryStage::Shelf => 0,
        RecoveryStage::Reclaim { .. } => 1,
        RecoveryStage::Intent => 2,
        RecoveryStage::IntentCleared => 3,
        RecoveryStage::Installs => 3,
        RecoveryStage::Replace { .. } => 4,
        RecoveryStage::Over => 5,
    }
}

/// The pass goes forward and comes to an end: reclaim, installs, replacement.
pub proof fn law_recovery_goes_forward(stage: RecoveryStage, reply: RecoveryReply)
    ensures
        recovery_next(stage, reply) matches Some(step) ==> order(stage) < order(step.stage),
        recovery_next(stage, reply) matches Some(step) ==> (step.stage is Over <==> step.action
            is Finish),
{
}

#[derive(Clone, Copy, PartialEq, Eq, Structural, Debug)]
pub enum LibraryScanStatus {
    NotScanned,
    Empty,
    Ready,
    Error,
}

#[derive(Clone, Copy, PartialEq, Eq, Structural, Debug)]
pub enum ScanAction {
    /// The scan is over; the arena held scratch and is dropped.
    Finish { status: LibraryScanStatus, complete: bool },
    /// Open the ledger of book identities. Answer: `Went`.
    OpenLedger,
    /// Drop the resident catalog and write a new one. Answer: `Written`.
    WriteCatalog,
    /// Read the new catalog back. Answer: `Went`.
    ReadWindow,
    /// Drop the caches of books that are gone. Answer: `Went`.
    SweepCaches,
}

#[derive(Clone, Copy, PartialEq, Eq, Structural, Debug)]
pub enum ScanReply {
    Went(bool),
    /// How many books were written, if the catalog was committed.
    Written(Option<u16>),
}

#[derive(Clone, Copy, PartialEq, Eq, Structural, Debug)]
pub enum ScanStage {
    Over,
    Ledger,
    Written,
    ReadBack,
    Swept,
}

pub open spec fn scan_over(status: LibraryScanStatus, complete: bool) -> (ScanAction, ScanStage) {
    (ScanAction::Finish { status, complete }, ScanStage::Over)
}

/// A scan runs only on a shelf that can be read and a card that may be
/// written; otherwise the catalog is kept as it is.
pub open spec fn scan_begun(found: Option<Reconciled>) -> (ScanAction, ScanStage) {
    match found {
        Some(found) => if found.shelf_readable && found.may_mutate {
            (ScanAction::OpenLedger, ScanStage::Ledger)
        } else {
            scan_over(LibraryScanStatus::Error, found.outcome.complete)
        },
        None => scan_over(LibraryScanStatus::Error, false),
    }
}

pub open spec fn scan_next(found: Reconciled, stage: ScanStage, reply: ScanReply) -> Option<(ScanAction, ScanStage)> {
    let complete = found.outcome.complete;
    match (stage, reply) {
        (ScanStage::Ledger, ScanReply::Went(opened)) => Some(
            if opened {
                (ScanAction::WriteCatalog, ScanStage::Written)
            } else {
                scan_over(LibraryScanStatus::Error, complete)
            },
        ),
        (ScanStage::Written, ScanReply::Written(count)) => Some(
            match count {
                None => scan_over(LibraryScanStatus::Error, complete),
                Some(count) => if count == 0 {
                    scan_over(LibraryScanStatus::Empty, complete)
                } else {
                    (ScanAction::ReadWindow, ScanStage::ReadBack)
                },
            },
        ),
        (ScanStage::ReadBack, ScanReply::Went(read)) => Some(
            if !read {
                scan_over(LibraryScanStatus::Error, complete)
            } else if complete {
                (ScanAction::SweepCaches, ScanStage::Swept)
            } else {
                scan_over(LibraryScanStatus::Ready, complete)
            },
        ),
        (ScanStage::Swept, ScanReply::Went(_)) => Some(
            scan_over(LibraryScanStatus::Ready, complete),
        ),
        _ => None,
    }
}

/// Begins a scan, after a recovery that found `found`; `None` when the
/// session for it would not open.
pub fn scan_books(found: &Option<Reconciled>) -> (begun: (ScanAction, ScanStage))
    ensures
        begun == scan_begun(*found),
{
    let complete: bool = match found {
        Some(found) => {
            if found.shelf_readable && found.may_mutate {
                return (ScanAction::OpenLedger, ScanStage::Ledger);
            }
            found.outcome.complete
        },
        None => false,
    };
    (ScanAction::Finish { status: LibraryScanStatus::Error, complete }, ScanStage::Over)
}

/// Carries a scan on after an answer.
pub fn continue_scan(found: &Reconciled, stage: ScanStage, reply: ScanReply) -> (next: Option<
    (ScanAction, ScanStage),
>)
    ensures
        next == scan_next(*found, stage, reply),
{
    let complete: bool = found.outcome.complete;
    let status = match (stage, reply) {
        (ScanStage::Ledger, ScanReply::Went(opened)) => {
            if opened {
                return Some((ScanAction::WriteCatalog, ScanStage::Written));
            }
            LibraryScanStatus::Error
        },
        (ScanStage::Written, ScanReply::Written(count)) => match count {
            None => LibraryScanStatus::Error,
            Some(count) => {
                if count != 0 {
                    return Some((ScanAction::ReadWindow, ScanStage::ReadBack));
                }
                LibraryScanStatus::Empty
            },
        },
        (ScanStage::ReadBack, ScanReply::Went(read)) => {
            if !read {
                LibraryScanStatus::Error
            } else if complete {
                return Some((ScanAction::SweepCaches, ScanStage::Swept));
            } else {
                LibraryScanStatus::Ready
            }
        },
        (ScanStage::Swept, ScanReply::Went(_)) => LibraryScanStatus::Ready,
        _ => return None,
    };
    Some((ScanAction::Finish { status, complete }, ScanStage::Over))
}

/// What the library shows after a scan: a scan that failed leaves the books
/// it had.
pub fn status_after_scan(status: LibraryScanStatus, catalog_is_empty: bool) -> (shown: LibraryScanStatus)
    ensures
        shown == shown_after_scan(status, catalog_is_empty),
        shown == if status == LibraryScanStatus::Error && !catalog_is_empty {
            LibraryScanStatus::Ready
        } else {
            status
        },
{
    if status == LibraryScanStatus::Error && !catalog_is_empty {
        LibraryScanStatus::Ready
    } else {
        status
    }
}

/// Whether a scan proved what the shelf holds. One over an install still in
/// flight did not.
pub fn scan_ok(status: LibraryScanStatus, complete: bool) -> (ok: bool)
    ensures
        ok == scan_proved(status, complete),
        ok == (status != LibraryScanStatus::Error && complete),
{
    status != LibraryScanStatus::Error && complete
}

/// A catalog is written, and caches are swept, only where recovery said that
/// it is safe; and caches are swept only when no install is pending and the
/// new catalog was read back.
pub proof fn law_scan_mutates_only_when_safe(found: Reconciled, stage: ScanStage, reply: ScanReply)
    ensures
        scan_begun(Some(found)).0 is OpenLedger ==> found.shelf_readable && found.may_mutate,
        !(scan_begun(Some(found)).0 is WriteCatalog) && !(scan_begun(Some(found)).0
            is SweepCaches),
        scan_begun(None).0 is Finish,
        scan_next(found, stage, reply) matches Some(next) ==> {
            &&& next.0 is WriteCatalog ==> stage is Ledger && reply == ScanReply::Went(true)
            &&& next.0 is SweepCaches ==> stage is ReadBack && reply == ScanReply::Went(true)
                && found.outcome.complete
        },
{
}

/// Whether a catalog snapshot that loaded may serve the shelf: not when
/// recovery could not vouch for the shelf, and not when an install moved it
/// since the snapshot was written.
pub open spec fn snapshot_fault(found: Reconciled) -> Option<CatalogFault> {
    if !found.shelf_readable || !found.may_mutate {
        Some(CatalogFault::Unreconciled)
    } else if found.outcome.touched_shelf || found.outcome.had_intent {
        Some(CatalogFault::Reclaimed)
    } else {
        None
    }
}

/// Judges a snapshot that loaded by what recovery found.
pub fn judge_snapshot(found: &Reconciled) -> (fault: Option<CatalogFault>)
    ensures
        fault == snapshot_fault(*found),
{
    if !found.shelf_readable || !found.may_mutate {
        Some(CatalogFault::Unreconciled)
    } else if found.outcome.touched_shelf || found.outcome.had_intent {
        Some(CatalogFault::Reclaimed)
    } else {
        None
    }
}

/// What loading the catalog snapshot asks for next.
#[derive(Clone, Copy, PartialEq, Eq, Structural, Debug)]
pub enum LoadAction {
    /// Drop the resident catalog, open a session and read the first window of
    /// the one on the card. Answer: `NoSession` or `Window`.
    ReadWindow,
    /// Finish interrupted uploads. Answer: `Found`.
    Reconcile,
    /// The load is over: the snapshot serves, or why it does not. What was
    /// read of one that may not serve is dropped again.
    Finish { fault: Option<CatalogFault>, drop_catalog: bool },
}

#[derive(Clone, Copy, PartialEq, Eq, Structural, Debug)]
pub enum LoadReply {
    /// No session could be had.
    NoSession,
    /// How reading the window failed, if it did.
    Window(Option<CatalogFault>),
    Found(Reconciled),
}

pub open spec fn load_next(action: LoadAction, reply: LoadReply) -> Option<LoadAction> {
    match (action, reply) {
        (LoadAction::ReadWindow, LoadReply::NoSession) => Some(
            LoadAction::Finish { fault: Some(CatalogFault::Device), drop_catalog: false },
        ),
        (LoadAction::ReadWindow, LoadReply::Window(fault)) => Some(
            match fault {
                Some(_) => LoadAction::Finish { fault, drop_catalog: true },
                None => LoadAction::Reconcile,
            },
        ),
        (LoadAction::Reconcile, LoadReply::Found(found)) => Some(
            LoadAction::Finish {
                fault: snapshot_fault(found),
                drop_catalog: snapshot_fault(found) is Some,
            },
        ),
        _ => None,
    }
}

/// Begins to load the catalog snapshot.
pub fn load_catalog_cache() -> (action: LoadAction)
    ensures
        action == LoadAction::ReadWindow,
{
    LoadAction::ReadWindow
}

/// Carries the load on after an answer. Recovery runs only for a snapshot
/// that loaded: any other is answered by a scan, which runs it itself.
pub fn continue_load(action: LoadAction, reply: LoadReply) -> (next: Option<LoadAction>)
    ensures
        next == load_next(action, reply),
{
    match (action, reply) {
        (LoadAction::ReadWindow, LoadReply::NoSession) => Some(
            LoadAction::Finish { fault: Some(CatalogFault::Device), drop_catalog: false },
        ),
        (LoadAction::ReadWindow, LoadReply::Window(fault)) => match fault {
            Some(_) => Some(LoadAction::Finish { fault, drop_catalog: true }),
            None => Some(LoadAction::Reconcile),
        },
        (LoadAction::Reconcile, LoadReply::Found(found)) => {
            let fault = judge_snapshot(&found);
            Some(LoadAction::Finish { fault, drop_catalog: fault.is_some() })
        },
        _ => None,
    }
}

/// The token a load is reported by.
pub fn load_result(fault: Option<CatalogFault>) -> (token: &'static str)
    ensures
        token@ == match fault {
            None => "hit"@,
            Some(fault) => fault_token(fault),
        },
{
    match fault {
        None => "hit",
        Some(fault) => fault.bench_result(),
    }
}

/// No snapshot serves the shelf before recovery vouched for it, and whatever
/// was read of one that does not serve is dropped: a load that does not end
/// well leaves the catalog cleared until the scan that follows. Where no
/// session could be had, nothing was read into the cleared catalog.
pub proof fn law_snapshot_serves_only_when_vouched_for(action: LoadAction, reply: LoadReply)
    ensures
        load_next(action, reply) matches Some(next) ==> (next matches LoadAction::Finish {
            fault,
            drop_catalog,
        } ==> {
            &&& fault is None ==> action is Reconcile && reply is Found && snapshot_fault(
                reply->Found_0,
            ) is None
            &&& fault is Some ==> drop_catalog || reply is NoSession
            &&& fault is None ==> !drop_catalog
        }),
{
}

/// What the library shows after loading its snapshot.
pub fn status_after_load(loaded: bool, catalog_is_empty: bool) -> (status: LibraryScanStatus)
    ensures
        status == shown_after_load(loaded, catalog_is_empty),
        status == if !loaded {
            LibraryScanStatus::NotScanned
        } else if catalog_is_empty {
            LibraryScanStatus::Empty
        } else {
            LibraryScanStatus::Ready
        },
{
    if !loaded {
        LibraryScanStatus::NotScanned
    } else if catalog_is_empty {
        LibraryScanStatus::Empty
    } else {
        LibraryScanStatus::Ready
    }
}

/// A snapshot never serves a shelf that a scan would refuse to describe.
pub proof fn law_snapshot_is_no_less_strict_than_a_scan(found: Reconciled)
    ensures
        snapshot_fault(found) is None ==> scan_begun(Some(found)).0 is OpenLedger,
{
}

/// What a recovery has been told.
pub struct RecoveryWatch {
    pub action: RecoveryAction,
    pub stage: RecoveryStage,
    pub shelf: Option<Shelf>,
    /// Whether the reclaim settled.
    pub reclaimed: Option<bool>,
    pub intent: Option<IntentRead>,
    pub cleared: Option<bool>,
    pub installs: Option<InstallRecovery>,
    pub replaced: Option<ReplaceRecovery>,
    pub standing: Option<ReplaceRead>,
}

/// A recovery fed answers in order.
pub open spec fn recovery_watched(replies: Seq<RecoveryReply>) -> RecoveryWatch
    decreases replies.len(),
{
    if replies.len() == 0 {
        RecoveryWatch {
            action: RecoveryAction::OpenShelf,
            stage: RecoveryStage::Shelf,
            shelf: None,
            reclaimed: None,
            intent: None,
            cleared: None,
            installs: None,
            replaced: None,
            standing: None,
        }
    } else {
        let before = recovery_watched(replies.drop_last());
        let reply = replies.last();
        match recovery_next(before.stage, reply) {
            Some(next) => RecoveryWatch {
                action: next.action,
                stage: next.stage,
                shelf: match reply {
                    RecoveryReply::Shelf(shelf) => Some(shelf),
                    _ => before.shelf,
                },
                reclaimed: match reply {
                    RecoveryReply::Settled(settled) => if before.action is RecoverReclaim {
                        Some(settled)
                    } else {
                        before.reclaimed
                    },
                    _ => before.reclaimed,
                },
                intent: match reply {
                    RecoveryReply::Intent(intent) => Some(intent),
                    _ => before.intent,
                },
                cleared: match reply {
                    RecoveryReply::Settled(settled) => if before.action is ClearIntent {
                        Some(settled)
                    } else {
                        before.cleared
                    },
                    _ => before.cleared,
                },
                installs: match reply {
                    RecoveryReply::Installs(outcome) => Some(outcome),
                    _ => before.installs,
                },
                replaced: match reply {
                    RecoveryReply::Replaced(replaced) => Some(replaced),
                    _ => before.replaced,
                },
                standing: match reply {
                    RecoveryReply::Standing(standing) => Some(standing),
                    _ => before.standing,
                },
            },
            None => before,
        }
    }
}

/// Whether the installs are known to be settled: there was nothing to
/// install, what could not be replayed was cleared, or the installs say so.
pub open spec fn installs_settled(watch: RecoveryWatch) -> bool {
    watch.intent == Some(IntentRead::Absent) || watch.cleared == Some(true) || (watch.installs is Some
        && watch.installs->0.complete)
}

/// Whether an install was in flight, as far as is known.
pub open spec fn install_in_flight(watch: RecoveryWatch) -> bool {
    match watch.installs {
        Some(outcome) => outcome.had_intent,
        None => watch.intent != Some(IntentRead::Absent),
    }
}

/// What a recovery ends with is what it was told: the shelf was readable
/// unless the card did not answer for it; the installs are complete exactly
/// when they are settled; something was in flight if an install was or a
/// replacement was settled; and the card may be written exactly when the
/// reclaim settled and no replacement stands. A replacement is settled only
/// on a card whose installs are, and only looked at on any other.
pub proof fn law_recovery_tells_what_it_found(replies: Seq<RecoveryReply>)
    ensures
        ({
            let watch = recovery_watched(replies);
            let stage = watch.stage;
            let early = stage is Shelf || stage is Reclaim;
            &&& watch.action is RecoverReclaim <==> stage is Reclaim
            &&& watch.action is ClearIntent <==> stage is IntentCleared
            &&& watch.action is RecoverInstalls <==> stage is Installs
            &&& watch.action is ReadIntent <==> stage is Intent
            &&& stage is Shelf ==> watch.shelf is None
            &&& (stage matches RecoveryStage::Reclaim { shelf } ==> watch.action
                == RecoveryAction::RecoverReclaim { shelf } && watch.shelf == Some(
                if shelf { Shelf::Found } else { Shelf::Absent },
            ))
            &&& early ==> watch.reclaimed is None
            &&& early || stage is Intent || stage is Installs ==> watch.intent is None
                && watch.installs is None && watch.cleared is None
            &&& !(early || stage is Over) ==> watch.reclaimed == Some(true)
            &&& stage is Installs ==> watch.shelf == Some(Shelf::Found)
            &&& stage is Intent || stage is IntentCleared ==> watch.shelf == Some(Shelf::Absent)
            &&& stage is IntentCleared ==> watch.intent == Some(IntentRead::Truncated)
                && watch.installs is None && watch.cleared is None
            &&& !(stage is Over) ==> watch.replaced is None && watch.standing is None
            &&& (stage matches RecoveryStage::Replace { outcome } ==> {
                &&& outcome.complete == installs_settled(watch)
                &&& outcome.had_intent == install_in_flight(watch)
                &&& watch.installs is Some ==> outcome == watch.installs->0
                &&& watch.installs is None ==> !outcome.touched_shelf && !outcome.swept
                &&& watch.action is RecoverReplace <==> outcome.complete
                &&& watch.action is ReadReplace <==> !outcome.complete
                &&& watch.shelf == Some(Shelf::Found) || watch.shelf == Some(Shelf::Absent)
            })
            &&& stage is Over <==> watch.action is Finish
            &&& (watch.action matches RecoveryAction::Finish(found) ==> {
                &&& found.shelf_readable <==> watch.shelf != Some(Shelf::Unreadable)
                &&& found.may_mutate <==> watch.reclaimed == Some(true) && (watch.replaced == Some(
                    ReplaceRecovery::Nothing,
                ) || watch.replaced == Some(ReplaceRecovery::Settled) || watch.standing == Some(
                    ReplaceRead::Absent,
                ))
                &&& watch.reclaimed == Some(true) ==> {
                    &&& found.outcome.complete == installs_settled(watch)
                    &&& found.outcome.had_intent == (install_in_flight(watch) || watch.replaced == Some(
                        ReplaceRecovery::Settled,
                    ))
                    &&& watch.installs is Some ==> found.outcome.touched_shelf
                        == watch.installs->0.touched_shelf && found.outcome.swept
                        == watch.installs->0.swept
                    &&& watch.installs is None ==> !found.outcome.touched_shelf
                        && !found.outcome.swept
                }
                &&& watch.reclaimed != Some(true) ==> !found.outcome.complete
                    && found.outcome.had_intent
            })
        }),
    decreases replies.len(),
{
    if replies.len() > 0 {
        law_recovery_tells_what_it_found(replies.drop_last());
    }
}

/// What a scan has been told.
pub struct ScanWatch {
    pub action: ScanAction,
    pub stage: ScanStage,
    /// How many books were written, once the catalog is committed.
    pub books: Option<u16>,
    /// Some step of it failed.
    pub failed: bool,
    pub swept: bool,
}

/// A scan fed answers in order.
pub open spec fn scan_watched(found: Reconciled, replies: Seq<ScanReply>) -> ScanWatch
    decreases replies.len(),
{
    if replies.len() == 0 {
        let begun = scan_begun(Some(found));
        ScanWatch { action: begun.0, stage: begun.1, books: None, failed: false, swept: false }
    } else {
        let before = scan_watched(found, replies.drop_last());
        let reply = replies.last();
        match scan_next(found, before.stage, reply) {
            Some(next) => ScanWatch {
                action: next.0,
                stage: next.1,
                books: match reply {
                    ScanReply::Written(books) => books,
                    _ => before.books,
                },
                failed: before.failed || reply == ScanReply::Written(None) || (!(before.action
                    is SweepCaches) && reply == ScanReply::Went(false)),
                swept: before.swept || before.action is SweepCaches,
            },
            None => before,
        }
    }
}

/// A scan ends as an error exactly when it may not run or a step of it
/// failed, as empty exactly when the catalog came out empty, and ready
/// otherwise. It is complete exactly when recovery left no install behind.
/// Caches are swept exactly when books were listed and no install is left.
/// Without a session a scan is an error and proves nothing of the shelf.
pub proof fn law_scan_tells_how_it_went(found: Reconciled, replies: Seq<ScanReply>)
    ensures
        ({
            let watch = scan_watched(found, replies);
            let may_run = found.shelf_readable && found.may_mutate;
            &&& watch.stage is Ledger <==> watch.action is OpenLedger
            &&& watch.stage is Written <==> watch.action is WriteCatalog
            &&& watch.stage is ReadBack <==> watch.action is ReadWindow
            &&& watch.stage is Swept <==> watch.action is SweepCaches
            &&& watch.stage is Over <==> watch.action is Finish
            &&& !(watch.stage is Over) ==> may_run && !watch.failed && !watch.swept
            &&& watch.stage is Ledger || watch.stage is Written ==> watch.books is None
            &&& watch.stage is ReadBack || watch.stage is Swept ==> watch.books is Some
                && watch.books->0 > 0
            &&& watch.stage is Swept ==> found.outcome.complete
            &&& (watch.action matches ScanAction::Finish { status, complete } ==> {
                &&& complete == found.outcome.complete
                &&& status == LibraryScanStatus::Error <==> !may_run || watch.failed
                &&& status == LibraryScanStatus::Empty <==> may_run && !watch.failed && watch.books
                    == Some(0u16)
                &&& status == LibraryScanStatus::Ready <==> may_run && !watch.failed && watch.books
                    is Some && watch.books->0 > 0
                &&& watch.swept <==> status == LibraryScanStatus::Ready && found.outcome.complete
            })
        }),
        scan_begun(None).0 == (ScanAction::Finish {
            status: LibraryScanStatus::Error,
            complete: false,
        }),
    decreases replies.len(),
{
    if replies.len() > 0 {
        law_scan_tells_how_it_went(found, replies.drop_last());
    }
}

/// A snapshot serves exactly on a shelf that is readable, that may be written
/// and that nothing has moved since: no install touched it and none was in
/// flight. Of one that may not serve the fault says whether the shelf could
/// not be vouched for or was moved.
pub proof fn law_snapshot_serves_an_unmoved_shelf(found: Reconciled)
    ensures
        snapshot_fault(found) is None <==> found.shelf_readable && found.may_mutate
            && !found.outcome.touched_shelf && !found.outcome.had_intent,
        snapshot_fault(found) == Some(CatalogFault::Unreconciled) <==> !(found.shelf_readable
            && found.may_mutate),
        snapshot_fault(found) is Some ==> snapshot_fault(found)->0 == CatalogFault::Unreconciled
            || snapshot_fault(found)->0 == CatalogFault::Reclaimed,
{
}

/// A load ends with the fault it met: the card's, when there was no session;
/// the window's own, when it did not read; and otherwise what recovery says
/// of the shelf. Only what was read into memory is dropped.
pub proof fn law_load_tells_what_it_met(action: LoadAction, reply: LoadReply)
    ensures
        action is ReadWindow && reply is NoSession ==> load_next(action, reply) == Some(
            LoadAction::Finish { fault: Some(CatalogFault::Device), drop_catalog: false },
        ),
        action is ReadWindow && reply is Window ==> (load_next(action, reply) == Some(
            LoadAction::Reconcile,
        ) <==> reply->Window_0 is None),
        action is ReadWindow && reply is Window && reply->Window_0 is Some ==> load_next(action, reply)
            == Some(LoadAction::Finish { fault: reply->Window_0, drop_catalog: true }),
        action is Reconcile && reply is Found ==> (load_next(action, reply) matches Some(
            LoadAction::Finish { fault, drop_catalog },
        ) && (drop_catalog <==> fault is Some) && fault == snapshot_fault(reply->Found_0)),
{
}

pub open spec fn shown_after_scan(status: LibraryScanStatus, catalog_is_empty: bool) -> LibraryScanStatus {
    if status == LibraryScanStatus::Error && !catalog_is_empty {
        LibraryScanStatus::Ready
    } else {
        status
    }
}

pub open spec fn scan_proved(status: LibraryScanStatus, complete: bool) -> bool {
    status != LibraryScanStatus::Error && complete
}

pub open spec fn shown_after_load(loaded: bool, catalog_is_empty: bool) -> LibraryScanStatus {
    if !loaded {
        LibraryScanStatus::NotScanned
    } else if catalog_is_empty {
        LibraryScanStatus::Empty
    } else {
        LibraryScanStatus::Ready
    }
}

/// A scan that failed is shown as an error only where there are no books to
/// show; what any other says is shown.
pub proof fn law_books_outlive_a_failed_scan(status: LibraryScanStatus, catalog_is_empty: bool)
    ensures
        shown_after_scan(status, catalog_is_empty) is Error <==> status is Error && catalog_is_empty,
        !(status is Error) ==> shown_after_scan(status, catalog_is_empty) == status,
        status is Error && !catalog_is_empty ==> shown_after_scan(status, catalog_is_empty) is Ready,
{
}

/// A scan proves what the shelf holds exactly if it succeeded and no install
/// was left in flight.
pub proof fn law_only_a_complete_scan_proves(status: LibraryScanStatus, complete: bool)
    ensures
        scan_proved(status, complete) ==> complete && !(status is Error),
        complete && !(status is Error) ==> scan_proved(status, complete),
{
}

/// A catalog that was loaded is shown by whether it holds a book, and one that
/// was not as not scanned yet.
pub proof fn law_loaded_catalog_is_shown(loaded: bool, catalog_is_empty: bool)
    ensures
        shown_after_load(loaded, catalog_is_empty) is NotScanned <==> !loaded,
        shown_after_load(loaded, catalog_is_empty) is Empty <==> loaded && catalog_is_empty,
        shown_after_load(loaded, catalog_is_empty) is Ready <==> loaded && !catalog_is_empty,
{
}

} // verus!
