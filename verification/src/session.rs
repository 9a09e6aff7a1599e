//! One session with the card, warm or cold.
use vstd::prelude::*;
use crate::cache_error::SdSessionError;

verus! {

/// Identification runs at this clock, data transfer at the one below.
pub const SD_IDENT_FREQ_KHZ: u32 = 400;

pub const SD_DATA_FREQ_MHZ: u32 = 25;

/// The card types a warm session may assume.
#[derive(Clone, Copy, PartialEq, Eq, Structural, Debug)]
pub enum CardType {
    SD1,
    SD2,
    SdhcSdxc,
}

/// No card is known to be warm.
pub const WARM_CARD_NONE: u8 = 0;

pub open spec fn card_of(code: u8) -> Option<CardType> {
    if code == 1 {
        Some(CardType::SD1)
    } else if code == 2 {
        Some(CardType::SD2)
    } else if code == 3 {
        Some(CardType::SdhcSdxc)
    } else {
        None
    }
}

pub open spec fn code_of(card: CardType) -> u8 {
    match card {
        CardType::SD1 => 1,
        CardType::SD2 => 2,
        CardType::SdhcSdxc => 3,
    }
}

/// The card a code remembers.
pub fn remembered_card_type(code: u8) -> (card: Option<CardType>)
    ensures
        card == card_of(code),
{
    match code {
        1 => Some(CardType::SD1),
        2 => Some(CardType::SD2),
        3 => Some(CardType::SdhcSdxc),
        _ => None,
    }
}

/// Remembers a card that was initialised.
pub fn remember_card_type(code: &mut u8, card: CardType)
    ensures
        *final(code) == code_of(card),
{
    *code = match card {
        CardType::SD1 => 1,
        CardType::SD2 => 2,
        CardType::SdhcSdxc => 3,
    };
}

/// Forgets that a card is warm.
pub fn forget_card_warmth(code: &mut u8)
    ensures
        *final(code) == WARM_CARD_NONE,
{
    *code = WARM_CARD_NONE;
}

/// What is remembered is what is found again, and a forgotten card is none.
pub proof fn law_remembered_card_is_found(card: CardType)
    ensures
        card_of(code_of(card)) == Some(card),
        card_of(WARM_CARD_NONE) is None,
{
}

#[derive(Clone, Copy, PartialEq, Eq, Structural, Debug)]
pub enum SessionAction {
    /// The session is over.
    Finish(Option<SdSessionError>),
    /// Send the wake clocks and take the card as initialised. Answer: `Went`.
    AssumeCard(CardType),
    /// Send the wake clocks and initialise the card. Answer: `Probed`.
    ProbeCard,
    /// Switch to the data clock and open the volume. Answer: `Went`.
    OpenVolume,
    /// Open the root directory. Answer: `Went`.
    OpenRoot,
    /// Do the session's work. Answer: `Went`.
    RunCallback,
    /// Close the volume. Answer: `Went`.
    CloseVolume,
}

#[derive(Clone, Copy, PartialEq, Eq, Structural, Debug)]
pub enum SessionReply {
    Went(bool),
    /// Whether the card answered, and its type if that is known.
    Probed { ok: bool, card: Option<CardType> },
}

#[derive(Clone, Copy, PartialEq, Eq, Structural, Debug)]
pub enum SessionStage {
    Over,
    Assumed,
    Probed,
    Volume,
    Root,
    Callback,
    /// The volume is being closed; `ran` says that the work was done.
    Closing { ran: bool },
}

/// A session: the warm code, and whether this attempt assumes a warm card.
#[derive(Clone, Copy, PartialEq, Eq, Structural, Debug)]
pub struct SdSession {
    pub warm_code: u8,
    pub warm: bool,
}

#[derive(Clone, Copy, PartialEq, Eq, Structural, Debug)]
pub struct SessionStep {
    pub action: SessionAction,
    pub stage: SessionStage,
}

pub open spec fn session_step(action: SessionAction, stage: SessionStage) -> SessionStep {
    SessionStep { action, stage }
}

/// An attempt failed before the work began. A warm one is made again cold,
/// with nothing assumed; a cold one is the session's failure.
pub open spec fn attempt_failed(session: SdSession, error: SdSessionError) -> (SdSession, SessionStep) {
    if session.warm {
        (
            SdSession { warm_code: WARM_CARD_NONE, warm: false },
            session_step(SessionAction::ProbeCard, SessionStage::Probed),
        )
    } else {
        (session, session_step(SessionAction::Finish(Some(error)), SessionStage::Over))
    }
}

pub open spec fn session_next(session: SdSession, stage: SessionStage, reply: SessionReply) -> Option<(SdSession, SessionStep)> {
    match (stage, reply) {
        (SessionStage::Assumed, SessionReply::Went(_)) => Some(
            (session, session_step(SessionAction::OpenVolume, SessionStage::Volume)),
        ),
        (SessionStage::Probed, SessionReply::Probed { ok, card }) => Some(
            if !ok {
                attempt_failed(session, SdSessionError::CardInit)
            } else {
                (
                    match card {
                        Some(card) => SdSession { warm_code: code_of(card), ..session },
                        None => session,
                    },
                    session_step(SessionAction::OpenVolume, SessionStage::Volume),
                )
            },
        ),
        (SessionStage::Volume, SessionReply::Went(opened)) => Some(
            if opened {
                (session, session_step(SessionAction::OpenRoot, SessionStage::Root))
            } else {
                attempt_failed(session, SdSessionError::Volume)
            },
        ),
        (SessionStage::Root, SessionReply::Went(opened)) => Some(
            (
                session,
                if opened {
                    session_step(SessionAction::RunCallback, SessionStage::Callback)
                } else {
                    session_step(SessionAction::CloseVolume, SessionStage::Closing { ran: false })
                },
            ),
        ),
        (SessionStage::Callback, SessionReply::Went(_)) => Some(
            (
                session,
                session_step(SessionAction::CloseVolume, SessionStage::Closing { ran: true }),
            ),
        ),
        (SessionStage::Closing { ran }, SessionReply::Went(_)) => Some(
            if ran {
                (session, session_step(SessionAction::Finish(None), SessionStage::Over))
            } else {
                attempt_failed(session, SdSessionError::Root)
            },
        ),
        _ => None,
    }
}

fn step(action: SessionAction, stage: SessionStage) -> (step: SessionStep)
    ensures
        step == session_step(action, stage),
{
    SessionStep { action, stage }
}

impl SdSession {
    /// Begins a session. A card that is known to be warm is taken as it is;
    /// any other is initialised.
    pub fn with_root(warm_code: u8) -> (begun: (SdSession, SessionStep))
        ensures
            begun == session_begun(warm_code),
            begun.0 == (SdSession { warm_code, warm: card_of(warm_code) is Some }),
            begun.1 == match card_of(warm_code) {
                Some(card) => session_step(SessionAction::AssumeCard(card), SessionStage::Assumed),
                None => session_step(SessionAction::ProbeCard, SessionStage::Probed),
            },
    {
        match remembered_card_type(warm_code) {
            Some(card) => (
                SdSession { warm_code, warm: true },
                step(SessionAction::AssumeCard(card), SessionStage::Assumed),
            ),
            None => (
                SdSession { warm_code, warm: false },
                step(SessionAction::ProbeCard, SessionStage::Probed),
            ),
        }
    }

    fn attempt_failed(&mut self, error: SdSessionError) -> (next: SessionStep)
        ensures
            (*final(self), next) == attempt_failed(*old(self), error),
    {
        if self.warm {
            forget_card_warmth(&mut self.warm_code);
            self.warm = false;
            step(SessionAction::ProbeCard, SessionStage::Probed)
        } else {
            step(SessionAction::Finish(Some(error)), SessionStage::Over)
        }
    }

    /// What the answer to the last action does. `None`, with nothing changed,
    /// when the stage is not waiting for that kind of answer.
    pub fn advance(&mut self, stage: SessionStage, reply: SessionReply) -> (next: Option<SessionStep>)
        ensures
            match session_next(*old(self), stage, reply) {
                Some(then) => next == Some(then.1) && *final(self) == then.0,
                None => next is None && *final(self) == *old(self),
            },
    {
        match (stage, reply) {
            (SessionStage::Assumed, SessionReply::Went(_)) => Some(
                step(SessionAction::OpenVolume, SessionStage::Volume),
            ),
            (SessionStage::Probed, SessionReply::Probed { ok, card }) => {
                if !ok {
                    return Some(self.attempt_failed(SdSessionError::CardInit));
                }
                if let Some(card) = card {
                    remember_card_type(&mut self.warm_code, card);
                }
                Some(step(SessionAction::OpenVolume, SessionStage::Volume))
            },
            (SessionStage::Volume, SessionReply::Went(opened)) => {
                if opened {
                    Some(step(SessionAction::OpenRoot, SessionStage::Root))
                } else {
                    Some(self.attempt_failed(SdSessionError::Volume))
                }
            },
            (SessionStage::Root, SessionReply::Went(opened)) => Some(
                if opened {
                    step(SessionAction::RunCallback, SessionStage::Callback)
                } else {
                    step(SessionAction::CloseVolume, SessionStage::Closing { ran: false })
                },
            ),
            (SessionStage::Callback, SessionReply::Went(_)) => Some(
                step(SessionAction::CloseVolume, SessionStage::Closing { ran: true }),
            ),
            (SessionStage::Closing { ran }, SessionReply::Went(_)) => {
                if ran {
                    Some(step(SessionAction::Finish(None), SessionStage::Over))
                } else {
                    Some(self.attempt_failed(SdSessionError::Root))
                }
            },
            _ => None,
        }
    }
}

/// Whether the session's work may still run.
pub open spec fn before_work(stage: SessionStage) -> bool {
    stage is Assumed || stage is Probed || stage is Volume || stage is Root || stage
        == (SessionStage::Closing { ran: false })
}

/// The work runs at most once, a wrong guess about a warm card never fails a
/// session, and a session that fails has assumed nothing.
pub proof fn law_warm_guess_never_fails_a_session(session: SdSession, stage: SessionStage, reply: SessionReply)
    ensures
        session_next(session, stage, reply) matches Some(next) ==> {
            &&& next.1.action matches SessionAction::Finish(Some(_)) ==> !session.warm
            &&& next.1.action is RunCallback ==> stage is Root && reply == SessionReply::Went(true)
            &&& !before_work(stage) ==> !before_work(next.1.stage)
            &&& before_work(stage) && !before_work(next.1.stage) ==> next.1.action is RunCallback
                || next.1.action is Finish
        },
{
}

/// A failed warm attempt is followed by one cold one, with nothing remembered
/// of the card, and a failed cold one by none.
pub proof fn law_one_cold_retry(session: SdSession, error: SdSessionError)
    ensures
        session.warm ==> !attempt_failed(session, error).0.warm && card_of(
            attempt_failed(session, error).0.warm_code,
        ) is None,
        !session.warm ==> attempt_failed(session, error).1.action is Finish,
{
}

/// Counts of block transactions.
#[derive(Clone, Copy, PartialEq, Eq, Structural, Debug)]
pub struct Snapshot {
    pub read_calls: u32,
    pub read_blocks: u32,
    pub write_calls: u32,
    pub write_blocks: u32,
}

pub open spec fn wrapped(value: int) -> u32 {
    (value % 0x1_0000_0000) as u32
}

/// The counters as they stand.
pub fn snapshot(read_calls: u32, read_blocks: u32, write_calls: u32, write_blocks: u32) -> (taken: Snapshot)
    ensures
        taken == (Snapshot { read_calls, read_blocks, write_calls, write_blocks }),
{
    Snapshot { read_calls, read_blocks, write_calls, write_blocks }
}

impl Snapshot {
    /// What was counted since `start`, over a wrap of the counters too.
    pub fn since(self, start: Snapshot) -> (counted: Snapshot)
        ensures
            counted == counted_since(self, start),
            counted == (Snapshot {
                read_calls: wrapped(self.read_calls - start.read_calls),
                read_blocks: wrapped(self.read_blocks - start.read_blocks),
                write_calls: wrapped(self.write_calls - start.write_calls),
                write_blocks: wrapped(self.write_blocks - start.write_blocks),
            }),
    {
        Snapshot {
            read_calls: self.read_calls.wrapping_sub(start.read_calls),
            read_blocks: self.read_blocks.wrapping_sub(start.read_blocks),
            write_calls: self.write_calls.wrapping_sub(start.write_calls),
            write_blocks: self.write_blocks.wrapping_sub(start.write_blocks),
        }
    }
}

/// Counts `amount` more.
pub fn bump(counter: &mut u32, amount: u32)
    ensures
        *final(counter) == wrapped(*old(counter) + amount),
{
    *counter = counter.wrapping_add(amount);
}

/// What was counted between two snapshots is what was added, even where the
/// counter wrapped in between.
pub proof fn law_counted_is_what_was_added(start: u32, amount: u32)
    ensures
        wrapped(wrapped(start + amount) - start) == amount,
{
}

/// The fixed time stamp of files on a device without a clock.
#[derive(Clone, Copy, PartialEq, Eq, Structural, Debug)]
pub struct CardTimestamp {
    pub year_since_1970: u8,
    pub zero_indexed_month: u8,
    pub zero_indexed_day: u8,
    pub hours: u8,
    pub minutes: u8,
    pub seconds: u8,
}

/// The stamp every file gets.
pub fn get_timestamp() -> (stamp: CardTimestamp)
    ensures
        stamp == (CardTimestamp {
            year_since_1970: 56,
            zero_indexed_month: 4,
            zero_indexed_day: 19,
            hours: 0,
            minutes: 0,
            seconds: 0,
        }),
{
    CardTimestamp {
        year_since_1970: 56,
        zero_indexed_month: 4,
        zero_indexed_day: 19,
        hours: 0,
        minutes: 0,
        seconds: 0,
    }
}

/// What a session has been told.
pub struct SessionWatch {
    pub session: SdSession,
    pub action: SessionAction,
    pub stage: SessionStage,
    /// How often the work was asked for, and how often the card was
    /// initialised.
    pub works: nat,
    pub probes: nat,
    pub volume_open: bool,
    /// The card type the last probe that answered gave.
    pub card: Option<CardType>,
    /// Why the last attempt failed.
    pub failure: Option<SdSessionError>,
}

/// A session begun with this code, fed answers in order.
pub open spec fn session_watched(warm_code: u8, replies: Seq<SessionReply>) -> SessionWatch
    decreases replies.len(),
{
    if replies.len() == 0 {
        SessionWatch {
            session: SdSession { warm_code, warm: card_of(warm_code) is Some },
            action: match card_of(warm_code) {
                Some(card) => SessionAction::AssumeCard(card),
                None => SessionAction::ProbeCard,
            },
            stage: if card_of(warm_code) is Some {
                SessionStage::Assumed
            } else {
                SessionStage::Probed
            },
            works: 0,
            probes: 0,
            volume_open: false,
            card: None,
            failure: None,
        }
    } else {
        let before = session_watched(warm_code, replies.drop_last());
        let reply = replies.last();
        let went = reply == SessionReply::Went(true);
        match session_next(before.session, before.stage, reply) {
            Some(next) => SessionWatch {
                session: next.0,
                action: next.1.action,
                stage: next.1.stage,
                works: before.works + if before.action is RunCallback { 1nat } else { 0 },
                probes: before.probes + if before.action is ProbeCard { 1nat } else { 0 },
                volume_open: if before.action is OpenVolume {
                    went
                } else if before.action is CloseVolume {
                    false
                } else {
                    before.volume_open
                },
                card: match reply {
                    SessionReply::Probed { ok: true, card } => card,
                    _ => before.card,
                },
                failure: if before.action is ProbeCard {
                    match reply {
                        SessionReply::Probed { ok: false, .. } => Some(SdSessionError::CardInit),
                        _ => None,
                    }
                } else if before.action is OpenVolume && !went {
                    Some(SdSessionError::Volume)
                } else if before.action is OpenRoot && !went {
                    Some(SdSessionError::Root)
                } else {
                    before.failure
                },
            },
            None => before,
        }
    }
}

/// A session that ends well did its work once, and one that does not did none
/// and says what failed last, on a card that was initialised for it. A volume
/// that was opened is closed before the session ends, and while the work runs
/// it is open. A card that answered is remembered by its type, and one whose
/// warm attempt failed is not remembered by an older one.
pub proof fn law_session_does_its_work_once(warm_code: u8, replies: Seq<SessionReply>)
    ensures
        ({
            let watch = session_watched(warm_code, replies);
            let stage = watch.stage;
            &&& stage is Assumed <==> watch.action is AssumeCard
            &&& stage is Probed <==> watch.action is ProbeCard
            &&& stage is Volume <==> watch.action is OpenVolume
            &&& stage is Root <==> watch.action is OpenRoot
            &&& stage is Callback <==> watch.action is RunCallback
            &&& stage is Closing <==> watch.action is CloseVolume
            &&& stage is Over <==> watch.action is Finish
            &&& watch.probes <= 1
            &&& watch.probes == 0 ==> watch.card is None
            &&& watch.session.warm ==> watch.probes == 0 && card_of(warm_code) is Some
                && watch.session.warm_code == warm_code && !(stage is Probed)
            &&& stage is Assumed ==> watch.session.warm
            &&& stage is Probed ==> watch.probes == 0
            &&& !watch.session.warm && !(stage is Probed) ==> watch.probes == 1
            &&& stage is Assumed || stage is Probed || stage is Volume || stage is Root
                || stage is Callback ==> watch.works == 0
            &&& stage is Volume || stage is Assumed || stage is Probed ==> !watch.volume_open
            &&& stage is Root || stage is Callback || stage is Closing ==> watch.volume_open
            &&& (stage matches SessionStage::Closing { ran } ==> watch.works == if ran { 1nat } else { 0 })
            &&& stage == (SessionStage::Closing { ran: false }) ==> watch.failure == Some(
                SdSessionError::Root,
            )
            &&& watch.probes == 1 && watch.card is Some && !(stage is Over && watch.action->Finish_0
                == Some(SdSessionError::CardInit)) ==> card_of(watch.session.warm_code) == watch.card
            &&& watch.probes == 1 && watch.card is None ==> card_of(watch.session.warm_code) is None
            &&& stage is Probed ==> watch.card is None && card_of(watch.session.warm_code) is None
            &&& (watch.action matches SessionAction::Finish(failure) ==> {
                &&& !watch.volume_open
                &&& failure is None <==> watch.works == 1
                &&& failure is Some ==> watch.works == 0 && failure == watch.failure && watch.probes
                    == 1
            })
        }),
    decreases replies.len(),
{
    if replies.len() > 0 {
        law_session_does_its_work_once(warm_code, replies.drop_last());
    }
}

/// The codes of two cards differ, and every code either stands for a card
/// that has it or for none.
pub proof fn law_codes_stand_for_cards(code: u8, card: CardType)
    ensures
        card_of(code) == Some(card) <==> code_of(card) == code,
{
}

pub open spec fn session_begun(warm_code: u8) -> (SdSession, SessionStep) {
    (
        SdSession { warm_code, warm: card_of(warm_code) is Some },
        match card_of(warm_code) {
            Some(card) => session_step(SessionAction::AssumeCard(card), SessionStage::Assumed),
            None => session_step(SessionAction::ProbeCard, SessionStage::Probed),
        },
    )
}

pub open spec fn counted_since(now: Snapshot, start: Snapshot) -> Snapshot {
    Snapshot {
        read_calls: wrapped(now.read_calls - start.read_calls),
        read_blocks: wrapped(now.read_blocks - start.read_blocks),
        write_calls: wrapped(now.write_calls - start.write_calls),
        write_blocks: wrapped(now.write_blocks - start.write_blocks),
    }
}

/// A remembered card is assumed to be what it was, under the session that
/// knows it did so, and a forgotten one is asked.
pub proof fn law_remembered_card_is_assumed(card: CardType, warm_code: u8)
    ensures
        session_begun(code_of(card)).1.action == SessionAction::AssumeCard(card),
        session_begun(code_of(card)).0.warm,
        session_begun(WARM_CARD_NONE).1.action is ProbeCard,
        !session_begun(WARM_CARD_NONE).0.warm,
        session_begun(warm_code).0.warm <==> session_begun(warm_code).1.action is AssumeCard,
        session_begun(warm_code).0.warm_code == warm_code,
{
}

/// What was counted in between is each counter's growth, one by one.
pub proof fn law_growth_is_counted(now: Snapshot, start: Snapshot)
    requires
        now.read_calls >= start.read_calls,
        now.read_blocks >= start.read_blocks,
        now.write_calls >= start.write_calls,
        now.write_blocks >= start.write_blocks,
    ensures
        start.read_calls + counted_since(now, start).read_calls == now.read_calls,
        start.read_blocks + counted_since(now, start).read_blocks == now.read_blocks,
        start.write_calls + counted_since(now, start).write_calls == now.write_calls,
        start.write_blocks + counted_since(now, start).write_blocks == now.write_blocks,
{
}

} // verus!
