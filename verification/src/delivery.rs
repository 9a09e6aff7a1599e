//! Getting events to the app without losing one that it waits on.
//!
//! The channels are bounded and shared with another task, so each send is
//! tried outside and its answer handed back. An event that settles something
//! is never spent for another: room is made only at the cost of a refresh,
//! and when there is none the event is held until there is.
use vstd::multiset::Multiset;
use vstd::prelude::*;
use crate::messages::LibraryEvent;

verus! {

/// What the app is told of the panel.
#[derive(Clone, Copy, PartialEq, Eq, Debug)]
pub enum DisplayEvent {
    Settled { chapter_cursor: Option<ChapterCursor> },
    Asleep,
    SleepFailed,
    RefreshFailed,
    Library(LibraryEvent),
}

/// The true chapter of the page a frame shows.
#[derive(Clone, Copy, PartialEq, Eq, Structural, Debug)]
pub struct ChapterCursor {
    pub book_id: u32,
    pub page: u32,
    pub current_chapter: u16,
}

/// Whether the queue's head may be spent for a newcomer.
#[derive(Clone, Copy, PartialEq, Eq, Structural, Debug)]
pub enum EvictionStep {
    Discard,
    Requeue,
}

/// What the one-slot holder made of an event.
#[derive(Clone, Copy, PartialEq, Eq, Structural, Debug)]
pub enum HoldOutcome {
    Held,
    /// The event settles nothing and does not belong in the holder.
    NotSettling,
    Occupied,
}

/// What to do with the channels next.
#[derive(Clone, Copy, PartialEq, Eq, Debug)]
pub enum DeliveryAction {
    /// The event is on its way, or is accounted for.
    Delivered,
    /// The event could not be kept.
    Dropped,
    /// Try the display channel. Answer: `Sent`.
    TrySendDisplay(LibraryEvent),
    /// Try the library channel. Answer: `Sent`.
    TrySend(LibraryEvent),
    /// Begin a walk over the library channel, for as many events as it has
    /// slots. Answer: `Begun`.
    BeginWalk,
    /// Ask whether the walk over the queue is over. Answer: `Exhausted`.
    AskExhausted,
    /// Take the queue's head. Answer: `Head`.
    TryReceive,
    /// Ask whether the head may be spent. Answer: `Verdict`.
    Inspect(LibraryEvent),
    /// Put the head back at the tail. Answer: `Sent`.
    PutBack(LibraryEvent),
    /// Offer the event to the holder. Answer: `Hold`.
    Hold(LibraryEvent),
}

#[derive(Clone, Copy, PartialEq, Eq, Debug)]
pub enum DeliveryReply {
    Sent(bool),
    Begun,
    Exhausted(bool),
    Head(Option<LibraryEvent>),
    Verdict(EvictionStep),
    Hold(HoldOutcome),
}

/// Where a delivery stands.
#[derive(Clone, Copy, PartialEq, Eq, Debug)]
pub enum DeliveryStage {
    Over,
    /// Down the display channel first.
    Display { must_be_delivered: bool },
    /// One try, and a full channel is the end of it.
    Lossy,
    /// The first try of an event that may not be lost.
    Required,
    WalkBegun,
    Walking,
    Taking,
    Judging { head: LibraryEvent },
    /// The head was spent; its slot is this event's.
    Replacing,
    PuttingBack,
    Holding,
    /// The holder refused; one last try for a slot that may have freed.
    LastTry,
}

#[derive(Clone, Copy, PartialEq, Eq, Debug)]
pub struct DeliveryStep {
    pub action: DeliveryAction,
    pub stage: DeliveryStage,
}

pub open spec fn deliver(action: DeliveryAction, stage: DeliveryStage) -> DeliveryStep {
    DeliveryStep { action, stage }
}

pub open spec fn delivery_over(action: DeliveryAction) -> DeliveryStep {
    DeliveryStep { action, stage: DeliveryStage::Over }
}

/// The first step by the rule the event itself carries.
pub open spec fn library_send(event: LibraryEvent, must_be_delivered: bool) -> DeliveryStep {
    deliver(
        DeliveryAction::TrySend(event),
        if must_be_delivered { DeliveryStage::Required } else { DeliveryStage::Lossy },
    )
}

/// Sends an event by the rule it carries: one that settles something takes
/// the path that never drops it.
pub fn send_library_event(event: LibraryEvent, must_be_delivered: bool) -> (step: DeliveryStep)
    ensures
        step == library_send(event, must_be_delivered),
{
    if must_be_delivered {
        send_required_library_event(event)
    } else {
        DeliveryStep { action: DeliveryAction::TrySend(event), stage: DeliveryStage::Lossy }
    }
}

/// Queues an event the app is waiting on.
pub fn send_required_library_event(event: LibraryEvent) -> (step: DeliveryStep)
    ensures
        step == library_send(event, true),
{
    DeliveryStep { action: DeliveryAction::TrySend(event), stage: DeliveryStage::Required }
}

/// Sends a library event down the display channel, falling back to its own
/// channel when that one is full.
pub fn send_loaded_library_event(event: LibraryEvent, must_be_delivered: bool) -> (step: DeliveryStep)
    ensures
        step == deliver(
            DeliveryAction::TrySendDisplay(event),
            DeliveryStage::Display { must_be_delivered },
        ),
{
    DeliveryStep {
        action: DeliveryAction::TrySendDisplay(event),
        stage: DeliveryStage::Display { must_be_delivered },
    }
}

/// What an answer does to the delivery of `event`. `None` when the stage is
/// not waiting for that kind of answer.
pub open spec fn delivery_next(event: LibraryEvent, stage: DeliveryStage, reply: DeliveryReply) -> Option<DeliveryStep> {
    match (stage, reply) {
        (DeliveryStage::Display { must_be_delivered }, DeliveryReply::Sent(sent)) => Some(
            if sent {
                delivery_over(DeliveryAction::Delivered)
            } else {
                library_send(event, must_be_delivered)
            },
        ),
        (DeliveryStage::Lossy, DeliveryReply::Sent(sent)) => Some(
            delivery_over(if sent { DeliveryAction::Delivered } else { DeliveryAction::Dropped }),
        ),
        (DeliveryStage::Required, DeliveryReply::Sent(sent)) => Some(
            if sent {
                delivery_over(DeliveryAction::Delivered)
            } else {
                deliver(DeliveryAction::BeginWalk, DeliveryStage::WalkBegun)
            },
        ),
        (DeliveryStage::WalkBegun, DeliveryReply::Begun) => Some(
            deliver(DeliveryAction::AskExhausted, DeliveryStage::Walking),
        ),
        (DeliveryStage::Walking, DeliveryReply::Exhausted(exhausted)) => Some(
            if exhausted {
                deliver(DeliveryAction::Hold(event), DeliveryStage::Holding)
            } else {
                deliver(DeliveryAction::TryReceive, DeliveryStage::Taking)
            },
        ),
        (DeliveryStage::Taking, DeliveryReply::Head(head)) => Some(
            match head {
                Some(head) => deliver(DeliveryAction::Inspect(head), DeliveryStage::Judging { head }),
                None => deliver(DeliveryAction::Hold(event), DeliveryStage::Holding),
            },
        ),
        (DeliveryStage::Judging { head }, DeliveryReply::Verdict(verdict)) => Some(
            match verdict {
                EvictionStep::Discard => deliver(
                    DeliveryAction::TrySend(event),
                    DeliveryStage::Replacing,
                ),
                EvictionStep::Requeue => deliver(
                    DeliveryAction::PutBack(head),
                    DeliveryStage::PuttingBack,
                ),
            },
        ),
        (DeliveryStage::Replacing, DeliveryReply::Sent(sent)) => Some(
            if sent {
                delivery_over(DeliveryAction::Delivered)
            } else {
                deliver(DeliveryAction::Hold(event), DeliveryStage::Holding)
            },
        ),
        (DeliveryStage::PuttingBack, DeliveryReply::Sent(_)) => Some(
            deliver(DeliveryAction::AskExhausted, DeliveryStage::Walking),
        ),
        (DeliveryStage::Holding, DeliveryReply::Hold(outcome)) => Some(
            if outcome == HoldOutcome::Held {
                delivery_over(DeliveryAction::Delivered)
            } else {
                deliver(DeliveryAction::TrySend(event), DeliveryStage::LastTry)
            },
        ),
        (DeliveryStage::LastTry, DeliveryReply::Sent(sent)) => Some(
            delivery_over(if sent { DeliveryAction::Delivered } else { DeliveryAction::Dropped }),
        ),
        _ => None,
    }
}

/// Carries a delivery on after an answer.
pub fn continue_delivery(event: LibraryEvent, stage: DeliveryStage, reply: DeliveryReply) -> (step: Option<DeliveryStep>)
    ensures
        step == delivery_next(event, stage, reply),
{
    let next = match (stage, reply) {
        (DeliveryStage::Display { must_be_delivered }, DeliveryReply::Sent(sent)) => {
            if sent {
                over(DeliveryAction::Delivered)
            } else {
                send_library_event(event, must_be_delivered)
            }
        },
        (DeliveryStage::Lossy, DeliveryReply::Sent(sent))
        | (DeliveryStage::LastTry, DeliveryReply::Sent(sent)) => {
            if sent {
                over(DeliveryAction::Delivered)
            } else {
                over(DeliveryAction::Dropped)
            }
        },
        (DeliveryStage::Required, DeliveryReply::Sent(sent)) => {
            if sent {
                over(DeliveryAction::Delivered)
            } else {
                DeliveryStep { action: DeliveryAction::BeginWalk, stage: DeliveryStage::WalkBegun }
            }
        },
        (DeliveryStage::WalkBegun, DeliveryReply::Begun) => DeliveryStep {
            action: DeliveryAction::AskExhausted,
            stage: DeliveryStage::Walking,
        },
        (DeliveryStage::Walking, DeliveryReply::Exhausted(exhausted)) => {
            if exhausted {
                hold_library_event(event)
            } else {
                DeliveryStep { action: DeliveryAction::TryReceive, stage: DeliveryStage::Taking }
            }
        },
        (DeliveryStage::Taking, DeliveryReply::Head(head)) => match head {
            Some(head) => DeliveryStep {
                action: DeliveryAction::Inspect(head),
                stage: DeliveryStage::Judging { head },
            },
            None => hold_library_event(event),
        },
        (DeliveryStage::Judging { head }, DeliveryReply::Verdict(verdict)) => match verdict {
            EvictionStep::Discard => DeliveryStep {
                action: DeliveryAction::TrySend(event),
                stage: DeliveryStage::Replacing,
            },
            EvictionStep::Requeue => DeliveryStep {
                action: DeliveryAction::PutBack(head),
                stage: DeliveryStage::PuttingBack,
            },
        },
        (DeliveryStage::Replacing, DeliveryReply::Sent(sent)) => {
            if sent {
                over(DeliveryAction::Delivered)
            } else {
                hold_library_event(event)
            }
        },
        (DeliveryStage::PuttingBack, DeliveryReply::Sent(_)) => DeliveryStep {
            action: DeliveryAction::AskExhausted,
            stage: DeliveryStage::Walking,
        },
        (DeliveryStage::Holding, DeliveryReply::Hold(outcome)) => match outcome {
            HoldOutcome::Held => over(DeliveryAction::Delivered),
            HoldOutcome::NotSettling | HoldOutcome::Occupied => DeliveryStep {
                action: DeliveryAction::TrySend(event),
                stage: DeliveryStage::LastTry,
            },
        },
        _ => return None,
    };
    Some(next)
}

fn over(action: DeliveryAction) -> (step: DeliveryStep)
    ensures
        step == delivery_over(action),
{
    DeliveryStep { action, stage: DeliveryStage::Over }
}

/// Keeps an event until the channel has room.
pub fn hold_library_event(event: LibraryEvent) -> (step: DeliveryStep)
    ensures
        step == deliver(DeliveryAction::Hold(event), DeliveryStage::Holding),
{
    DeliveryStep { action: DeliveryAction::Hold(event), stage: DeliveryStage::Holding }
}

/// What to do with a display event next.
#[derive(Clone, Copy, PartialEq, Eq, Structural, Debug)]
pub enum AckAction {
    Delivered,
    Dropped,
    /// Try the display channel.
    TrySend,
    /// Offer the acknowledgement to its holder.
    Hold,
}

#[derive(Clone, Copy, PartialEq, Eq, Structural, Debug)]
pub enum AckStage {
    /// The first try.
    First { must_be_delivered: bool },
    /// The holder's answer.
    Holding,
    /// The holder refused; one last try.
    LastTry,
}

/// What the channel or the holder said of a display event.
#[derive(Clone, Copy, PartialEq, Eq, Structural, Debug)]
pub enum AckReply {
    Sent(bool),
    Hold(HoldOutcome),
}

/// What follows the answer at `stage`, and the stage it leads to.
pub open spec fn ack_next(stage: AckStage, reply: AckReply) -> Option<(AckAction, Option<AckStage>)> {
    match (stage, reply) {
        (AckStage::First { must_be_delivered }, AckReply::Sent(sent)) => Some(
            if sent {
                (AckAction::Delivered, None)
            } else if must_be_delivered {
                (AckAction::Hold, Some(AckStage::Holding))
            } else {
                (AckAction::Dropped, None)
            },
        ),
        (AckStage::Holding, AckReply::Hold(outcome)) => Some(
            if outcome == HoldOutcome::Held {
                (AckAction::Delivered, None)
            } else {
                (AckAction::TrySend, Some(AckStage::LastTry))
            },
        ),
        (AckStage::LastTry, AckReply::Sent(sent)) => Some(
            (if sent { AckAction::Delivered } else { AckAction::Dropped }, None),
        ),
        _ => None,
    }
}

/// Sends a display event by the rule it carries. The queue is never walked
/// for it: reordering acknowledgements costs more than waiting for room.
pub fn send_display_event(must_be_delivered: bool) -> (first: (AckAction, AckStage))
    ensures
        first == (AckAction::TrySend, AckStage::First { must_be_delivered }),
{
    (AckAction::TrySend, AckStage::First { must_be_delivered })
}

/// Carries a display event on after an answer.
pub fn continue_display_event(stage: AckStage, reply: AckReply) -> (next: Option<(AckAction, Option<AckStage>)>)
    ensures
        next == ack_next(stage, reply),
{
    match (stage, reply) {
        (AckStage::First { must_be_delivered }, AckReply::Sent(sent)) => {
            if sent {
                Some((AckAction::Delivered, None))
            } else if must_be_delivered {
                Some((AckAction::Hold, Some(AckStage::Holding)))
            } else {
                Some((AckAction::Dropped, None))
            }
        },
        (AckStage::Holding, AckReply::Hold(outcome)) => match outcome {
            HoldOutcome::Held => Some((AckAction::Delivered, None)),
            HoldOutcome::NotSettling | HoldOutcome::Occupied => Some(
                (AckAction::TrySend, Some(AckStage::LastTry)),
            ),
        },
        (AckStage::LastTry, AckReply::Sent(sent)) => {
            if sent {
                Some((AckAction::Delivered, None))
            } else {
                Some((AckAction::Dropped, None))
            }
        },
        _ => None,
    }
}

/// An event that must be delivered is given up only after every other way was
/// tried: the holder refused it and a last try found no room.
pub proof fn law_required_event_is_dropped_last(event: LibraryEvent, stage: DeliveryStage, reply: DeliveryReply)
    ensures
        delivery_next(event, stage, reply) matches Some(step) ==> (step.action is Dropped ==> (stage
            is Lossy || stage is LastTry) && reply == DeliveryReply::Sent(false)),
        delivery_next(event, stage, reply) matches Some(step) ==> (step.stage is LastTry ==> stage
            is Holding && reply is Hold && reply != DeliveryReply::Hold(HoldOutcome::Held)),
        delivery_next(event, stage, reply) matches Some(step) ==> (step.stage is Lossy ==> stage
            == DeliveryStage::Display { must_be_delivered: false }),
{
}

/// The library channel beside a delivery: its bound, what it holds in order,
/// and what the delivery does next.
pub struct Channel {
    pub slots: nat,
    pub queued: Seq<LibraryEvent>,
    pub action: DeliveryAction,
    pub stage: DeliveryStage,
}

/// The event that is out of the queue and in the delivery's hands.
pub open spec fn in_hand(action: DeliveryAction) -> Multiset<LibraryEvent> {
    match action {
        DeliveryAction::Inspect(head) => Multiset::singleton(head),
        DeliveryAction::PutBack(head) => Multiset::singleton(head),
        _ => Multiset::empty(),
    }
}

/// A bounded queue that nobody else writes: whether it gives `reply` to the
/// pending action, and what it holds then.
pub open spec fn channel_gives(channel: Channel, reply: DeliveryReply) -> Option<Seq<LibraryEvent>> {
    let queued = channel.queued;
    match (channel.action, reply) {
        (DeliveryAction::TrySend(event), DeliveryReply::Sent(sent)) => if sent == (queued.len()
            < channel.slots) {
            Some(if sent { queued.push(event) } else { queued })
        } else {
            None
        },
        (DeliveryAction::PutBack(event), DeliveryReply::Sent(sent)) => if sent == (queued.len()
            < channel.slots) {
            Some(if sent { queued.push(event) } else { queued })
        } else {
            None
        },
        (DeliveryAction::TryReceive, DeliveryReply::Head(head)) => match head {
            Some(head) => if queued.len() > 0 && queued[0] == head {
                Some(queued.drop_first())
            } else {
                None
            },
            None => if queued.len() == 0 { Some(queued) } else { None },
        },
        (DeliveryAction::BeginWalk, DeliveryReply::Begun) => Some(queued),
        (DeliveryAction::AskExhausted, DeliveryReply::Exhausted(_)) => Some(queued),
        (DeliveryAction::Inspect(_), DeliveryReply::Verdict(_)) => Some(queued),
        (DeliveryAction::Hold(_), DeliveryReply::Hold(_)) => Some(queued),
        (DeliveryAction::TrySendDisplay(_), DeliveryReply::Sent(_)) => Some(queued),
        _ => None,
    }
}

/// The bound holds, the stage belongs to the action, and a head in hand has
/// left its slot free.
pub open spec fn channel_wf(event: LibraryEvent, channel: Channel) -> bool {
    &&& channel.queued.len() <= channel.slots
    &&& in_hand(channel.action).len() > 0 ==> channel.queued.len() < channel.slots
    &&& match channel.stage {
        DeliveryStage::Over => channel.action is Delivered || channel.action is Dropped,
        DeliveryStage::Display { .. } => channel.action == DeliveryAction::TrySendDisplay(event),
        DeliveryStage::Lossy => channel.action == DeliveryAction::TrySend(event),
        DeliveryStage::Required => channel.action == DeliveryAction::TrySend(event),
        DeliveryStage::WalkBegun => channel.action is BeginWalk,
        DeliveryStage::Walking => channel.action is AskExhausted,
        DeliveryStage::Taking => channel.action is TryReceive,
        DeliveryStage::Judging { head } => channel.action == DeliveryAction::Inspect(head),
        DeliveryStage::Replacing => channel.action == DeliveryAction::TrySend(event),
        DeliveryStage::PuttingBack => channel.action is PutBack,
        DeliveryStage::Holding => channel.action == DeliveryAction::Hold(event),
        DeliveryStage::LastTry => channel.action == DeliveryAction::TrySend(event),
    }
}

/// Nothing is lost on the way: one step of a delivery leaves queued or in
/// hand exactly what was there, plus the event itself once it is sent, less
/// a head the walk allowed to be spent. In particular a head that is put
/// back always finds room.
pub proof fn law_delivery_spends_only_what_it_may(event: LibraryEvent, channel: Channel, reply: DeliveryReply)
    requires
        channel_wf(event, channel),
        channel_gives(channel, reply) is Some,
        delivery_next(event, channel.stage, reply) is Some,
    ensures
        ({
            let queued = channel_gives(channel, reply)->0;
            let step = delivery_next(event, channel.stage, reply)->0;
            let before = channel.queued.to_multiset().add(in_hand(channel.action));
            let after = queued.to_multiset().add(in_hand(step.action));
            &&& channel_wf(event, Channel { queued, action: step.action, stage: step.stage, ..channel })
            &&& channel.action is PutBack ==> reply == DeliveryReply::Sent(true)
            &&& after == if channel.action == DeliveryAction::TrySend(event) && reply
                == DeliveryReply::Sent(true) {
                before.insert(event)
            } else if reply == DeliveryReply::Verdict(EvictionStep::Discard) {
                before.remove((channel.stage->head))
            } else {
                before
            }
        }),
{
    broadcast use vstd::seq_lib::group_to_multiset_ensures;

    let queued = channel_gives(channel, reply)->0;
    let step = delivery_next(event, channel.stage, reply)->0;
    let before = channel.queued.to_multiset().add(in_hand(channel.action));
    let after = queued.to_multiset().add(in_hand(step.action));
    if let DeliveryStage::Taking = channel.stage {
        if channel.queued.len() > 0 {
            let head = channel.queued[0];
            assert(channel.queued =~= seq![head] + channel.queued.drop_first());
            assert(channel.queued.drop_first() =~= channel.queued.remove(0));
            assert(channel.queued.to_multiset() =~= channel.queued.drop_first().to_multiset().insert(
                head,
            ));
        }
    }
    if channel.action == DeliveryAction::TrySend(event) && reply == DeliveryReply::Sent(true) {
        assert(after =~= before.insert(event));
    } else if reply == DeliveryReply::Verdict(EvictionStep::Discard) {
        assert(after =~= before.remove(channel.stage->head));
    } else {
        assert(after =~= before);
    }
}

/// A delivery ends well exactly when the event itself went into a channel or
/// the holder kept it.
pub proof fn law_delivered_means_taken_over(event: LibraryEvent, stage: DeliveryStage, reply: DeliveryReply)
    ensures
        delivery_next(event, stage, reply) matches Some(step) ==> {
            let offered = stage is Display || stage is Lossy || stage is Required || stage is Replacing
                || stage is LastTry;
            &&& step.action is Delivered <==> (offered && reply == DeliveryReply::Sent(true)) || (stage
                is Holding && reply == DeliveryReply::Hold(HoldOutcome::Held))
            &&& step.stage is Over <==> step.action is Delivered || step.action is Dropped
        },
{
}

/// A walk judges the head it took, spends it for the event only where it may,
/// and puts back the very one it may not spend. What is sent, tried and held
/// is the event. A walk that finds nothing to spend ends with the holder.
pub proof fn law_walk_handles_the_head_it_took(event: LibraryEvent, stage: DeliveryStage, reply: DeliveryReply)
    ensures
        delivery_next(event, stage, reply) matches Some(step) ==> {
            &&& (step.action matches DeliveryAction::TrySend(sent) ==> sent == event)
            &&& (step.action matches DeliveryAction::Hold(held) ==> held == event)
            &&& (step.action matches DeliveryAction::Inspect(head) ==> reply == DeliveryReply::Head(
                Some(head),
            ) && step.stage == DeliveryStage::Judging { head })
            &&& (step.action matches DeliveryAction::PutBack(head) ==> stage == DeliveryStage::Judging {
                head,
            } && reply == DeliveryReply::Verdict(EvictionStep::Requeue))
            &&& step.stage is Replacing <==> stage is Judging && reply == DeliveryReply::Verdict(
                EvictionStep::Discard,
            )
            &&& step.action is Hold <==> (stage is Walking && reply == DeliveryReply::Exhausted(true))
                || (stage is Taking && reply == DeliveryReply::Head(None)) || (stage is Replacing
                && reply == DeliveryReply::Sent(false))
            &&& step.action is BeginWalk <==> stage is Required && reply == DeliveryReply::Sent(false)
            &&& stage matches DeliveryStage::Display { must_be_delivered } ==> (reply
                == DeliveryReply::Sent(false) ==> step.stage == if must_be_delivered {
                DeliveryStage::Required
            } else {
                DeliveryStage::Lossy
            })
        },
{
}

/// An acknowledgement ends well exactly when it was sent or kept. One that
/// must arrive is offered to the holder before it is given up, and one that
/// need not is not.
pub proof fn law_acknowledgement_is_kept_if_it_must_be(stage: AckStage, reply: AckReply)
    ensures
        ack_next(stage, reply) matches Some(next) ==> {
            &&& next.0 is Delivered <==> reply == AckReply::Sent(true) || reply == AckReply::Hold(
                HoldOutcome::Held,
            )
            &&& next.0 is Hold <==> stage == (AckStage::First { must_be_delivered: true }) && reply
                == AckReply::Sent(false)
            &&& next.0 is Dropped <==> reply == AckReply::Sent(false) && (stage == (AckStage::First {
                must_be_delivered: false,
            }) || stage is LastTry)
            &&& next.0 is TrySend <==> stage is Holding && reply != AckReply::Hold(HoldOutcome::Held)
            &&& next.1 is None <==> next.0 is Delivered || next.0 is Dropped
            &&& next.0 is Hold ==> next.1 == Some(AckStage::Holding)
            &&& next.0 is TrySend ==> next.1 == Some(AckStage::LastTry)
        },
{
}

} // verus!
