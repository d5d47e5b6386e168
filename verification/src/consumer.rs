//! The consumer's side of at-least-once delivery: what becomes of a message
//! once it has been received under a lock.
//!
//! One iteration of a consumer is a short exchange between this module and
//! whoever drives it. The driver reports what happened last as a
//! [`ConsumerEvent`]; [`run_consumer`] answers with the [`ConsumerAction`] to
//! perform next. The driver starts with [`ConsumerEvent::Started`] and stops
//! at [`ConsumerAction::Finish`].

use crate::sbclient::{
    AzureServiceBusError,
    AzureServiceBusErrorView,
    BrokerProperties,
    BrokerPropertiesView,
    Message,
    MessageView,
    UtcInstant,
};
use vstd::prelude::*;

verus! {

/// What becomes of a received message.
#[derive(Clone, Copy, Debug, PartialEq, Eq, Structural)]
pub enum Disposition {
    /// The message is removed from the queue without being handled.
    Delete,
    /// The lock is given up, so that the message is delivered again.
    Unlock,
    /// The lock is extended and the message is left alone.
    RenewLock,
    /// The message is handled and then removed from the queue.
    ProcessThenDelete,
}

/// The graduated retry policy: a message without a delivery count is
/// removed; one seen for the first time is handed back; one seen for the
/// second time is held on to; any other is handled for good.
pub open spec fn disposition_of(delivery_count: Option<i32>) -> Disposition {
    match delivery_count {
        None => Disposition::Delete,
        Some(count) => if count == 1 {
            Disposition::Unlock
        } else if count == 2 {
            Disposition::RenewLock
        } else {
            Disposition::ProcessThenDelete
        },
    }
}

/// Decides what becomes of a message that was delivered `delivery_count`
/// times.
pub fn disposition(delivery_count: Option<i32>) -> (d: Disposition)
    ensures
        d == disposition_of(delivery_count),
{
    match delivery_count {
        None => Disposition::Delete,
        Some(1) => Disposition::Unlock,
        Some(2) => Disposition::RenewLock,
        Some(_) => Disposition::ProcessThenDelete,
    }
}

/// What the driver of an iteration reports.
#[derive(Debug)]
pub enum ConsumerEvent {
    /// The iteration begins.
    Started,
    /// Peek-lock was performed, with this result.
    Peeked(Result<Option<Message>, AzureServiceBusError>),
    /// The content of the message with this envelope was decoded into the
    /// payload, or could not be, for the reason given.
    Decoded { properties: BrokerProperties, outcome: Result<(), String> },
    /// The payload of the message with this envelope was handled.
    Processed { properties: BrokerProperties },
    /// The delete, unlock or renewal that was asked for was performed, with
    /// this result.
    Settled(Result<(), AzureServiceBusError>),
}

/// What the driver of an iteration is asked to do next.
#[derive(Debug)]
pub enum ConsumerAction {
    /// Receive the next message under a lock.
    PeekLock,
    /// Decode the content of this message into the payload.
    Decode(Message),
    /// Handle the payload of the message with this envelope, to completion.
    Process(BrokerProperties),
    /// Delete the message with this envelope.
    Delete(BrokerProperties),
    /// Release the lock on the message with this envelope.
    Unlock(BrokerProperties),
    /// Extend the lock on the message with this envelope.
    RenewLock(BrokerProperties),
    /// End the iteration with this result.
    Finish(Result<(), AzureServiceBusError>),
}

/// An event as a value of the model.
pub enum ConsumerEventView {
    Started,
    Peeked(Result<Option<MessageView>, AzureServiceBusErrorView>),
    Decoded { properties: BrokerPropertiesView, outcome: Result<(), Seq<char>> },
    Processed { properties: BrokerPropertiesView },
    Settled(Result<(), AzureServiceBusErrorView>),
}

/// An action as a value of the model.
pub enum ConsumerActionView {
    PeekLock,
    Decode(MessageView),
    Process(BrokerPropertiesView),
    Delete(BrokerPropertiesView),
    Unlock(BrokerPropertiesView),
    RenewLock(BrokerPropertiesView),
    Finish(Result<(), AzureServiceBusErrorView>),
}

/// The result of a settlement as a value of the model.
pub open spec fn settlement_view(result: Result<(), AzureServiceBusError>) -> Result<
    (),
    AzureServiceBusErrorView,
> {
    match result {
        Ok(()) => Ok(()),
        Err(e) => Err(e@),
    }
}

impl View for ConsumerEvent {
    type V = ConsumerEventView;

    open spec fn view(&self) -> ConsumerEventView {
        match self {
            ConsumerEvent::Started => ConsumerEventView::Started,
            ConsumerEvent::Peeked(Ok(None)) => ConsumerEventView::Peeked(Ok(None)),
            ConsumerEvent::Peeked(Ok(Some(message))) => ConsumerEventView::Peeked(
                Ok(Some(message@)),
            ),
            ConsumerEvent::Peeked(Err(e)) => ConsumerEventView::Peeked(Err(e@)),
            ConsumerEvent::Decoded { properties, outcome: Ok(()) } => ConsumerEventView::Decoded {
                properties: properties@,
                outcome: Ok(()),
            },
            ConsumerEvent::Decoded { properties, outcome: Err(reason) } =>
                ConsumerEventView::Decoded { properties: properties@, outcome: Err(reason@) },
            ConsumerEvent::Processed { properties } => ConsumerEventView::Processed {
                properties: properties@,
            },
            ConsumerEvent::Settled(result) => ConsumerEventView::Settled(settlement_view(*result)),
        }
    }
}

impl View for ConsumerAction {
    type V = ConsumerActionView;

    open spec fn view(&self) -> ConsumerActionView {
        match self {
            ConsumerAction::PeekLock => ConsumerActionView::PeekLock,
            ConsumerAction::Decode(message) => ConsumerActionView::Decode(message@),
            ConsumerAction::Process(properties) => ConsumerActionView::Process(properties@),
            ConsumerAction::Delete(properties) => ConsumerActionView::Delete(properties@),
            ConsumerAction::Unlock(properties) => ConsumerActionView::Unlock(properties@),
            ConsumerAction::RenewLock(properties) => ConsumerActionView::RenewLock(properties@),
            ConsumerAction::Finish(result) => ConsumerActionView::Finish(settlement_view(*result)),
        }
    }
}

/// The action that answers an event.
///
/// An iteration begins with peek-lock. Without a message, or when peek-lock
/// failed, it ends there. A message is first decoded; if that fails the
/// iteration ends with a conversion failure and the message stays locked.
/// Otherwise the delivery count decides. Once a message is handled it is
/// deleted, and the result of a settlement is the result of the iteration.
pub open spec fn next_action(event: ConsumerEventView) -> ConsumerActionView {
    match event {
        ConsumerEventView::Started => ConsumerActionView::PeekLock,
        ConsumerEventView::Peeked(Ok(None)) => ConsumerActionView::Finish(Ok(())),
        ConsumerEventView::Peeked(Ok(Some(message))) => ConsumerActionView::Decode(message),
        ConsumerEventView::Peeked(Err(e)) => ConsumerActionView::Finish(Err(e)),
        ConsumerEventView::Decoded { properties, outcome: Err(reason) } =>
            ConsumerActionView::Finish(Err(AzureServiceBusErrorView::ConversionError(reason))),
        ConsumerEventView::Decoded { properties, outcome: Ok(()) } => match disposition_of(
            properties.delivery_count,
        ) {
            Disposition::Delete => ConsumerActionView::Delete(properties),
            Disposition::Unlock => ConsumerActionView::Unlock(properties),
            Disposition::RenewLock => ConsumerActionView::RenewLock(properties),
            Disposition::ProcessThenDelete => ConsumerActionView::Process(properties),
        },
        ConsumerEventView::Processed { properties } => ConsumerActionView::Delete(properties),
        ConsumerEventView::Settled(result) => ConsumerActionView::Finish(result),
    }
}

/// Answers what the driver reported with what it is to do next.
pub fn run_consumer(event: ConsumerEvent) -> (action: ConsumerAction)
    ensures
        action@ == next_action(event@),
{
    match event {
        ConsumerEvent::Started => ConsumerAction::PeekLock,
        ConsumerEvent::Peeked(Ok(None)) => ConsumerAction::Finish(Ok(())),
        ConsumerEvent::Peeked(Ok(Some(message))) => ConsumerAction::Decode(message),
        ConsumerEvent::Peeked(Err(e)) => ConsumerAction::Finish(Err(e)),
        ConsumerEvent::Decoded { properties, outcome: Err(reason) } => ConsumerAction::Finish(
            Err(AzureServiceBusError::from_conversion_failure(reason)),
        ),
        ConsumerEvent::Decoded { properties, outcome: Ok(()) } => match disposition(
            properties.delivery_count,
        ) {
            Disposition::Delete => ConsumerAction::Delete(properties),
            Disposition::Unlock => ConsumerAction::Unlock(properties),
            Disposition::RenewLock => ConsumerAction::RenewLock(properties),
            Disposition::ProcessThenDelete => ConsumerAction::Process(properties),
        },
        ConsumerEvent::Processed { properties } => ConsumerAction::Delete(properties),
        ConsumerEvent::Settled(result) => ConsumerAction::Finish(result),
    }
}

/// What lies in store for one iteration: what peek-lock will return, how
/// decoding a received content will go, and how a settlement will end.
pub struct Surroundings {
    pub peeked: Result<Option<MessageView>, AzureServiceBusErrorView>,
    pub decoded: Result<(), Seq<char>>,
    pub settled: Result<(), AzureServiceBusErrorView>,
}

impl Surroundings {
    /// What a driver that performs `action` faithfully reports back; nothing
    /// once the iteration is finished.
    pub open spec fn report(self, action: ConsumerActionView) -> Option<ConsumerEventView> {
        match action {
            ConsumerActionView::PeekLock => Some(ConsumerEventView::Peeked(self.peeked)),
            ConsumerActionView::Decode(message) => Some(
                ConsumerEventView::Decoded {
                    properties: message.properties,
                    outcome: self.decoded,
                },
            ),
            ConsumerActionView::Process(properties) => Some(
                ConsumerEventView::Processed { properties },
            ),
            ConsumerActionView::Delete(_) => Some(ConsumerEventView::Settled(self.settled)),
            ConsumerActionView::Unlock(_) => Some(ConsumerEventView::Settled(self.settled)),
            ConsumerActionView::RenewLock(_) => Some(ConsumerEventView::Settled(self.settled)),
            ConsumerActionView::Finish(_) => None,
        }
    }

    /// The actions that follow `event`, in order, up to `steps` of them.
    pub open spec fn actions_after(self, event: ConsumerEventView, steps: nat) -> Seq<
        ConsumerActionView,
    >
        decreases steps,
    {
        if steps == 0 {
            Seq::empty()
        } else {
            let action = next_action(event);
            match self.report(action) {
                None => seq![action],
                Some(next) => seq![action] + self.actions_after(next, (steps - 1) as nat),
            }
        }
    }

    /// Every action of one iteration, in order. No iteration takes more than
    /// five.
    pub open spec fn iteration(self) -> Seq<ConsumerActionView> {
        self.actions_after(ConsumerEventView::Started, 5)
    }
}

impl ConsumerActionView {
    /// Whether the action asks the queue to settle a message.
    pub open spec fn settles(self) -> bool {
        self is Delete || self is Unlock || self is RenewLock
    }
}

/// Whatever lies in store, an iteration begins with peek-lock, takes five
/// actions at most, and ends with the one action that finishes it. It asks
/// for at most one settlement, and for none before the message is decoded.
pub proof fn lemma_iteration_finishes(w: Surroundings)
    ensures
        2 <= w.iteration().len() <= 5,
        w.iteration().first() is PeekLock,
        w.iteration().last() is Finish,
        forall|i: int| 0 <= i < w.iteration().len() - 1 ==> !(#[trigger] w.iteration()[i] is Finish),
        forall|i: int, j: int|
            0 <= i < j < w.iteration().len() ==> !(#[trigger] w.iteration()[i].settles()
                && #[trigger] w.iteration()[j].settles()),
        forall|i: int|
            0 <= i < w.iteration().len() && #[trigger] w.iteration()[i].settles() ==> i >= 2
                && w.iteration()[1] is Decode,
{
    reveal_with_fuel(Surroundings::actions_after, 6);
    match w.peeked {
        Ok(Some(message)) => {
            match w.decoded {
                Ok(()) => {
                    lemma_iteration_with_message(w, message);
                },
                Err(reason) => {
                    lemma_iteration_with_undecodable_message(w, message, reason);
                },
            }
        },
        _ => {
            lemma_iteration_without_message(w);
        },
    }
}

/// An iteration that finds no message performs peek-lock and nothing else,
/// and ends well. One whose peek-lock fails ends with that failure.
pub proof fn lemma_iteration_without_message(w: Surroundings)
    requires
        !(w.peeked matches Ok(Some(_))),
    ensures
        w.iteration() == match w.peeked {
            Err(e) => seq![ConsumerActionView::PeekLock, ConsumerActionView::Finish(Err(e))],
            _ => seq![ConsumerActionView::PeekLock, ConsumerActionView::Finish(Ok(()))],
        },
{
    reveal_with_fuel(Surroundings::actions_after, 3);
    assert(w.iteration() =~= match w.peeked {
        Err(e) => seq![ConsumerActionView::PeekLock, ConsumerActionView::Finish(Err(e))],
        _ => seq![ConsumerActionView::PeekLock, ConsumerActionView::Finish(Ok(()))],
    });
}

/// An iteration whose message cannot be decoded ends with a conversion
/// failure and asks nothing of the queue after peek-lock: the message stays
/// locked.
pub proof fn lemma_iteration_with_undecodable_message(
    w: Surroundings,
    message: MessageView,
    reason: Seq<char>,
)
    requires
        w.peeked == Ok::<Option<MessageView>, AzureServiceBusErrorView>(Some(message)),
        w.decoded == Err::<(), Seq<char>>(reason),
    ensures
        w.iteration() == seq![
            ConsumerActionView::PeekLock,
            ConsumerActionView::Decode(message),
            ConsumerActionView::Finish(Err(AzureServiceBusErrorView::ConversionError(reason))),
        ],
{
    reveal_with_fuel(Surroundings::actions_after, 4);
    assert(w.iteration() =~= seq![
        ConsumerActionView::PeekLock,
        ConsumerActionView::Decode(message),
        ConsumerActionView::Finish(Err(AzureServiceBusErrorView::ConversionError(reason))),
    ]);
}

/// The lifecycle of a received message whose content decodes: after
/// peek-lock and decoding, exactly one settlement is asked for, the one that
/// the delivery count calls for, preceded by handling where the count calls
/// for that; the iteration then ends with the result of the settlement.
pub proof fn lemma_iteration_with_message(w: Surroundings, message: MessageView)
    requires
        w.peeked == Ok::<Option<MessageView>, AzureServiceBusErrorView>(Some(message)),
        w.decoded is Ok,
    ensures
        w.iteration() == match disposition_of(message.properties.delivery_count) {
            Disposition::Delete => seq![
                ConsumerActionView::PeekLock,
                ConsumerActionView::Decode(message),
                ConsumerActionView::Delete(message.properties),
                ConsumerActionView::Finish(w.settled),
            ],
            Disposition::Unlock => seq![
                ConsumerActionView::PeekLock,
                ConsumerActionView::Decode(message),
                ConsumerActionView::Unlock(message.properties),
                ConsumerActionView::Finish(w.settled),
            ],
            Disposition::RenewLock => seq![
                ConsumerActionView::PeekLock,
                ConsumerActionView::Decode(message),
                ConsumerActionView::RenewLock(message.properties),
                ConsumerActionView::Finish(w.settled),
            ],
            Disposition::ProcessThenDelete => seq![
                ConsumerActionView::PeekLock,
                ConsumerActionView::Decode(message),
                ConsumerActionView::Process(message.properties),
                ConsumerActionView::Delete(message.properties),
                ConsumerActionView::Finish(w.settled),
            ],
        },
{
    reveal_with_fuel(Surroundings::actions_after, 6);
    let properties = message.properties;
    let expected = match disposition_of(properties.delivery_count) {
        Disposition::Delete => seq![
            ConsumerActionView::PeekLock,
            ConsumerActionView::Decode(message),
            ConsumerActionView::Delete(properties),
            ConsumerActionView::Finish(w.settled),
        ],
        Disposition::Unlock => seq![
            ConsumerActionView::PeekLock,
            ConsumerActionView::Decode(message),
            ConsumerActionView::Unlock(properties),
            ConsumerActionView::Finish(w.settled),
        ],
        Disposition::RenewLock => seq![
            ConsumerActionView::PeekLock,
            ConsumerActionView::Decode(message),
            ConsumerActionView::RenewLock(properties),
            ConsumerActionView::Finish(w.settled),
        ],
        Disposition::ProcessThenDelete => seq![
            ConsumerActionView::PeekLock,
            ConsumerActionView::Decode(message),
            ConsumerActionView::Process(properties),
            ConsumerActionView::Delete(properties),
            ConsumerActionView::Finish(w.settled),
        ],
    };
    assert(w.iteration() =~= expected);
}

/// For how many seconds a payload is handled.
pub const PROCESSING_SECONDS: i64 = 30;

/// For how many seconds the handler rests between two looks at the clock.
pub const PACING_SECONDS: u64 = 5;

/// What the handler of a payload does next.
#[derive(Clone, Copy, Debug, PartialEq, Eq, Structural)]
pub enum Pacing {
    /// Rest for this many seconds, then look at the clock again.
    Rest(u64),
    /// The payload is handled.
    Done,
}

/// Whether the instant `now` is earlier than the instant that lies `secs`
/// seconds and `nanos` nanoseconds after the start of 1970.
pub open spec fn before(now: UtcInstant, secs: int, nanos: int) -> bool {
    now.secs < secs || (now.secs == secs && now.nanos < nanos)
}

/// The step of a handler that began at `started`, when the clock reads
/// `now`: it rests until the time for handling has passed.
pub open spec fn pacing(started: UtcInstant, now: UtcInstant) -> Pacing {
    if before(now, started.secs + PROCESSING_SECONDS, started.nanos as int) {
        Pacing::Rest(PACING_SECONDS)
    } else {
        Pacing::Done
    }
}

/// Decides what the handler of a payload does next. The handler began at
/// `started`, and the clock reads `now`.
pub fn process_message(started: UtcInstant, now: UtcInstant) -> (step: Pacing)
    requires
        started.secs + PROCESSING_SECONDS <= i64::MAX,
    ensures
        step == pacing(started, now),
{
    let end = UtcInstant { secs: started.secs + PROCESSING_SECONDS, nanos: started.nanos };
    if now.secs < end.secs || (now.secs == end.secs && now.nanos < end.nanos) {
        Pacing::Rest(PACING_SECONDS)
    } else {
        Pacing::Done
    }
}

} // verus!
