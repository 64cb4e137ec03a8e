//! The event mailbox: a bounded queue between the producers and the
//! controller.
//!
//! The queue itself is an `embassy_sync` channel. Pushing and popping never
//! wait here: a push into a full mailbox hands the event back, a pop from an
//! empty one returns nothing, and the caller suspends and tries again. No
//! event is dropped, reordered or merged with another.

use vstd::prelude::*;
use embassy_sync::blocking_mutex::raw::NoopRawMutex;
use embassy_sync::channel::{Channel, TryReceiveError, TrySendError};
use crate::event::Event;

verus! {

/// Number of events the mailbox holds.
pub const MAILBOX_CAPACITY: usize = 4;

/// An `embassy_sync` channel with room for four events, used by one owner
/// at a time. The verifier does not look inside it.
#[verifier::external_body]
pub struct EventChannel {
    inner: Channel<NoopRawMutex, Event, 4>,
}

/// The events queued in a channel, oldest first.
pub uninterp spec fn channel_queue(channel: EventChannel) -> Seq<Event>;

/// `Channel::new`: the new channel holds nothing.
#[verifier::external_body]
fn channel_new() -> (channel: EventChannel)
    ensures
        channel_queue(channel) == Seq::<Event>::empty(),
{
    EventChannel { inner: Channel::new() }
}

/// `Channel::try_send`: with room left the message goes to the back of the
/// queue; in a full channel nothing changes and the message comes back. The
/// queue never grows beyond the channel's capacity.
#[verifier::external_body]
fn channel_try_send(channel: &mut EventChannel, event: Event) -> (outcome: Result<(), Event>)
    ensures
        channel_queue(*old(channel)).len() < 4 ==> outcome is Ok && channel_queue(*final(channel))
            == channel_queue(*old(channel)).push(event),
        channel_queue(*old(channel)).len() >= 4 ==> outcome is Err && outcome->Err_0 == event
            && channel_queue(*final(channel)) == channel_queue(*old(channel)),
        channel_queue(*final(channel)).len() <= 4,
{
    match channel.inner.try_send(event) {
        Ok(()) => Ok(()),
        Err(TrySendError::Full(event)) => Err(event),
    }
}

/// `Channel::try_receive`: the message at the front of the queue leaves it
/// and is returned; from an empty channel nothing comes and nothing changes.
/// The queue was and stays within the channel's capacity.
#[verifier::external_body]
fn channel_try_receive(channel: &mut EventChannel) -> (event: Option<Event>)
    ensures
        channel_queue(*old(channel)).len() == 0 ==> event is None && channel_queue(*final(channel))
            == channel_queue(*old(channel)),
        channel_queue(*old(channel)).len() > 0 ==> event == Some(channel_queue(*old(channel))[0])
            && channel_queue(*final(channel)) == channel_queue(*old(channel)).drop_first(),
        channel_queue(*final(channel)).len() <= 4,
{
    match channel.inner.try_receive() {
        Ok(event) => Some(event),
        Err(TryReceiveError::Empty) => None,
    }
}

/// The mailbox.
pub struct Mailbox {
    channel: EventChannel,
}

impl View for Mailbox {
    type V = Seq<Event>;

    /// The queued events, oldest first.
    closed spec fn view(&self) -> Seq<Event> {
        channel_queue(self.channel)
    }
}

impl Mailbox {
    /// An empty mailbox.
    pub fn new() -> (mailbox: Mailbox)
        ensures
            mailbox@ == Seq::<Event>::empty(),
    {
        Mailbox { channel: channel_new() }
    }

    /// Queues `event` behind the events already waiting.
    ///
    /// A full mailbox is left as it is and hands the event back, so that the
    /// producer can wait and offer it again.
    pub fn try_push(&mut self, event: Event) -> (outcome: Result<(), Event>)
        ensures
            final(self)@ == push_model(old(self)@, event).0,
            push_model(old(self)@, event).1 ==> outcome is Ok,
            !push_model(old(self)@, event).1 ==> outcome is Err && outcome->Err_0 == event,
            final(self)@.len() <= MAILBOX_CAPACITY,
    {
        channel_try_send(&mut self.channel, event)
    }

    /// Takes the oldest waiting event, if there is one.
    pub fn try_pop(&mut self) -> (event: Option<Event>)
        ensures
            final(self)@ == pop_model(old(self)@).0,
            event == pop_model(old(self)@).1,
            final(self)@.len() <= MAILBOX_CAPACITY,
    {
        channel_try_receive(&mut self.channel)
    }
}

/// A push on the queue `queue`: the queue afterwards, and whether the event
/// was taken.
pub open spec fn push_model(queue: Seq<Event>, event: Event) -> (Seq<Event>, bool) {
    if queue.len() < MAILBOX_CAPACITY {
        (queue.push(event), true)
    } else {
        (queue, false)
    }
}

/// A pop on the queue `queue`: the queue afterwards, and the event that came
/// out.
pub open spec fn pop_model(queue: Seq<Event>) -> (Seq<Event>, Option<Event>) {
    if queue.len() > 0 {
        (queue.drop_first(), Some(queue[0]))
    } else {
        (queue, None)
    }
}

/// One operation on the mailbox, by whichever task performs it.
pub enum MailboxOp {
    /// A producer offers an event.
    Push(Event),
    /// The consumer asks for the next event.
    Pop,
}

/// What a run of operations on an empty mailbox has led to.
pub struct MailboxHistory {
    /// The events still queued.
    pub queue: Seq<Event>,
    /// The events offered by producers, in the order of the offers.
    pub offered: Seq<Event>,
    /// The offered events that the mailbox took, in the order of the offers.
    pub accepted: Seq<Event>,
    /// The events handed to the consumer, in the order it received them.
    pub delivered: Seq<Event>,
}

/// The history of the operations `ops`, performed one after the other on an
/// empty mailbox.
pub open spec fn history(ops: Seq<MailboxOp>) -> MailboxHistory
    decreases ops.len(),
{
    if ops.len() == 0 {
        MailboxHistory {
            queue: Seq::empty(),
            offered: Seq::empty(),
            accepted: Seq::empty(),
            delivered: Seq::empty(),
        }
    } else {
        let before = history(ops.drop_last());
        match ops.last() {
            MailboxOp::Push(event) => {
                let (queue, taken) = push_model(before.queue, event);
                MailboxHistory {
                    queue,
                    offered: before.offered.push(event),
                    accepted: if taken {
                        before.accepted.push(event)
                    } else {
                        before.accepted
                    },
                    delivered: before.delivered,
                }
            },
            MailboxOp::Pop => {
                let (queue, out) = pop_model(before.queue);
                MailboxHistory {
                    queue,
                    offered: before.offered,
                    accepted: before.accepted,
                    delivered: match out {
                        Some(event) => before.delivered.push(event),
                        None => before.delivered,
                    },
                }
            },
        }
    }
}

/// The mailbox is first in, first out: whatever the interleaving of pushes and
/// pops, the events taken by the mailbox are exactly those delivered so far
/// followed by those still queued, each once and in the order of arrival.
pub proof fn lemma_mailbox_is_fifo(ops: Seq<MailboxOp>)
    ensures
        history(ops).accepted == history(ops).delivered + history(ops).queue,
        history(ops).queue.len() <= MAILBOX_CAPACITY,
    decreases ops.len(),
{
    if ops.len() > 0 {
        lemma_mailbox_is_fifo(ops.drop_last());
        let after = history(ops);
        assert(after.accepted =~= after.delivered + after.queue);
    }
}

/// No event is lost while the mailbox has room for every push not yet
/// delivered: if at each moment the offers outnumber the deliveries by no
/// more than the capacity, every offer is taken, so the consumer sees the
/// offered events themselves, in the order they were offered.
pub proof fn lemma_nothing_lost_within_capacity(ops: Seq<MailboxOp>)
    requires
        forall|k: int|
            0 <= k <= ops.len() ==> history(#[trigger] ops.take(k)).offered.len() - history(
                ops.take(k),
            ).delivered.len() <= MAILBOX_CAPACITY,
    ensures
        history(ops).accepted == history(ops).offered,
        history(ops).offered == history(ops).delivered + history(ops).queue,
    decreases ops.len(),
{
    lemma_mailbox_is_fifo(ops);
    if ops.len() > 0 {
        let shorter = ops.drop_last();
        assert forall|k: int| 0 <= k <= shorter.len() implies history(
            #[trigger] shorter.take(k),
        ).offered.len() - history(shorter.take(k)).delivered.len() <= MAILBOX_CAPACITY by {
            assert(shorter.take(k) =~= ops.take(k));
        }
        lemma_nothing_lost_within_capacity(shorter);
        lemma_mailbox_is_fifo(shorter);
        assert(ops.take(ops.len() as int) =~= ops);
    }
}

} // verus!
