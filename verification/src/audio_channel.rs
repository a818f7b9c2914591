//! The bounded channel that carries mono chunks from a tap to its subscriber.

use std::sync::mpsc::{Receiver, SyncSender, TrySendError};
use vstd::prelude::*;

verus! {

/// The sending half of a bounded channel, `std::sync::mpsc::SyncSender`. Opaque: a value of it is
/// carried through, and nothing is known of what is queued behind it.
#[verifier::external_type_specification]
#[verifier::external_body]
#[verifier::reject_recursive_types(T)]
pub struct ExSyncSender<T>(SyncSender<T>);

/// The receiving half of a bounded channel, `std::sync::mpsc::Receiver`. Opaque as well.
#[verifier::external_type_specification]
#[verifier::external_body]
#[verifier::reject_recursive_types(T)]
pub struct ExReceiver<T>(Receiver<T>);

/// How many chunks may wait in the channel of a subscriber.
pub const SUBSCRIBER_SLOTS: usize = 64;

/// What became of a chunk that was offered to a subscriber.
#[derive(Clone, Copy, Debug, PartialEq, Eq, Structural)]
pub enum SendOutcome {
    /// The chunk is in the channel.
    Sent,
    /// Every slot was taken; the chunk is dropped.
    Full,
    /// The receiving half is gone; the chunk is dropped.
    Disconnected,
}

/// The subscriber of a tap: the sending half of its channel, the only one there is, with a record of
/// every chunk that was offered to it. Neither leaves this module, which only makes channels
/// and offers chunks, so that no chunk goes into a channel past its record.
#[verifier::reject_recursive_types(S)]
pub struct Subscriber<S> {
    sender: SyncSender<Vec<S>>,
    slots: Ghost<usize>,
    offers: Ghost<Seq<(Seq<S>, SendOutcome)>>,
}

/// The channel of a subscriber, how many chunks may wait in it, and all chunks that were offered to
/// it so far, oldest first, each with its outcome.
#[verifier::ext_equal]
#[verifier::reject_recursive_types(S)]
pub struct Subscription<S> {
    pub channel: SyncSender<Vec<S>>,
    pub slots: usize,
    pub offers: Seq<(Seq<S>, SendOutcome)>,
}

impl<S> View for Subscriber<S> {
    type V = Subscription<S>;

    closed spec fn view(&self) -> Subscription<S> {
        Subscription { channel: self.sender, slots: self.slots@, offers: self.offers@ }
    }
}

/// What a subscriber that may be missing has been offered.
pub open spec fn subscription_of<S>(subscriber: Option<Subscriber<S>>) -> Option<Subscription<S>> {
    match subscriber {
        Some(subscriber) => Some(subscriber@),
        None => None,
    }
}

/// How many of `offers` went into the channel.
pub open spec fn sent_count<S>(offers: Seq<(Seq<S>, SendOutcome)>) -> nat
    decreases offers.len(),
{
    if offers.len() == 0 {
        0
    } else {
        sent_count(offers.drop_last()) + (if offers.last().1 == SendOutcome::Sent {
            1nat
        } else {
            0nat
        })
    }
}

/// `std::sync::mpsc::sync_channel`, which makes a channel with `bound` slots. Claims that the new
/// subscriber has `bound` slots and was offered nothing. All slots are set up at once, so `bound` is
/// kept to a size that memory holds.
#[verifier::external_body]
pub(crate) fn sync_channel<S>(bound: usize) -> (ends: (Subscriber<S>, Receiver<Vec<S>>))
    requires
        bound <= 0x1_0000,
    ensures
        ends.0@.slots == bound,
        ends.0@.offers == Seq::<(Seq<S>, SendOutcome)>::empty(),
{
    let (sender, receiver) = std::sync::mpsc::sync_channel(bound);
    (Subscriber { sender, slots: Ghost(bound), offers: Ghost(Seq::empty()) }, receiver)
}

impl<S> Subscriber<S> {
    /// `std::sync::mpsc::SyncSender::try_send`, which never blocks. Claims that this is one more offer,
    /// of `chunk` and with the outcome that comes back, and that the channel is full only where as
    /// many chunks as it has slots went into it before: they all came through this sending half. The
    /// three outcomes stand for `Ok`, `TrySendError::Full` and `TrySendError::Disconnected`, and a
    /// chunk that comes back inside an error is dropped. Nothing else is claimed of which outcome
    /// comes back: that rests on what the receiver has taken and on whether it is still alive.
    #[verifier::external_body]
    pub(crate) fn try_send(&mut self, chunk: Vec<S>) -> (outcome: SendOutcome)
        ensures
            final(self)@ == (Subscription {
                offers: old(self)@.offers.push((chunk@, outcome)),
                ..old(self)@
            }),
            outcome == SendOutcome::Full ==> sent_count(old(self)@.offers) >= old(self)@.slots,
    {
        match self.sender.try_send(chunk) {
            Ok(()) => SendOutcome::Sent,
            Err(TrySendError::Full(_)) => SendOutcome::Full,
            Err(TrySendError::Disconnected(_)) => SendOutcome::Disconnected,
        }
    }
}

/// `chunk` was offered to the subscriber at `channel`, and `outcome` came back. A function can show
/// this of an outcome only by making that offer; which outcomes there can be is left open.
pub closed spec fn offered<S>(
    channel: SyncSender<Vec<S>>,
    chunk: Vec<S>,
    outcome: SendOutcome,
) -> bool {
    exists|subscriber: &mut Subscriber<S>|
        subscriber@.channel == channel && #[trigger] call_ensures(
            Subscriber::<S>::try_send,
            (subscriber, chunk),
            outcome,
        )
}

/// `channel` and `receiver` are the two halves of one channel with `slots` slots. A function can show
/// this of two halves only by making that channel.
pub closed spec fn channel_of<S>(
    slots: usize,
    channel: SyncSender<Vec<S>>,
    receiver: Receiver<Vec<S>>,
) -> bool {
    exists|subscriber: Subscriber<S>|
        subscriber@.channel == channel && #[trigger] call_ensures(
            sync_channel::<S>,
            (slots,),
            (subscriber, receiver),
        )
}

/// An offer of `chunk` that gave `outcome` was made.
pub(crate) proof fn offer_was_made<S>(
    channel: SyncSender<Vec<S>>,
    chunk: Vec<S>,
    outcome: SendOutcome,
)
    requires
        exists|subscriber: &mut Subscriber<S>|
            subscriber@.channel == channel && #[trigger] call_ensures(
                Subscriber::<S>::try_send,
                (subscriber, chunk),
                outcome,
            ),
    ensures
        offered(channel, chunk, outcome),
{
}

/// A channel with the halves `subscriber` and `receiver` was made.
pub(crate) proof fn channel_was_made<S>(
    slots: usize,
    subscriber: Subscriber<S>,
    receiver: Receiver<Vec<S>>,
)
    requires
        call_ensures(sync_channel::<S>, (slots,), (subscriber, receiver)),
    ensures
        channel_of(slots, subscriber@.channel, receiver),
{
}

/// No more chunks went into a channel than were offered to it.
pub proof fn sent_count_is_bounded<S>(offers: Seq<(Seq<S>, SendOutcome)>)
    ensures
        sent_count(offers) <= offers.len(),
    decreases offers.len(),
{
    if offers.len() > 0 {
        sent_count_is_bounded(offers.drop_last());
    }
}

/// The count of chunks that went into a channel is the number of offers that were taken.
pub proof fn sent_count_counts<S>(offers: Seq<(Seq<S>, SendOutcome)>)
    ensures
        sent_count(offers) == offers.filter(
            |offer: (Seq<S>, SendOutcome)| offer.1 == SendOutcome::Sent,
        ).len(),
    decreases offers.len(),
{
    reveal(Seq::filter);
    if offers.len() > 0 {
        sent_count_counts(offers.drop_last());
    }
}

} // verus!
