//! Making a subscriber, offering chunks to it, and retiring it.

use crate::audio_channel::{channel_of, channel_was_made, offer_was_made, offered, sent_count,
    sync_channel, SendOutcome, Subscriber, Subscription, SUBSCRIBER_SLOTS};
use std::sync::mpsc::Receiver;
use vstd::prelude::*;

verus! {

impl<S> Subscriber<S> {
    /// Makes a new subscriber, which was offered nothing yet, and the receiving half of its channel.
    pub fn new() -> (ends: (Self, Receiver<Vec<S>>))
        ensures
            channel_of(SUBSCRIBER_SLOTS, ends.0@.channel, ends.1),
            ends.0@ == (Subscription {
                channel: ends.0@.channel,
                slots: SUBSCRIBER_SLOTS,
                offers: Seq::<(Seq<S>, SendOutcome)>::empty(),
            }),
    {
        let ends = sync_channel(SUBSCRIBER_SLOTS);
        proof {
            channel_was_made(SUBSCRIBER_SLOTS, ends.0, ends.1);
        }
        ends
    }

    /// Offers `chunk` to the subscriber once, without waiting.
    pub fn offer(&mut self, chunk: Vec<S>) -> (outcome: SendOutcome)
        ensures
            offered(old(self)@.channel, chunk, outcome),
            final(self)@ == (Subscription {
                offers: old(self)@.offers.push((chunk@, outcome)),
                ..old(self)@
            }),
            outcome == SendOutcome::Full ==> sent_count(old(self)@.offers) >= old(self)@.slots,
    {
        let ghost offered_chunk = chunk;
        let outcome = self.try_send(chunk);
        proof {
            offer_was_made(old(self)@.channel, offered_chunk, outcome);
        }
        outcome
    }

    /// Ends the time of the subscriber: from now on nothing can be offered to it.
    pub fn retire(self) -> (retired: Retired<S>)
        ensures
            retired@ == self@,
    {
        Retired { subscriber: self }
    }
}

/// A subscriber that is offered nothing more. It is kept only to be let go.
#[verifier::reject_recursive_types(S)]
pub struct Retired<S> {
    subscriber: Subscriber<S>,
}

impl<S> View for Retired<S> {
    type V = Subscription<S>;

    closed spec fn view(&self) -> Subscription<S> {
        self.subscriber@
    }
}

/// What a retired subscriber that may be missing has been offered.
pub open spec fn retired_subscription<S>(retired: Option<Retired<S>>) -> Option<Subscription<S>> {
    match retired {
        Some(retired) => Some(retired@),
        None => None,
    }
}

} // verus!
