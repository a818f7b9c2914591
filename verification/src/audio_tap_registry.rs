//! The registry of audio taps, one for each browser. The audio handler of a browser registers a tap
//! and pushes packets into it; the shell reads the tap and subscribes to its stream.

use crate::audio_channel::{channel_of, offered, sent_count, subscription_of, SendOutcome,
    Subscriber, Subscription, SUBSCRIBER_SLOTS};
use crate::downmix::{covers, downmix_packet, is_downmix, Arithmetic};
use crate::let_go::LetGo;
use crate::ring_buffer::{copy_samples, newest, slide, RING_MAX};
use crate::subscriber::{retired_subscription, Retired};
use std::collections::hash_map::Entry;
use std::collections::HashMap;
use std::sync::mpsc::{Receiver, SyncSender};
use vstd::prelude::*;

verus! {

broadcast use vstd::std_specs::hash::group_hash_axioms;

/// The tap of one browser.
#[verifier::reject_recursive_types(S)]
pub struct AudioTapState<S> {
    pub sample_rate: i32,
    pub channels: i32,
    pub active: bool,
    pub sender: Option<Subscriber<S>>,
    pub ring_buffer: Vec<S>,
}

/// What a tap holds: its subscriber with all that it was offered, and the ring buffer as a sequence.
#[verifier::ext_equal]
#[verifier::reject_recursive_types(S)]
pub struct Tap<S> {
    pub sample_rate: i32,
    pub channels: i32,
    pub active: bool,
    pub sender: Option<Subscription<S>>,
    pub ring: Seq<S>,
}

impl<S> View for AudioTapState<S> {
    type V = Tap<S>;

    open spec fn view(&self) -> Tap<S> {
        Tap {
            sample_rate: self.sample_rate,
            channels: self.channels,
            active: self.active,
            sender: subscription_of(self.sender),
            ring: self.ring_buffer@,
        }
    }
}

/// The taps of all browsers, by browser id.
#[verifier::reject_recursive_types(S)]
pub struct AudioTaps<S> {
    taps: HashMap<i32, AudioTapState<S>>,
    gone: LetGo<S>,
}

impl<S> View for AudioTaps<S> {
    type V = Map<i32, Tap<S>>;

    closed spec fn view(&self) -> Map<i32, Tap<S>> {
        self.taps@.map_values(|state: AudioTapState<S>| state@)
    }
}

/// No ring buffer is over its limit, every subscriber has the same room, and no tap that sleeps has
/// one.
pub open spec fn valid_taps<S>(taps: Map<i32, Tap<S>>) -> bool {
    forall|id: i32| #[trigger]
        taps.contains_key(id) ==> {
            &&& taps[id].ring.len() <= RING_MAX
            &&& taps[id].sender matches Some(subscriber) ==> {
                &&& taps[id].active
                &&& subscriber.slots == SUBSCRIBER_SLOTS
            }
        }
}

/// A tap is registered for `browser_id`: it was registered, and not unregistered since.
pub open spec fn is_active<S>(taps: Map<i32, Tap<S>>, browser_id: i32) -> bool {
    taps.contains_key(browser_id) && taps[browser_id].active
}

impl<S> AudioTaps<S> {
    /// The registry is in a state that its functions keep it in.
    pub open spec fn well_formed(&self) -> bool {
        valid_taps(self@)
    }

    /// The subscribers that were let go so far, oldest first, each with all that it was offered.
    pub closed spec fn let_go(&self) -> Seq<Subscription<S>> {
        self.gone@
    }

    /// A registry without taps.
    pub fn new() -> (taps: Self)
        ensures
            taps.well_formed(),
            taps@ == Map::<i32, Tap<S>>::empty(),
            taps.let_go() == Seq::<Subscription<S>>::empty(),
    {
        AudioTaps { taps: HashMap::new(), gone: LetGo::new() }
    }

    /// The tap of `browser_id`, to be changed in place.
    fn tap_mut(&mut self, browser_id: i32) -> (tap: Option<&mut AudioTapState<S>>)
        ensures
            match tap {
                Some(state) => {
                    &&& old(self)@.contains_key(browser_id)
                    &&& state@ == old(self)@[browser_id]
                    &&& final(self)@ == old(self)@.insert(browser_id, final(state)@)
                },
                None => !old(self)@.contains_key(browser_id) && final(self)@ == old(self)@,
            },
            final(self).let_go() == old(self).let_go(),
    {
        if !self.taps.contains_key(&browser_id) {
            return None;
        }
        match self.taps.entry(browser_id) {
            Entry::Occupied(entry) => Some(entry.into_mut()),
            Entry::Vacant(_) => None,
        }
    }
}

/// Those that were let go, and after them `sender`, if there is one.
pub open spec fn with_let_go<S>(
    let_go: Seq<Subscription<S>>,
    sender: Option<Subscription<S>>,
) -> Seq<Subscription<S>> {
    match sender {
        Some(subscriber) => let_go.push(subscriber),
        None => let_go,
    }
}

/// The subscriber of `browser_id`, if there is one.
pub open spec fn subscription_at<S>(taps: Map<i32, Tap<S>>, browser_id: i32) -> Option<
    Subscription<S>,
> {
    if taps.contains_key(browser_id) {
        taps[browser_id].sender
    } else {
        None
    }
}

/// The taps after `browser_id` was registered: a known tap keeps its subscriber and its buffer, a
/// new one starts without either.
pub open spec fn after_register<S>(
    taps: Map<i32, Tap<S>>,
    browser_id: i32,
    sample_rate: i32,
    channels: i32,
) -> Map<i32, Tap<S>> {
    let known = taps.contains_key(browser_id);
    taps.insert(
        browser_id,
        Tap {
            sample_rate,
            channels,
            active: true,
            sender: if known { taps[browser_id].sender } else { None },
            ring: if known { taps[browser_id].ring } else { Seq::empty() },
        },
    )
}

/// Registers the tap of a browser whose audio stream starts, or updates and wakes the one that is
/// already known.
pub fn register_audio_tap<S>(
    taps: &mut AudioTaps<S>,
    browser_id: i32,
    sample_rate: i32,
    channels: i32,
)
    requires
        old(taps).well_formed(),
    ensures
        final(taps).well_formed(),
        final(taps)@ == after_register(old(taps)@, browser_id, sample_rate, channels),
        final(taps).let_go() == old(taps).let_go(),
{
    let entry = taps.taps.entry(browser_id).or_insert(
        AudioTapState {
            sample_rate,
            channels,
            active: false,
            sender: None,
            ring_buffer: Vec::new(),
        },
    );
    entry.sample_rate = sample_rate;
    entry.channels = channels;
    entry.active = true;
    assert(taps@ == after_register(old(taps)@, browser_id, sample_rate, channels));
}

/// The subscriber after `chunk` was offered to it once with `outcome`, or was offered to nobody. One
/// whose channel was found closed is forgotten.
pub open spec fn after_offer<S>(
    sender: Option<Subscription<S>>,
    chunk: Seq<S>,
    outcome: Option<SendOutcome>,
) -> Option<Subscription<S>> {
    match (sender, outcome) {
        (Some(subscriber), Some(sent)) => if sent == SendOutcome::Disconnected {
            None
        } else {
            Some(Subscription { offers: subscriber.offers.push((chunk, sent)), ..subscriber })
        },
        _ => sender,
    }
}

/// The taps after `mono` was pushed into the tap of `browser_id` and offered to its subscriber with
/// `outcome`, or to nobody: the buffer slides over the chunk, and the subscriber has had one more
/// offer.
pub open spec fn after_push<S>(
    taps: Map<i32, Tap<S>>,
    browser_id: i32,
    mono: Seq<S>,
    outcome: Option<SendOutcome>,
) -> Map<i32, Tap<S>> {
    let tap = taps[browser_id];
    taps.insert(
        browser_id,
        Tap {
            sender: after_offer(tap.sender, mono, outcome),
            ring: newest(tap.ring + mono),
            ..tap
        },
    )
}

/// `outcome` is what came back from offering `chunk` to `sender`, if there is a sender. Its channel
/// is full only where as many chunks as it has slots went into it before.
pub open spec fn offered_to<S>(
    sender: Option<Subscription<S>>,
    chunk: Vec<S>,
    outcome: Option<SendOutcome>,
) -> bool {
    match sender {
        Some(subscriber) => {
            &&& outcome matches Some(sent)
            &&& offered(subscriber.channel, chunk, sent)
            &&& sent == SendOutcome::Full ==> sent_count(subscriber.offers) >= subscriber.slots
        },
        None => outcome is None,
    }
}

/// Ends the time of a subscriber, if there is one.
fn retire<S>(sender: Option<Subscriber<S>>) -> (retired: Option<Retired<S>>)
    ensures
        retired_subscription(retired) == subscription_of(sender),
{
    match sender {
        Some(subscriber) => Some(subscriber.retire()),
        None => None,
    }
}

/// Takes in what became of the chunk that was offered to the subscriber of a tap. A subscriber
/// whose channel is full keeps its place; one that is gone loses it and comes back retired.
pub fn settle_send<S>(state: &mut AudioTapState<S>, outcome: SendOutcome) -> (lost: Option<
    Retired<S>,
>)
    ensures
        final(state)@ == (Tap {
            sender: if outcome == SendOutcome::Disconnected { None } else { old(state)@.sender },
            ..old(state)@
        }),
        retired_subscription(lost) == (if outcome == SendOutcome::Disconnected {
            old(state)@.sender
        } else {
            None
        }),
{
    match outcome {
        SendOutcome::Sent => None,
        SendOutcome::Full => None,
        SendOutcome::Disconnected => retire(state.sender.take()),
    }
}

/// The subscriber that a push with `outcome` leaves without a place, with that push in its record.
pub open spec fn lost_by_push<S>(
    sender: Option<Subscription<S>>,
    chunk: Seq<S>,
    outcome: Option<SendOutcome>,
) -> Option<Subscription<S>> {
    match (sender, outcome) {
        (Some(subscriber), Some(SendOutcome::Disconnected)) => Some(
            Subscription {
                offers: subscriber.offers.push((chunk, SendOutcome::Disconnected)),
                ..subscriber
            },
        ),
        _ => None,
    }
}

/// Adds a mono chunk to one tap and offers it to the subscriber, if there is one. The chunk is
/// dropped where the channel of the subscriber is full. A subscriber that is gone comes back retired.
fn push_mono<S: Copy>(state: &mut AudioTapState<S>, mono: Vec<S>) -> (pushed: (
    Option<SendOutcome>,
    Option<Retired<S>>,
))
    ensures
        offered_to(old(state)@.sender, mono, pushed.0),
        final(state)@ == (Tap {
            sender: after_offer(old(state)@.sender, mono@, pushed.0),
            ring: newest(old(state)@.ring + mono@),
            ..old(state)@
        }),
        retired_subscription(pushed.1) == lost_by_push(old(state)@.sender, mono@, pushed.0),
{
    slide(&mut state.ring_buffer, &mono);
    let outcome = match &mut state.sender {
        Some(subscriber) => subscriber.offer(mono),
        None => {
            return (None, None);
        },
    };
    let lost = settle_send(state, outcome);
    (Some(outcome), lost)
}

/// Pushes a mono chunk of the audio stream of `browser_id` into its tap: the ring buffer slides over
/// the chunk, and the chunk goes to the subscriber. A chunk for a browser without a registered tap
/// changes nothing and is offered to nobody. What became of the chunk comes back, or `None` where it
/// was offered to nobody.
pub fn push_chunk<S: Copy>(taps: &mut AudioTaps<S>, browser_id: i32, mono: Vec<S>) -> (outcome:
    Option<SendOutcome>)
    requires
        old(taps).well_formed(),
    ensures
        final(taps).well_formed(),
        !is_active(old(taps)@, browser_id) ==> {
            &&& outcome is None
            &&& final(taps)@ == old(taps)@
            &&& final(taps).let_go() == old(taps).let_go()
        },
        is_active(old(taps)@, browser_id) ==> {
            &&& offered_to(old(taps)@[browser_id].sender, mono, outcome)
            &&& final(taps)@ == after_push(old(taps)@, browser_id, mono@, outcome)
            &&& final(taps).let_go() == with_let_go(
                old(taps).let_go(),
                lost_by_push(old(taps)@[browser_id].sender, mono@, outcome),
            )
        },
{
    let (outcome, lost) = match taps.tap_mut(browser_id) {
        Some(state) => {
            if !state.active {
                return None;
            }
            push_mono(state, mono)
        },
        None => {
            return None;
        },
    };
    taps.gone.let_go(lost);
    outcome
}

/// Pushes a planar packet of the audio stream of `browser_id` into its tap: the packet is downmixed
/// to mono, the ring buffer slides over the chunk, and the chunk goes to the subscriber.
///
/// `data` holds one plane for each channel, a missing one as `None`; it is itself `None` where the
/// stream delivered no planes at all. A packet without samples, and one for a browser without a
/// registered tap, changes nothing and is offered to nobody. What became of the chunk comes back, or
/// `None` where it was offered to nobody.
pub fn push_audio_data<S: Copy, A: Fn(S, S) -> S, D: Fn(S, usize) -> S>(
    taps: &mut AudioTaps<S>,
    browser_id: i32,
    data: Option<&[Option<&[S]>]>,
    frames: i32,
    channels: i32,
    arithmetic: &Arithmetic<S, A, D>,
) -> (outcome: Option<SendOutcome>)
    requires
        old(taps).well_formed(),
        arithmetic.is_total(),
        frames > 0 && channels > 0 ==> (data matches Some(planes) ==> covers(
            planes@,
            frames as nat,
            channels as nat,
        )),
    ensures
        final(taps).well_formed(),
        frames <= 0 || channels <= 0 || data is None || !is_active(old(taps)@, browser_id) ==> {
            &&& outcome is None
            &&& final(taps)@ == old(taps)@
            &&& final(taps).let_go() == old(taps).let_go()
        },
        frames > 0 && channels > 0 && data is Some && is_active(old(taps)@, browser_id) ==> {
            exists|mono: Vec<S>|
                {
                    &&& #[trigger] is_downmix(
                        *arithmetic,
                        data->0@,
                        frames as usize,
                        channels as usize,
                        mono@,
                    )
                    &&& offered_to(old(taps)@[browser_id].sender, mono, outcome)
                    &&& final(taps)@ == after_push(old(taps)@, browser_id, mono@, outcome)
                    &&& final(taps).let_go() == with_let_go(
                        old(taps).let_go(),
                        lost_by_push(old(taps)@[browser_id].sender, mono@, outcome),
                    )
                }
        },
{
    match downmix_packet(arithmetic, data, frames, channels) {
        Some(mono) => push_chunk(taps, browser_id, mono),
        None => None,
    }
}

/// The taps after `browser_id` was unregistered: its tap sleeps and has no subscriber, and keeps
/// everything else.
pub open spec fn after_unregister<S>(taps: Map<i32, Tap<S>>, browser_id: i32) -> Map<i32, Tap<S>> {
    if taps.contains_key(browser_id) {
        taps.insert(browser_id, Tap { active: false, sender: None, ..taps[browser_id] })
    } else {
        taps
    }
}

/// Puts the tap of a browser whose audio stream ended to sleep and lets go of its subscriber. The
/// last samples stay in its buffer, out of reach until the tap is registered again.
pub fn unregister_audio_tap<S>(taps: &mut AudioTaps<S>, browser_id: i32)
    requires
        old(taps).well_formed(),
    ensures
        final(taps).well_formed(),
        final(taps)@ == after_unregister(old(taps)@, browser_id),
        final(taps).let_go() == with_let_go(
            old(taps).let_go(),
            subscription_at(old(taps)@, browser_id),
        ),
{
    let lost = match taps.tap_mut(browser_id) {
        Some(state) => {
            state.active = false;
            retire(state.sender.take())
        },
        None => None,
    };
    taps.gone.let_go(lost);
}

/// The taps after the tap of `browser_id` got a new subscriber at `channel`, which was offered
/// nothing yet.
pub open spec fn after_subscribe<S>(
    taps: Map<i32, Tap<S>>,
    browser_id: i32,
    channel: SyncSender<Vec<S>>,
) -> Map<i32, Tap<S>> {
    taps.insert(
        browser_id,
        Tap {
            sender: Some(Subscription { channel, slots: SUBSCRIBER_SLOTS, offers: Seq::empty() }),
            ..taps[browser_id]
        },
    )
}

/// Subscribes to the audio stream of `browser_id`: returns the receiving half of a new bounded
/// channel of mono chunks, or `None` where no tap is registered. The subscriber before this one, if
/// any, is let go.
pub fn subscribe_audio<S>(taps: &mut AudioTaps<S>, browser_id: i32) -> (receiver: Option<
    Receiver<Vec<S>>,
>)
    requires
        old(taps).well_formed(),
    ensures
        final(taps).well_formed(),
        receiver is Some <==> is_active(old(taps)@, browser_id),
        receiver is None ==> {
            &&& final(taps)@ == old(taps)@
            &&& final(taps).let_go() == old(taps).let_go()
        },
        receiver matches Some(rx) ==> {
            &&& final(taps)@[browser_id].sender matches Some(subscriber)
            &&& channel_of(SUBSCRIBER_SLOTS, subscriber.channel, rx)
            &&& final(taps)@ == after_subscribe(old(taps)@, browser_id, subscriber.channel)
            &&& final(taps).let_go() == with_let_go(
                old(taps).let_go(),
                subscription_at(old(taps)@, browser_id),
            )
        },
{
    let (lost, receiver) = match taps.tap_mut(browser_id) {
        Some(state) => {
            if !state.active {
                return None;
            }
            let lost = retire(state.sender.take());
            let (subscriber, receiver) = Subscriber::new();
            state.sender = Some(subscriber);
            (lost, receiver)
        },
        None => {
            return None;
        },
    };
    taps.gone.let_go(lost);
    Some(receiver)
}

/// The channel count that the tap of `browser_id` was last registered with.
pub fn get_channels<S>(taps: &AudioTaps<S>, browser_id: i32) -> (channels: Option<i32>)
    ensures
        channels == (if taps@.contains_key(browser_id) {
            Some(taps@[browser_id].channels)
        } else {
            None
        }),
{
    match taps.taps.get(&browser_id) {
        Some(state) => Some(state.channels),
        None => None,
    }
}

/// The sample rate that the tap of `browser_id` was last registered with.
pub fn get_sample_rate<S>(taps: &AudioTaps<S>, browser_id: i32) -> (sample_rate: Option<i32>)
    ensures
        sample_rate == (if taps@.contains_key(browser_id) {
            Some(taps@[browser_id].sample_rate)
        } else {
            None
        }),
{
    match taps.taps.get(&browser_id) {
        Some(state) => Some(state.sample_rate),
        None => None,
    }
}

/// A copy of the ring buffer of `browser_id`, or nothing where no tap is registered.
pub fn snapshot_ring_buffer<S: Copy>(taps: &AudioTaps<S>, browser_id: i32) -> (samples: Vec<S>)
    ensures
        samples@ == (if is_active(taps@, browser_id) {
            taps@[browser_id].ring
        } else {
            Seq::empty()
        }),
{
    match taps.taps.get(&browser_id) {
        Some(state) => if state.active {
            copy_samples(&state.ring_buffer)
        } else {
            Vec::new()
        },
        None => Vec::new(),
    }
}

} // verus!
