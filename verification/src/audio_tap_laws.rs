//! What holds across the functions of the tap registry.

use crate::audio_channel::{sent_count, sent_count_is_bounded, SendOutcome, Subscription,
    SUBSCRIBER_SLOTS};
use crate::audio_tap_registry::{after_push, after_register, after_subscribe, after_unregister,
    is_active, offered_to, valid_taps, Tap};
use crate::downmix::{downmixes_compose, is_downmix, splits_packet, Arithmetic};
use crate::ring_buffer::{newest, newest_is_bounded, slides_compose};
use std::sync::mpsc::SyncSender;
use vstd::prelude::*;

verus! {

/// A registered tap is active and has the sample rate and the channel count that it was registered
/// with.
pub proof fn register_reads_back<S>(
    taps: Map<i32, Tap<S>>,
    browser_id: i32,
    sample_rate: i32,
    channels: i32,
)
    ensures
        is_active(after_register(taps, browser_id, sample_rate, channels), browser_id),
        after_register(taps, browser_id, sample_rate, channels)[browser_id].sample_rate
            == sample_rate,
        after_register(taps, browser_id, sample_rate, channels)[browser_id].channels == channels,
{
}

/// Registering a known tap again disturbs neither its subscriber nor its buffer.
pub proof fn register_keeps_stream<S>(
    taps: Map<i32, Tap<S>>,
    browser_id: i32,
    sample_rate: i32,
    channels: i32,
)
    requires
        taps.contains_key(browser_id),
    ensures
        after_register(taps, browser_id, sample_rate, channels)[browser_id].sender
            == taps[browser_id].sender,
        after_register(taps, browser_id, sample_rate, channels)[browser_id].ring
            == taps[browser_id].ring,
{
}

/// Of two registrations of one tap, the second counts.
pub proof fn last_registration_counts<S>(
    taps: Map<i32, Tap<S>>,
    browser_id: i32,
    old_rate: i32,
    old_channels: i32,
    sample_rate: i32,
    channels: i32,
)
    ensures
        after_register(
            after_register(taps, browser_id, old_rate, old_channels),
            browser_id,
            sample_rate,
            channels,
        ) == after_register(taps, browser_id, sample_rate, channels),
{
    assert(after_register(
        after_register(taps, browser_id, old_rate, old_channels),
        browser_id,
        sample_rate,
        channels,
    ) =~= after_register(taps, browser_id, sample_rate, channels));
}

/// An unregistered tap takes no packets and has no subscriber, and keeps its sample rate, its
/// channel count and its buffer.
pub proof fn unregister_silences<S>(taps: Map<i32, Tap<S>>, browser_id: i32)
    ensures
        !is_active(after_unregister(taps, browser_id), browser_id),
        after_unregister(taps, browser_id).contains_key(browser_id) <==> taps.contains_key(
            browser_id,
        ),
        taps.contains_key(browser_id) ==> {
            let tap = after_unregister(taps, browser_id)[browser_id];
            &&& tap.sender is None
            &&& tap.sample_rate == taps[browser_id].sample_rate
            &&& tap.channels == taps[browser_id].channels
            &&& tap.ring == taps[browser_id].ring
        },
{
}

/// Unregistering a tap twice does no more than once.
pub proof fn unregister_is_idempotent<S>(taps: Map<i32, Tap<S>>, browser_id: i32)
    ensures
        after_unregister(after_unregister(taps, browser_id), browser_id) == after_unregister(
            taps,
            browser_id,
        ),
{
    assert(after_unregister(after_unregister(taps, browser_id), browser_id) =~= after_unregister(
        taps,
        browser_id,
    ));
}

/// A tap that is registered anew goes on with the buffer that it had, and waits for a subscriber.
pub proof fn reregister_resumes<S>(
    taps: Map<i32, Tap<S>>,
    browser_id: i32,
    sample_rate: i32,
    channels: i32,
)
    requires
        taps.contains_key(browser_id),
    ensures
        after_register(
            after_unregister(taps, browser_id),
            browser_id,
            sample_rate,
            channels,
        )[browser_id] == (Tap {
            sample_rate,
            channels,
            active: true,
            sender: None,
            ring: taps[browser_id].ring,
        }),
{
}

/// Of two subscriptions to one tap, the second counts.
pub proof fn last_subscription_counts<S>(
    taps: Map<i32, Tap<S>>,
    browser_id: i32,
    first: SyncSender<Vec<S>>,
    second: SyncSender<Vec<S>>,
)
    ensures
        after_subscribe(after_subscribe(taps, browser_id, first), browser_id, second)
            == after_subscribe(taps, browser_id, second),
{
    assert(after_subscribe(after_subscribe(taps, browser_id, first), browser_id, second)
        =~= after_subscribe(taps, browser_id, second));
}

/// A push into a tap with a subscriber makes one offer, of the whole chunk, behind all that were made
/// before. The subscriber loses its place exactly where its channel is found closed; a full channel
/// costs it no more than the chunk.
pub proof fn push_offers_once<S>(
    taps: Map<i32, Tap<S>>,
    browser_id: i32,
    mono: Seq<S>,
    outcome: SendOutcome,
)
    requires
        taps[browser_id].sender is Some,
    ensures
        outcome == SendOutcome::Disconnected ==> after_push(
            taps,
            browser_id,
            mono,
            Some(outcome),
        )[browser_id].sender is None,
        outcome != SendOutcome::Disconnected ==> after_push(
            taps,
            browser_id,
            mono,
            Some(outcome),
        )[browser_id].sender == Some(
            Subscription {
                offers: taps[browser_id].sender->0.offers.push((mono, outcome)),
                ..taps[browser_id].sender->0
            },
        ),
{
}

/// The channel of a subscriber holds as many chunks as it has slots: no chunk is dropped for want of
/// room before that many went into it, so none of the first ones that a subscriber is offered.
pub proof fn first_chunks_find_room<S>(
    taps: Map<i32, Tap<S>>,
    browser_id: i32,
    chunk: Vec<S>,
    outcome: SendOutcome,
)
    requires
        valid_taps(taps),
        taps.contains_key(browser_id),
        taps[browser_id].sender is Some,
        offered_to(taps[browser_id].sender, chunk, Some(outcome)),
    ensures
        sent_count(taps[browser_id].sender->0.offers) < SUBSCRIBER_SLOTS ==> outcome
            != SendOutcome::Full,
        taps[browser_id].sender->0.offers.len() < SUBSCRIBER_SLOTS ==> outcome != SendOutcome::Full,
{
    sent_count_is_bounded(taps[browser_id].sender->0.offers);
}

/// A tap that is not registered has no subscriber, so that a packet for it can reach nobody.
pub proof fn sleeping_tap_has_no_subscriber<S>(taps: Map<i32, Tap<S>>, browser_id: i32)
    requires
        valid_taps(taps),
        taps.contains_key(browser_id),
        !is_active(taps, browser_id),
    ensures
        taps[browser_id].sender is None,
{
}

/// Whatever becomes of the chunk on its way to the subscriber, the buffer takes it in.
pub proof fn buffer_ignores_subscriber<S>(
    taps: Map<i32, Tap<S>>,
    browser_id: i32,
    mono: Seq<S>,
    one: Option<SendOutcome>,
    other: Option<SendOutcome>,
)
    ensures
        after_push(taps, browser_id, mono, one)[browser_id].ring == after_push(
            taps,
            browser_id,
            mono,
            other,
        )[browser_id].ring,
{
}

/// A push into a tap leaves its sample rate, its channel count and its active flag as they were.
pub proof fn push_keeps_registration<S>(
    taps: Map<i32, Tap<S>>,
    browser_id: i32,
    mono: Seq<S>,
    outcome: Option<SendOutcome>,
)
    ensures
        after_push(taps, browser_id, mono, outcome)[browser_id].sample_rate
            == taps[browser_id].sample_rate,
        after_push(taps, browser_id, mono, outcome)[browser_id].channels
            == taps[browser_id].channels,
        after_push(taps, browser_id, mono, outcome)[browser_id].active == taps[browser_id].active,
{
}

/// A subscription leaves everything but the subscriber of a tap as it was.
pub proof fn subscribe_keeps_tap<S>(
    taps: Map<i32, Tap<S>>,
    browser_id: i32,
    sender: SyncSender<Vec<S>>,
)
    ensures
        after_subscribe(taps, browser_id, sender)[browser_id].sample_rate
            == taps[browser_id].sample_rate,
        after_subscribe(taps, browser_id, sender)[browser_id].channels
            == taps[browser_id].channels,
        after_subscribe(taps, browser_id, sender)[browser_id].active == taps[browser_id].active,
        after_subscribe(taps, browser_id, sender)[browser_id].ring == taps[browser_id].ring,
        after_subscribe(taps, browser_id, sender)[browser_id].sender == Some(
            Subscription { channel: sender, slots: 64, offers: Seq::empty() },
        ),
{
}

/// A tap that was not known starts without samples and without a subscriber; unregistering it before
/// that changes nothing.
pub proof fn unknown_tap_starts_empty<S>(
    taps: Map<i32, Tap<S>>,
    browser_id: i32,
    sample_rate: i32,
    channels: i32,
)
    requires
        !taps.contains_key(browser_id),
    ensures
        after_register(taps, browser_id, sample_rate, channels)[browser_id].ring.len() == 0,
        after_register(taps, browser_id, sample_rate, channels)[browser_id].sender is None,
        after_unregister(taps, browser_id) == taps,
{
}

/// How a mono stream is cut into chunks does not show in the buffer.
pub proof fn pushes_compose<S>(
    taps: Map<i32, Tap<S>>,
    browser_id: i32,
    first: Seq<S>,
    first_outcome: Option<SendOutcome>,
    second: Seq<S>,
    second_outcome: Option<SendOutcome>,
)
    ensures
        after_push(
            after_push(taps, browser_id, first, first_outcome),
            browser_id,
            second,
            second_outcome,
        )[browser_id].ring == newest(taps[browser_id].ring + (first + second)),
{
    slides_compose(taps[browser_id].ring, first, second);
}

/// How a planar stream is cut into packets does not show in the buffer either: after two packets that
/// are the first and the second part of a whole, the buffer has slid over a downmix of the whole.
pub proof fn packets_compose<S, A: Fn(S, S) -> S, D: Fn(S, usize) -> S>(
    taps: Map<i32, Tap<S>>,
    browser_id: i32,
    arithmetic: Arithmetic<S, A, D>,
    whole: Seq<Option<&[S]>>,
    first: Seq<Option<&[S]>>,
    second: Seq<Option<&[S]>>,
    n: usize,
    m: usize,
    channels: usize,
    x: Seq<S>,
    first_outcome: Option<SendOutcome>,
    y: Seq<S>,
    second_outcome: Option<SendOutcome>,
)
    requires
        n + m <= usize::MAX,
        splits_packet(whole, first, second, n as nat, m as nat, channels as nat),
        is_downmix(arithmetic, first, n, channels, x),
        is_downmix(arithmetic, second, m, channels, y),
    ensures
        is_downmix(arithmetic, whole, (n + m) as usize, channels, x + y),
        after_push(
            after_push(taps, browser_id, x, first_outcome),
            browser_id,
            y,
            second_outcome,
        )[browser_id].ring == newest(taps[browser_id].ring + (x + y)),
{
    downmixes_compose(arithmetic, whole, first, second, n, m, channels, x, y);
    pushes_compose(taps, browser_id, x, first_outcome, y, second_outcome);
}

/// What is done to the tap of one browser leaves the taps of all others alone.
pub proof fn taps_are_separate<S>(
    taps: Map<i32, Tap<S>>,
    browser_id: i32,
    other_id: i32,
    sample_rate: i32,
    channels: i32,
    mono: Seq<S>,
    outcome: Option<SendOutcome>,
    sender: SyncSender<Vec<S>>,
)
    requires
        other_id != browser_id,
    ensures
        after_register(taps, browser_id, sample_rate, channels).contains_pair(
            other_id,
            taps[other_id],
        ) <==> taps.contains_key(other_id),
        after_unregister(taps, browser_id).contains_pair(other_id, taps[other_id])
            <==> taps.contains_key(other_id),
        after_push(taps, browser_id, mono, outcome).contains_pair(other_id, taps[other_id])
            <==> taps.contains_key(other_id),
        after_subscribe(taps, browser_id, sender).contains_pair(other_id, taps[other_id])
            <==> taps.contains_key(other_id),
{
}

/// Without the tap of the browser that an operation is about, the taps are the same before and after
/// it.
pub proof fn other_taps_are_the_same<S>(
    taps: Map<i32, Tap<S>>,
    browser_id: i32,
    sample_rate: i32,
    channels: i32,
    mono: Seq<S>,
    outcome: Option<SendOutcome>,
    sender: SyncSender<Vec<S>>,
)
    ensures
        after_register(taps, browser_id, sample_rate, channels).remove(browser_id) == taps.remove(
            browser_id,
        ),
        after_unregister(taps, browser_id).remove(browser_id) == taps.remove(browser_id),
        after_push(taps, browser_id, mono, outcome).remove(browser_id) == taps.remove(browser_id),
        after_subscribe(taps, browser_id, sender).remove(browser_id) == taps.remove(browser_id),
{
}

/// No operation lets a buffer grow over its limit, or leaves a subscriber with a tap that sleeps.
pub proof fn validity_is_kept<S>(
    taps: Map<i32, Tap<S>>,
    browser_id: i32,
    sample_rate: i32,
    channels: i32,
    mono: Seq<S>,
    outcome: Option<SendOutcome>,
    sender: SyncSender<Vec<S>>,
)
    requires
        valid_taps(taps),
    ensures
        valid_taps(after_register(taps, browser_id, sample_rate, channels)),
        valid_taps(after_unregister(taps, browser_id)),
        is_active(taps, browser_id) ==> valid_taps(after_push(taps, browser_id, mono, outcome)),
        is_active(taps, browser_id) ==> valid_taps(after_subscribe(taps, browser_id, sender)),
{
    newest_is_bounded(taps[browser_id].ring + mono);
}

} // verus!
