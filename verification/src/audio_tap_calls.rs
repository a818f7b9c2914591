//! How the calls on a tap registry relate: what one of them leaves for the next to see. In each law
//! the readings before and after a call are those of the functions that read the registry, for the
//! browser that the call is about and for any other.

use crate::audio_channel::{channel_of, sent_count_counts, SendOutcome, Subscription};
use crate::audio_tap_registry::{after_push, get_channels, get_sample_rate, lost_by_push,
    offered_to, push_audio_data, push_chunk, register_audio_tap, settle_send, snapshot_ring_buffer,
    subscribe_audio, unregister_audio_tap, with_let_go, AudioTapState, AudioTaps};
use crate::downmix::{downmix_averages_frames, frame_has_present_samples, is_downmix,
    long_planes_cover, present_samples, Arithmetic};
use crate::ring_buffer::{newest, newest_is_longest_end};
use crate::subscriber::Retired;
use std::sync::mpsc::Receiver;
use vstd::prelude::*;

verus! {

/// `after` is the end of `before` and `added` together: all of it, or its last thirty seconds at
/// 48 kHz.
pub open spec fn slid_over<S>(before: Seq<S>, added: Seq<S>, after: Seq<S>) -> bool {
    let all = before + added;
    &&& all.len() <= 1_440_000 ==> after == all
    &&& all.len() > 1_440_000 ==> after.len() == 1_440_000 && after == all.skip(
        all.len() - 1_440_000,
    )
}

/// The window over a buffer and a chunk is the end of both.
proof fn newest_slides<S>(before: Seq<S>, added: Seq<S>)
    ensures
        slid_over(before, added, newest(before + added)),
{
    let all = before + added;
    newest_is_longest_end(all);
    if all.len() > 1_440_000 {
        assert(newest(all) =~= all.skip(all.len() - 1_440_000));
    } else {
        assert(newest(all) =~= all);
    }
}

/// A new registry knows no browser and gives nobody a subscription.
pub proof fn new_registry_is_empty<S: Copy>(
    taps: AudioTaps<S>,
    browser_id: i32,
    rate: Option<i32>,
    count: Option<i32>,
    samples: Vec<S>,
    receiver: Option<Receiver<Vec<S>>>,
)
    requires
        call_ensures(AudioTaps::<S>::new, (), taps),
        call_ensures(get_sample_rate::<S>, (&taps, browser_id), rate),
        call_ensures(get_channels::<S>, (&taps, browser_id), count),
        call_ensures(snapshot_ring_buffer::<S>, (&taps, browser_id), samples),
        exists|registry: &mut AudioTaps<S>|
            *registry == taps && #[trigger] call_ensures(
                subscribe_audio::<S>,
                (registry, browser_id),
                receiver,
            ),
    ensures
        taps.well_formed(),
        rate is None,
        count is None,
        samples@.len() == 0,
        receiver is None,
{
}

/// After a registration the tap has the sample rate and the channel count that it was registered
/// with, and the samples that it had; a new one has none. No other tap is touched.
pub proof fn registration_reads_back<S: Copy>(
    before: AudioTaps<S>,
    after: AudioTaps<S>,
    browser_id: i32,
    sample_rate: i32,
    channels: i32,
    seen_id: i32,
    rates: (Option<i32>, Option<i32>),
    counts: (Option<i32>, Option<i32>),
    samples: (Vec<S>, Vec<S>),
)
    requires
        exists|taps: &mut AudioTaps<S>|
            *taps == before && *final(taps) == after && #[trigger] call_ensures(
                register_audio_tap::<S>,
                (taps, browser_id, sample_rate, channels),
                (),
            ),
        call_ensures(get_sample_rate::<S>, (&before, seen_id), rates.0),
        call_ensures(get_sample_rate::<S>, (&after, seen_id), rates.1),
        call_ensures(get_channels::<S>, (&before, seen_id), counts.0),
        call_ensures(get_channels::<S>, (&after, seen_id), counts.1),
        call_ensures(snapshot_ring_buffer::<S>, (&before, seen_id), samples.0),
        call_ensures(snapshot_ring_buffer::<S>, (&after, seen_id), samples.1),
    ensures
        seen_id == browser_id ==> rates.1 == Some(sample_rate) && counts.1 == Some(channels),
        seen_id != browser_id ==> rates.1 == rates.0 && counts.1 == counts.0,
        seen_id != browser_id || samples.0@.len() > 0 ==> samples.1@ == samples.0@,
        rates.0 is None ==> samples.1@.len() == 0,
        after@.contains_key(browser_id),
        before@.contains_key(browser_id) ==> after@[browser_id].sender == before@[browser_id].sender,
        !before@.contains_key(browser_id) ==> after@[browser_id].sender is None,
        after@.remove(browser_id) == before@.remove(browser_id),
        after.let_go() == before.let_go(),
{
}

/// A tap can be subscribed to once it is registered, and whether another one can is not touched.
pub proof fn registration_opens_subscription<S>(
    before: AudioTaps<S>,
    after: AudioTaps<S>,
    browser_id: i32,
    sample_rate: i32,
    channels: i32,
    seen_id: i32,
    earlier: Option<Receiver<Vec<S>>>,
    later: Option<Receiver<Vec<S>>>,
)
    requires
        exists|taps: &mut AudioTaps<S>|
            *taps == before && *final(taps) == after && #[trigger] call_ensures(
                register_audio_tap::<S>,
                (taps, browser_id, sample_rate, channels),
                (),
            ),
        exists|taps: &mut AudioTaps<S>|
            *taps == before && #[trigger] call_ensures(
                subscribe_audio::<S>,
                (taps, seen_id),
                earlier,
            ),
        exists|taps: &mut AudioTaps<S>|
            *taps == after && #[trigger] call_ensures(subscribe_audio::<S>, (taps, seen_id), later),
    ensures
        seen_id == browser_id ==> later is Some,
        seen_id != browser_id ==> (later is Some <==> earlier is Some),
{
}

/// A push leaves the sample rate and the channel count of every tap as they were registered, and every
/// other tap as it is. Into a tap that can be subscribed to it slides the chunk;
/// any other tap it leaves alone, and offers the chunk to nobody.
pub proof fn push_touches_samples_only<S: Copy>(
    before: AudioTaps<S>,
    after: AudioTaps<S>,
    browser_id: i32,
    mono: Vec<S>,
    outcome: Option<SendOutcome>,
    receiver: Option<Receiver<Vec<S>>>,
    seen_id: i32,
    rates: (Option<i32>, Option<i32>),
    counts: (Option<i32>, Option<i32>),
    samples: (Vec<S>, Vec<S>),
)
    requires
        exists|taps: &mut AudioTaps<S>|
            *taps == before && *final(taps) == after && #[trigger] call_ensures(
                push_chunk::<S>,
                (taps, browser_id, mono),
                outcome,
            ),
        exists|taps: &mut AudioTaps<S>|
            *taps == before && #[trigger] call_ensures(
                subscribe_audio::<S>,
                (taps, browser_id),
                receiver,
            ),
        call_ensures(get_sample_rate::<S>, (&before, seen_id), rates.0),
        call_ensures(get_sample_rate::<S>, (&after, seen_id), rates.1),
        call_ensures(get_channels::<S>, (&before, seen_id), counts.0),
        call_ensures(get_channels::<S>, (&after, seen_id), counts.1),
        call_ensures(snapshot_ring_buffer::<S>, (&before, seen_id), samples.0),
        call_ensures(snapshot_ring_buffer::<S>, (&after, seen_id), samples.1),
    ensures
        rates.1 == rates.0,
        counts.1 == counts.0,
        seen_id != browser_id || receiver is None ==> samples.1@ == samples.0@,
        receiver is None ==> outcome is None && after@ == before@ && after.let_go()
            == before.let_go(),
        after@.remove(browser_id) == before@.remove(browser_id),
        seen_id == browser_id && receiver is Some ==> slid_over(samples.0@, mono@, samples.1@),
{
    newest_slides(samples.0@, mono@);
}

/// The same for a planar packet, where addition is `plus` and division is `over`: what slides into
/// the tap is, for each frame, the sum of the samples of all planes that are there, divided by the
/// number of all channels. A packet without planes, frames or channels changes nothing.
pub proof fn packet_touches_samples_only<S: Copy, A: Fn(S, S) -> S, D: Fn(S, usize) -> S>(
    before: AudioTaps<S>,
    after: AudioTaps<S>,
    browser_id: i32,
    data: Option<&[Option<&[S]>]>,
    frames: i32,
    channels: i32,
    arithmetic: Arithmetic<S, A, D>,
    plus: spec_fn(S, S) -> S,
    over: spec_fn(S, usize) -> S,
    outcome: Option<SendOutcome>,
    receiver: Option<Receiver<Vec<S>>>,
    seen_id: i32,
    rates: (Option<i32>, Option<i32>),
    counts: (Option<i32>, Option<i32>),
    samples: (Vec<S>, Vec<S>),
)
    requires
        forall|sum: S, sample: S, result: S| #[trigger]
            call_ensures(arithmetic.add, (sum, sample), result) ==> result == plus(sum, sample),
        forall|sum: S, count: usize, result: S| #[trigger]
            call_ensures(arithmetic.divide, (sum, count), result) ==> result == over(sum, count),
        data matches Some(planes) ==> channels <= planes@.len(),
        exists|taps: &mut AudioTaps<S>|
            *taps == before && *final(taps) == after && #[trigger] call_ensures(
                push_audio_data::<S, A, D>,
                (taps, browser_id, data, frames, channels, &arithmetic),
                outcome,
            ),
        exists|taps: &mut AudioTaps<S>|
            *taps == before && #[trigger] call_ensures(
                subscribe_audio::<S>,
                (taps, browser_id),
                receiver,
            ),
        call_ensures(get_sample_rate::<S>, (&before, seen_id), rates.0),
        call_ensures(get_sample_rate::<S>, (&after, seen_id), rates.1),
        call_ensures(get_channels::<S>, (&before, seen_id), counts.0),
        call_ensures(get_channels::<S>, (&after, seen_id), counts.1),
        call_ensures(snapshot_ring_buffer::<S>, (&before, seen_id), samples.0),
        call_ensures(snapshot_ring_buffer::<S>, (&after, seen_id), samples.1),
    ensures
        rates.1 == rates.0,
        counts.1 == counts.0,
        seen_id != browser_id || receiver is None || data is None || frames <= 0 || channels <= 0
            ==> samples.1@ == samples.0@,
        receiver is None || data is None || frames <= 0 || channels <= 0 ==> outcome is None
            && after@ == before@ && after.let_go() == before.let_go(),
        after@.remove(browser_id) == before@.remove(browser_id),
        seen_id == browser_id && receiver is Some && data is Some && frames > 0 && channels > 0
            ==> slid_over(
            samples.0@,
            Seq::new(
                frames as nat,
                |i: int|
                    over(
                        present_samples((data->0)@, channels as int, i).fold_left(
                            arithmetic.zero,
                            plus,
                        ),
                        channels as usize,
                    ),
            ),
            samples.1@,
        ),
        receiver is Some && data is Some && frames > 0 && channels > 0 ==> {
            let averages = Seq::new(
                frames as nat,
                |i: int|
                    over(
                        present_samples((data->0)@, channels as int, i).fold_left(
                            arithmetic.zero,
                            plus,
                        ),
                        channels as usize,
                    ),
            );
            match (before@[browser_id].sender, outcome) {
                (None, None) => after@[browser_id].sender is None && after.let_go()
                    == before.let_go(),
                (Some(subscriber), Some(SendOutcome::Disconnected)) => {
                    &&& after@[browser_id].sender is None
                    &&& after.let_go().len() == before.let_go().len() + 1
                    &&& after.let_go().drop_last() == before.let_go()
                    &&& after.let_go().last().offers == subscriber.offers.push(
                        (averages, SendOutcome::Disconnected),
                    )
                },
                (Some(subscriber), Some(sent)) => {
                    &&& after@[browser_id].sender matches Some(kept)
                    &&& kept.channel == subscriber.channel
                    &&& kept.offers == subscriber.offers.push((averages, sent))
                    &&& after.let_go() == before.let_go()
                },
                _ => false,
            }
        },
{
    if receiver is Some && data is Some && frames > 0 && channels > 0 {
        let planes = (data->0)@;
        let averages = Seq::new(
            frames as nat,
            |i: int|
                over(
                    present_samples(planes, channels as int, i).fold_left(arithmetic.zero, plus),
                    channels as usize,
                ),
        );
        let mono = choose|mono: Vec<S>|
            #[trigger] is_downmix(
                arithmetic,
                planes,
                frames as usize,
                channels as usize,
                mono@,
            ) && offered_to(before@[browser_id].sender, mono, outcome) && after@ == after_push(
                before@,
                browser_id,
                mono@,
                outcome,
            ) && after.let_go() == with_let_go(
                before.let_go(),
                lost_by_push(before@[browser_id].sender, mono@, outcome),
            );
        downmix_averages_frames(
            arithmetic,
            plus,
            over,
            planes,
            frames as usize,
            channels as usize,
            mono@,
        );
        assert forall|i: int| 0 <= i < frames implies mono@[i] == averages[i] by {
            frame_has_present_samples(planes, channels as nat, i);
        }
        assert(mono@ =~= averages);
        newest_slides(samples.0@, averages);
        if outcome == Some(SendOutcome::Disconnected) {
            assert(after.let_go().drop_last() =~= before.let_go());
        }
    }
}

/// After it was unregistered a tap shows no samples, keeps its sample rate and its channel count, and
/// cannot be subscribed to. No other tap is touched, and the subscriber is let go with the record
/// that it had.
pub proof fn unregistered_tap_is_closed<S: Copy>(
    before: AudioTaps<S>,
    after: AudioTaps<S>,
    browser_id: i32,
    receiver: Option<Receiver<Vec<S>>>,
    seen_id: i32,
    rates: (Option<i32>, Option<i32>),
    counts: (Option<i32>, Option<i32>),
    samples: (Vec<S>, Vec<S>),
)
    requires
        exists|taps: &mut AudioTaps<S>|
            *taps == before && *final(taps) == after && #[trigger] call_ensures(
                unregister_audio_tap::<S>,
                (taps, browser_id),
                (),
            ),
        exists|taps: &mut AudioTaps<S>|
            *taps == after && #[trigger] call_ensures(
                subscribe_audio::<S>,
                (taps, browser_id),
                receiver,
            ),
        call_ensures(get_sample_rate::<S>, (&before, seen_id), rates.0),
        call_ensures(get_sample_rate::<S>, (&after, seen_id), rates.1),
        call_ensures(get_channels::<S>, (&before, seen_id), counts.0),
        call_ensures(get_channels::<S>, (&after, seen_id), counts.1),
        call_ensures(snapshot_ring_buffer::<S>, (&before, seen_id), samples.0),
        call_ensures(snapshot_ring_buffer::<S>, (&after, seen_id), samples.1),
    ensures
        receiver is None,
        rates.1 == rates.0,
        counts.1 == counts.0,
        seen_id == browser_id ==> samples.1@.len() == 0,
        seen_id != browser_id ==> samples.1@ == samples.0@,
        after@.remove(browser_id) == before@.remove(browser_id),
        after@.contains_key(browser_id) ==> after@[browser_id].sender is None,
        before@.contains_key(browser_id) && before@[browser_id].sender is Some ==> after.let_go()
            == before.let_go().push(before@[browser_id].sender->0),
        !before@.contains_key(browser_id) || before@[browser_id].sender is None ==> after.let_go()
            == before.let_go(),
{
}

/// A tap that is unregistered and registered again shows the samples that it had.
pub proof fn registration_resumes_samples<S: Copy>(
    before: AudioTaps<S>,
    between: AudioTaps<S>,
    after: AudioTaps<S>,
    browser_id: i32,
    sample_rate: i32,
    channels: i32,
    earlier: Vec<S>,
    later: Vec<S>,
)
    requires
        exists|taps: &mut AudioTaps<S>|
            *taps == before && *final(taps) == between && #[trigger] call_ensures(
                unregister_audio_tap::<S>,
                (taps, browser_id),
                (),
            ),
        exists|taps: &mut AudioTaps<S>|
            *taps == between && *final(taps) == after && #[trigger] call_ensures(
                register_audio_tap::<S>,
                (taps, browser_id, sample_rate, channels),
                (),
            ),
        call_ensures(snapshot_ring_buffer::<S>, (&before, browser_id), earlier),
        call_ensures(snapshot_ring_buffer::<S>, (&after, browser_id), later),
        earlier@.len() > 0,
    ensures
        later@ == earlier@,
        after@[browser_id].sender is None,
{
}

/// A subscription touches no reading. It lets go of the subscriber before it, with the record that
/// this one had, and the new one was offered nothing yet.
pub proof fn subscription_touches_no_reading<S: Copy>(
    before: AudioTaps<S>,
    after: AudioTaps<S>,
    browser_id: i32,
    receiver: Option<Receiver<Vec<S>>>,
    seen_id: i32,
    rates: (Option<i32>, Option<i32>),
    counts: (Option<i32>, Option<i32>),
    samples: (Vec<S>, Vec<S>),
)
    requires
        exists|taps: &mut AudioTaps<S>|
            *taps == before && *final(taps) == after && #[trigger] call_ensures(
                subscribe_audio::<S>,
                (taps, browser_id),
                receiver,
            ),
        call_ensures(get_sample_rate::<S>, (&before, seen_id), rates.0),
        call_ensures(get_sample_rate::<S>, (&after, seen_id), rates.1),
        call_ensures(get_channels::<S>, (&before, seen_id), counts.0),
        call_ensures(get_channels::<S>, (&after, seen_id), counts.1),
        call_ensures(snapshot_ring_buffer::<S>, (&before, seen_id), samples.0),
        call_ensures(snapshot_ring_buffer::<S>, (&after, seen_id), samples.1),
    ensures
        rates.1 == rates.0,
        counts.1 == counts.0,
        samples.1@ == samples.0@,
        samples.0@.len() > 0 && seen_id == browser_id ==> receiver is Some,
        after@.remove(browser_id) == before@.remove(browser_id),
        receiver is None ==> after@ == before@ && after.let_go() == before.let_go(),
        receiver is Some ==> {
            &&& after@[browser_id].sender matches Some(subscriber)
            &&& subscriber.slots == 64
            &&& subscriber.offers.len() == 0
            &&& channel_of(64, subscriber.channel, receiver->0)
            &&& before@[browser_id].sender is None ==> after.let_go() == before.let_go()
            &&& before@[browser_id].sender is Some ==> after.let_go() == before.let_go().push(
                before@[browser_id].sender->0,
            )
        },
{
}

/// A chunk that is pushed into a tap with a subscriber is offered to it once, as it is, behind all
/// that it was offered before, and to nobody else. The subscriber keeps its place unless its channel
/// is closed; then it is let go, and that offer is the last of its record. The channel is full only
/// where sixty-four chunks went into it before.
pub proof fn subscriber_is_offered_each_chunk_once<S: Copy>(
    before: AudioTaps<S>,
    after: AudioTaps<S>,
    browser_id: i32,
    other_id: i32,
    mono: Vec<S>,
    outcome: Option<SendOutcome>,
    subscriber: Subscription<S>,
)
    requires
        before.well_formed(),
        other_id != browser_id,
        before@.contains_key(browser_id),
        before@[browser_id].sender == Some(subscriber),
        exists|taps: &mut AudioTaps<S>|
            *taps == before && *final(taps) == after && #[trigger] call_ensures(
                push_chunk::<S>,
                (taps, browser_id, mono),
                outcome,
            ),
    ensures
        outcome is Some,
        outcome == Some(SendOutcome::Full) ==> subscriber.offers.filter(
            |offer: (Seq<S>, SendOutcome)| offer.1 == SendOutcome::Sent,
        ).len() >= 64,
        outcome != Some(SendOutcome::Disconnected) ==> {
            &&& after@[browser_id].sender matches Some(kept)
            &&& kept.channel == subscriber.channel
            &&& kept.offers.len() == subscriber.offers.len() + 1
            &&& kept.offers.drop_last() == subscriber.offers
            &&& kept.offers.last() == (mono@, outcome->0)
            &&& after.let_go() == before.let_go()
        },
        outcome == Some(SendOutcome::Disconnected) ==> {
            &&& after@[browser_id].sender is None
            &&& after.let_go().len() == before.let_go().len() + 1
            &&& after.let_go().drop_last() == before.let_go()
            &&& after.let_go().last().channel == subscriber.channel
            &&& after.let_go().last().offers == subscriber.offers.push(
                (mono@, SendOutcome::Disconnected),
            )
        },
        after@.contains_key(other_id) <==> before@.contains_key(other_id),
        before@.contains_key(other_id) ==> after@[other_id] == before@[other_id],
{
    crate::audio_channel::sent_count_counts(subscriber.offers);
    if outcome == Some(SendOutcome::Disconnected) {
        assert(after.let_go().drop_last() =~= before.let_go());
    } else {
        assert((after@[browser_id].sender->0).offers.drop_last() =~= subscriber.offers);
    }
}

/// Without a subscriber a chunk is offered to nobody.
pub proof fn chunk_without_subscriber_is_not_offered<S: Copy>(
    before: AudioTaps<S>,
    after: AudioTaps<S>,
    browser_id: i32,
    mono: Vec<S>,
    outcome: Option<SendOutcome>,
)
    requires
        !before@.contains_key(browser_id) || before@[browser_id].sender is None,
        exists|taps: &mut AudioTaps<S>|
            *taps == before && *final(taps) == after && #[trigger] call_ensures(
                push_chunk::<S>,
                (taps, browser_id, mono),
                outcome,
            ),
    ensures
        outcome is None,
        after.let_go() == before.let_go(),
        after@.contains_key(browser_id) ==> after@[browser_id].sender is None,
{
}

/// The outcome of an offer touches the subscriber of a tap alone, and that only where it is gone: it
/// is then retired with the record that it had.
pub proof fn settling_touches_subscriber_only<S>(
    before: AudioTapState<S>,
    after: AudioTapState<S>,
    outcome: SendOutcome,
    lost: Option<Retired<S>>,
)
    requires
        exists|state: &mut AudioTapState<S>|
            *state == before && *final(state) == after && #[trigger] call_ensures(
                settle_send::<S>,
                (state, outcome),
                lost,
            ),
    ensures
        after.sample_rate == before.sample_rate,
        after.channels == before.channels,
        after.active == before.active,
        after.ring_buffer@ == before.ring_buffer@,
        outcome == SendOutcome::Disconnected ==> after.sender is None,
        outcome == SendOutcome::Disconnected && before.sender is Some ==> lost is Some && (
        lost->0)@ == (before.sender->0)@,
        outcome == SendOutcome::Disconnected && before.sender is None ==> lost is None,
        outcome != SendOutcome::Disconnected ==> lost is None && (after.sender is Some
            <==> before.sender is Some),
        outcome != SendOutcome::Disconnected && before.sender is Some ==> (after.sender->0)@ == (
        before.sender->0)@,
{
}

/// A registry that its functions kept holds no more than thirty seconds at 48 kHz of each tap.
pub proof fn snapshot_is_bounded<S: Copy>(taps: AudioTaps<S>, browser_id: i32, samples: Vec<S>)
    requires
        taps.well_formed(),
        call_ensures(snapshot_ring_buffer::<S>, (&taps, browser_id), samples),
    ensures
        samples@.len() <= 1_440_000,
{
}

/// Every function takes a registry that its functions kept, whatever the browser, and a push takes
/// whatever chunk there is. A planar packet needs a plane for each channel, and each plane that is
/// there has to hold all frames; one without frames or channels needs nothing.
pub proof fn calls_are_open<S: Copy, A: Fn(S, S) -> S, D: Fn(S, usize) -> S>(
    browser_id: i32,
    sample_rate: i32,
    count: i32,
    mono: Vec<S>,
    data: Option<&[Option<&[S]>]>,
    frames: i32,
    channels: i32,
    arithmetic: Arithmetic<S, A, D>,
)
    ensures
        forall|taps: &mut AudioTaps<S>|
            taps.well_formed() ==> #[trigger] call_requires(
                register_audio_tap::<S>,
                (taps, browser_id, sample_rate, count),
            ),
        forall|taps: &mut AudioTaps<S>|
            taps.well_formed() ==> #[trigger] call_requires(
                unregister_audio_tap::<S>,
                (taps, browser_id),
            ),
        forall|taps: &mut AudioTaps<S>|
            taps.well_formed() ==> #[trigger] call_requires(
                subscribe_audio::<S>,
                (taps, browser_id),
            ),
        forall|taps: &mut AudioTaps<S>|
            taps.well_formed() ==> #[trigger] call_requires(
                push_chunk::<S>,
                (taps, browser_id, mono),
            ),
        (forall|sum: S, sample: S| #[trigger] call_requires(arithmetic.add, (sum, sample))) && (
        forall|sum: S, parts: usize| #[trigger] call_requires(arithmetic.divide, (sum, parts))) && (
        frames <= 0 || channels <= 0 || data is None || ((data->0)@.len() >= channels && forall|
            c: int,
        |
            0 <= c < channels && (#[trigger] (data->0)@[c]) is Some ==> ((data->0)@[c]->0)@.len()
                >= frames)) ==> forall|taps: &mut AudioTaps<S>|
            taps.well_formed() ==> #[trigger] call_requires(
                push_audio_data::<S, A, D>,
                (taps, browser_id, data, frames, channels, &arithmetic),
            ),
{
    if data is Some && frames > 0 && channels > 0 && (data->0)@.len() >= channels && (forall|c: int|
        0 <= c < channels && (#[trigger] (data->0)@[c]) is Some ==> ((data->0)@[c]->0)@.len()
            >= frames) {
        long_planes_cover((data->0)@, frames as nat, channels as nat);
    }
}

} // verus!
