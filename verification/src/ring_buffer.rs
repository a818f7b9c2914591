//! The sliding window over the newest mono samples of a tap.

use vstd::prelude::*;

verus! {

/// Maximum mono samples in the ring buffer per browser (30 s at 48 kHz).
pub const RING_MAX: usize = 48_000 * 30;

/// The newest `RING_MAX` samples of `samples`, or all of them where there are fewer.
pub open spec fn newest<S>(samples: Seq<S>) -> Seq<S> {
    if samples.len() <= RING_MAX {
        samples
    } else {
        samples.skip(samples.len() - RING_MAX)
    }
}

/// Copies the samples of a buffer.
pub fn copy_samples<S: Copy>(samples: &Vec<S>) -> (copy: Vec<S>)
    ensures
        copy@ == samples@,
{
    let mut copy: Vec<S> = Vec::with_capacity(samples.len());
    append_samples(&mut copy, samples);
    copy
}

/// Appends `chunk` to `buffer`.
fn append_samples<S: Copy>(buffer: &mut Vec<S>, chunk: &Vec<S>)
    ensures
        final(buffer)@ == old(buffer)@ + chunk@,
{
    let mut i: usize = 0;
    while i < chunk.len()
        invariant
            i <= chunk@.len(),
            buffer@ == old(buffer)@ + chunk@.take(i as int),
        decreases chunk@.len() - i,
    {
        buffer.push(chunk[i]);
        assert(chunk@.take(i + 1) == chunk@.take(i as int).push(chunk@[i as int]));
        i += 1;
    }
    assert(chunk@.take(i as int) == chunk@);
}

/// Appends `chunk` to `ring` and drops the oldest samples beyond the limit.
pub fn slide<S: Copy>(ring: &mut Vec<S>, chunk: &Vec<S>)
    ensures
        final(ring)@ == newest(old(ring)@ + chunk@),
{
    append_samples(ring, chunk);
    if ring.len() > RING_MAX {
        let excess: usize = ring.len() - RING_MAX;
        let kept = ring.split_off(excess);
        assert(kept@ == newest(old(ring)@ + chunk@));
        *ring = kept;
    }
}

/// The window never holds more than its limit.
pub proof fn newest_is_bounded<S>(samples: Seq<S>)
    ensures
        newest(samples).len() <= RING_MAX,
        newest(samples).len() <= samples.len(),
{
}

/// The window is the end of what went in: as much of it as fits in thirty seconds at 48 kHz, and
/// nothing from before that.
pub proof fn newest_is_longest_end<S>(samples: Seq<S>)
    ensures
        newest(samples).len() == (if samples.len() < 1_440_000 {
            samples.len()
        } else {
            1_440_000
        }),
        forall|i: int|
            0 <= i < newest(samples).len() ==> #[trigger] newest(samples)[i]
                == samples[samples.len() - newest(samples).len() + i],
{
}

/// What `slide` leaves in the ring: the end of old content and chunk together.
pub proof fn slide_keeps_end<S: Copy>(before: Vec<S>, chunk: Vec<S>, after: Vec<S>)
    requires
        exists|ring: &mut Vec<S>|
            *ring == before && *final(ring) == after && #[trigger] call_ensures(
                slide::<S>,
                (ring, &chunk),
                (),
            ),
    ensures
        after@.len() <= 1_440_000,
        before@.len() + chunk@.len() <= 1_440_000 ==> after@ == before@ + chunk@,
        before@.len() + chunk@.len() > 1_440_000 ==> {
            &&& after@.len() == 1_440_000
            &&& after@ == (before@ + chunk@).skip(before@.len() + chunk@.len() - 1_440_000)
        },
{
}

/// What `copy_samples` gives: the same samples.
pub proof fn copy_is_same<S: Copy>(samples: Vec<S>, copy: Vec<S>)
    requires
        call_ensures(copy_samples::<S>, (&samples,), copy),
    ensures
        copy@ == samples@,
{
}

/// How a stream is cut into chunks does not show in the window: sliding over two chunks gives the
/// window that one slide over both gives.
pub proof fn slides_compose<S>(ring: Seq<S>, first: Seq<S>, second: Seq<S>)
    ensures
        newest(newest(ring + first) + second) == newest(ring + (first + second)),
{
    let all = ring + (first + second);
    assert(all =~= ring + first + second);
    if (ring + first).len() > RING_MAX {
        assert(newest(ring + first) + second =~= all.skip((ring + first).len() - RING_MAX));
    }
    assert(newest(newest(ring + first) + second) =~= newest(all));
}

/// A chunk that fits in the window is its newest end after the slide.
pub proof fn window_ends_with_chunk<S>(ring: Seq<S>, chunk: Seq<S>)
    requires
        chunk.len() <= RING_MAX,
    ensures
        newest(ring + chunk).len() >= chunk.len(),
        newest(ring + chunk).skip(newest(ring + chunk).len() - chunk.len()) == chunk,
{
    assert(newest(ring + chunk).skip(newest(ring + chunk).len() - chunk.len()) =~= chunk);
}

/// All samples of a stream of chunks, in order.
pub open spec fn stream_samples<S>(chunks: Seq<Seq<S>>) -> Seq<S>
    decreases chunks.len(),
{
    if chunks.len() == 0 {
        Seq::empty()
    } else {
        stream_samples(chunks.drop_last()) + chunks.last()
    }
}

/// The window after it slid over each chunk of a stream in turn.
pub open spec fn window_after<S>(ring: Seq<S>, chunks: Seq<Seq<S>>) -> Seq<S>
    decreases chunks.len(),
{
    if chunks.len() == 0 {
        ring
    } else {
        newest(window_after(ring, chunks.drop_last()) + chunks.last())
    }
}

/// The window always holds the newest samples of all that ever went in, however many chunks they
/// came in.
pub proof fn window_holds_newest_of_stream<S>(ring: Seq<S>, chunks: Seq<Seq<S>>)
    requires
        ring.len() <= RING_MAX,
    ensures
        window_after(ring, chunks) == newest(ring + stream_samples(chunks)),
    decreases chunks.len(),
{
    if chunks.len() == 0 {
        assert(ring + stream_samples(chunks) =~= ring);
    } else {
        window_holds_newest_of_stream(ring, chunks.drop_last());
        slides_compose(ring, stream_samples(chunks.drop_last()), chunks.last());
    }
}

} // verus!
