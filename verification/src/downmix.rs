//! Downmixing of a planar packet to one mono chunk.

use vstd::prelude::*;

verus! {

/// How samples are summed and averaged. The sample type and its arithmetic are the caller's, so the
/// same downmix serves floating-point and integer streams.
pub struct Arithmetic<S, A, D> {
    /// The sum of no samples.
    pub zero: S,
    /// Adds a sample to a running sum.
    pub add: A,
    /// Divides a sum by a channel count.
    pub divide: D,
}

impl<S, A: Fn(S, S) -> S, D: Fn(S, usize) -> S> Arithmetic<S, A, D> {
    /// Both operations accept whatever they are given.
    pub open spec fn is_total(self) -> bool {
        &&& forall|sum: S, sample: S| call_requires(self.add, (sum, sample))
        &&& forall|sum: S, channels: usize| call_requires(self.divide, (sum, channels))
    }

    /// `total` comes out when `terms` are added to zero one after the other, first to last.
    pub open spec fn sums_to(self, terms: Seq<S>, total: S) -> bool
        decreases terms.len(),
    {
        if terms.len() == 0 {
            total == self.zero
        } else {
            exists|before: S|
                self.sums_to(terms.drop_last(), before) && #[trigger] call_ensures(
                    self.add,
                    (before, terms.last()),
                    total,
                )
        }
    }

    /// `sample` comes out when the sum of `terms` is divided by `channels`.
    pub open spec fn averages_to(self, terms: Seq<S>, channels: usize, sample: S) -> bool {
        exists|total: S|
            #[trigger] self.sums_to(terms, total) && call_ensures(
                self.divide,
                (total, channels),
                sample,
            )
    }
}

/// The samples of one frame, in channel order: the sample at `frame` of each of the first `channels`
/// planes, missing planes left out.
pub open spec fn frame_terms<S>(planes: Seq<Option<&[S]>>, channels: nat, frame: int) -> Seq<S>
    decreases channels,
{
    if channels == 0 {
        Seq::empty()
    } else {
        let before = frame_terms(planes, (channels - 1) as nat, frame);
        match planes[channels - 1] {
            Some(plane) => before.push(plane@[frame]),
            None => before,
        }
    }
}

/// The packet holds `channels` planes, and each plane that is there holds `frames` samples.
pub open spec fn covers<S>(planes: Seq<Option<&[S]>>, frames: nat, channels: nat) -> bool {
    &&& planes.len() >= channels
    &&& forall|c: int|
        0 <= c < channels ==> (#[trigger] planes[c] matches Some(plane) ==> plane@.len() >= frames)
}

/// `mono` is a downmix of the packet: one sample for each frame, which is the sum over the planes
/// that are there, divided by the number of all channels.
pub open spec fn is_downmix<S, A: Fn(S, S) -> S, D: Fn(S, usize) -> S>(
    arithmetic: Arithmetic<S, A, D>,
    planes: Seq<Option<&[S]>>,
    frames: usize,
    channels: usize,
    mono: Seq<S>,
) -> bool {
    &&& mono.len() == frames
    &&& forall|i: int|
        0 <= i < frames ==> arithmetic.averages_to(
            frame_terms(planes, channels as nat, i),
            channels,
            #[trigger] mono[i],
        )
}

/// Averages one frame across the channels.
fn mix_frame<S: Copy, A: Fn(S, S) -> S, D: Fn(S, usize) -> S>(
    arithmetic: &Arithmetic<S, A, D>,
    planes: &[Option<&[S]>],
    channels: usize,
    frame: usize,
) -> (sample: S)
    requires
        arithmetic.is_total(),
        planes@.len() >= channels,
        forall|c: int|
            0 <= c < channels ==> (#[trigger] planes@[c] matches Some(plane) ==> plane@.len()
                > frame),
    ensures
        arithmetic.averages_to(
            frame_terms(planes@, channels as nat, frame as int),
            channels,
            sample,
        ),
{
    let mut sum = arithmetic.zero;
    let mut c: usize = 0;
    while c < channels
        invariant
            c <= channels,
            arithmetic.is_total(),
            planes@.len() >= channels,
            forall|k: int|
                0 <= k < channels ==> (#[trigger] planes@[k] matches Some(plane) ==> plane@.len()
                    > frame),
            arithmetic.sums_to(frame_terms(planes@, c as nat, frame as int), sum),
        decreases channels - c,
    {
        if let Some(plane) = planes[c] {
            let ghost before = sum;
            let ghost terms = frame_terms(planes@, c as nat, frame as int);
            sum = (arithmetic.add)(sum, plane[frame]);
            proof {
                let longer = terms.push(plane@[frame as int]);
                assert(longer.drop_last() =~= terms);
                assert(arithmetic.sums_to(longer.drop_last(), before));
                assert(frame_terms(planes@, (c + 1) as nat, frame as int) == longer);
                assert(call_ensures(arithmetic.add, (before, longer.last()), sum));
            }
        }
        c += 1;
    }
    (arithmetic.divide)(sum, channels)
}

/// Downmixes a planar packet to mono by averaging across the channels. A missing plane adds nothing
/// to the sum but still counts as a channel.
pub fn downmix<S: Copy, A: Fn(S, S) -> S, D: Fn(S, usize) -> S>(
    arithmetic: &Arithmetic<S, A, D>,
    planes: &[Option<&[S]>],
    frames: usize,
    channels: usize,
) -> (mono: Vec<S>)
    requires
        arithmetic.is_total(),
        covers(planes@, frames as nat, channels as nat),
    ensures
        is_downmix(*arithmetic, planes@, frames, channels, mono@),
{
    let mut mono: Vec<S> = Vec::with_capacity(frames);
    let mut i: usize = 0;
    while i < frames
        invariant
            i <= frames,
            arithmetic.is_total(),
            covers(planes@, frames as nat, channels as nat),
            is_downmix(*arithmetic, planes@, i, channels, mono@),
        decreases frames - i,
    {
        let sample = mix_frame(arithmetic, planes, channels, i);
        mono.push(sample);
        i += 1;
    }
    mono
}

/// How many frames and channels a packet announces, or `None` where it holds no samples at all.
pub fn packet_shape(frames: i32, channels: i32) -> (shape: Option<(usize, usize)>)
    ensures
        shape == (if frames <= 0 || channels <= 0 {
            None
        } else {
            Some((frames as usize, channels as usize))
        }),
{
    if frames <= 0 || channels <= 0 {
        None
    } else {
        Some((frames as usize, channels as usize))
    }
}

/// Downmixes a planar packet to mono as it comes from the stream, or gives `None` where it holds no
/// samples at all: there are no planes, or one of the counts is not positive.
pub fn downmix_packet<S: Copy, A: Fn(S, S) -> S, D: Fn(S, usize) -> S>(
    arithmetic: &Arithmetic<S, A, D>,
    data: Option<&[Option<&[S]>]>,
    frames: i32,
    channels: i32,
) -> (mono: Option<Vec<S>>)
    requires
        arithmetic.is_total(),
        frames > 0 && channels > 0 ==> (data matches Some(planes) ==> covers(
            planes@,
            frames as nat,
            channels as nat,
        )),
    ensures
        mono is Some <==> frames > 0 && channels > 0 && data is Some,
        mono matches Some(mono) ==> is_downmix(
            *arithmetic,
            data->0@,
            frames as usize,
            channels as usize,
            mono@,
        ),
{
    match (packet_shape(frames, channels), data) {
        (Some((frames, channels)), Some(planes)) => Some(
            downmix(arithmetic, planes, frames, channels),
        ),
        _ => None,
    }
}

/// The two operations have one result for each input.
pub open spec fn is_functional<S, A: Fn(S, S) -> S, D: Fn(S, usize) -> S>(
    arithmetic: Arithmetic<S, A, D>,
) -> bool {
    &&& forall|sum: S, sample: S, one: S, other: S|
        #[trigger] call_ensures(arithmetic.add, (sum, sample), one) && #[trigger] call_ensures(
            arithmetic.add,
            (sum, sample),
            other,
        ) ==> one == other
    &&& forall|sum: S, channels: usize, one: S, other: S|
        #[trigger] call_ensures(arithmetic.divide, (sum, channels), one)
            && #[trigger] call_ensures(arithmetic.divide, (sum, channels), other) ==> one == other
}

/// Samples have one sum only.
proof fn sum_is_unique<S, A: Fn(S, S) -> S, D: Fn(S, usize) -> S>(
    arithmetic: Arithmetic<S, A, D>,
    terms: Seq<S>,
    one: S,
    other: S,
)
    requires
        is_functional(arithmetic),
        arithmetic.sums_to(terms, one),
        arithmetic.sums_to(terms, other),
    ensures
        one == other,
    decreases terms.len(),
{
    if terms.len() > 0 {
        let before_one = choose|before: S|
            arithmetic.sums_to(terms.drop_last(), before) && #[trigger] call_ensures(
                arithmetic.add,
                (before, terms.last()),
                one,
            );
        let before_other = choose|before: S|
            arithmetic.sums_to(terms.drop_last(), before) && #[trigger] call_ensures(
                arithmetic.add,
                (before, terms.last()),
                other,
            );
        sum_is_unique(arithmetic, terms.drop_last(), before_one, before_other);
    }
}

/// A packet has one downmix only, where addition and division have one result each.
pub proof fn downmix_is_unique<S, A: Fn(S, S) -> S, D: Fn(S, usize) -> S>(
    arithmetic: Arithmetic<S, A, D>,
    planes: Seq<Option<&[S]>>,
    frames: usize,
    channels: usize,
    one: Seq<S>,
    other: Seq<S>,
)
    requires
        is_functional(arithmetic),
        is_downmix(arithmetic, planes, frames, channels, one),
        is_downmix(arithmetic, planes, frames, channels, other),
    ensures
        one == other,
{
    assert forall|i: int| 0 <= i < frames implies one[i] == other[i] by {
        let terms = frame_terms(planes, channels as nat, i);
        assert(arithmetic.averages_to(terms, channels, one[i]));
        assert(arithmetic.averages_to(terms, channels, other[i]));
        let sum_one = choose|total: S|
            #[trigger] arithmetic.sums_to(terms, total) && call_ensures(
                arithmetic.divide,
                (total, channels),
                one[i],
            );
        let sum_other = choose|total: S|
            #[trigger] arithmetic.sums_to(terms, total) && call_ensures(
                arithmetic.divide,
                (total, channels),
                other[i],
            );
        sum_is_unique(arithmetic, terms, sum_one, sum_other);
    }
    assert(one =~= other);
}

/// Where addition is `plus`, the sum of samples is the fold of `plus` over them, from zero on.
proof fn sum_is_fold<S, A: Fn(S, S) -> S, D: Fn(S, usize) -> S>(
    arithmetic: Arithmetic<S, A, D>,
    plus: spec_fn(S, S) -> S,
    terms: Seq<S>,
    total: S,
)
    requires
        forall|sum: S, sample: S, result: S| #[trigger]
            call_ensures(arithmetic.add, (sum, sample), result) ==> result == plus(sum, sample),
        arithmetic.sums_to(terms, total),
    ensures
        total == terms.fold_left(arithmetic.zero, plus),
    decreases terms.len(),
{
    if terms.len() > 0 {
        let before = choose|before: S|
            arithmetic.sums_to(terms.drop_last(), before) && #[trigger] call_ensures(
                arithmetic.add,
                (before, terms.last()),
                total,
            );
        sum_is_fold(arithmetic, plus, terms.drop_last(), before);
    }
}

/// Where addition is `plus` and division is `over`, each sample of a downmix is the fold of `plus`
/// over the samples of its frame, divided by the number of channels.
pub proof fn downmix_averages_frames<S, A: Fn(S, S) -> S, D: Fn(S, usize) -> S>(
    arithmetic: Arithmetic<S, A, D>,
    plus: spec_fn(S, S) -> S,
    over: spec_fn(S, usize) -> S,
    planes: Seq<Option<&[S]>>,
    frames: usize,
    channels: usize,
    mono: Seq<S>,
)
    requires
        forall|sum: S, sample: S, result: S| #[trigger]
            call_ensures(arithmetic.add, (sum, sample), result) ==> result == plus(sum, sample),
        forall|sum: S, count: usize, result: S| #[trigger]
            call_ensures(arithmetic.divide, (sum, count), result) ==> result == over(sum, count),
        is_downmix(arithmetic, planes, frames, channels, mono),
    ensures
        mono == Seq::new(
            frames as nat,
            |i: int|
                over(
                    frame_terms(planes, channels as nat, i).fold_left(arithmetic.zero, plus),
                    channels,
                ),
        ),
{
    let averages = Seq::new(
        frames as nat,
        |i: int|
            over(
                frame_terms(planes, channels as nat, i).fold_left(arithmetic.zero, plus),
                channels,
            ),
    );
    assert forall|i: int| 0 <= i < frames implies mono[i] == averages[i] by {
        let terms = frame_terms(planes, channels as nat, i);
        assert(arithmetic.averages_to(terms, channels, mono[i]));
        let total = choose|total: S|
            #[trigger] arithmetic.sums_to(terms, total) && call_ensures(
                arithmetic.divide,
                (total, channels),
                mono[i],
            );
        sum_is_fold(arithmetic, plus, terms, total);
    }
    assert(mono =~= averages);
}

/// `first` and `second` are the first `n` and the next `m` frames of `whole`: each channel has the
/// same samples in the parts as in the whole, and is missing in both where it is missing in it.
pub open spec fn splits_packet<S>(
    whole: Seq<Option<&[S]>>,
    first: Seq<Option<&[S]>>,
    second: Seq<Option<&[S]>>,
    n: nat,
    m: nat,
    channels: nat,
) -> bool {
    forall|c: int|
        0 <= c < channels ==> match (#[trigger] whole[c], first[c], second[c]) {
            (Some(all), Some(start), Some(rest)) => {
                &&& forall|i: int| 0 <= i < n ==> #[trigger] start@[i] == all@[i]
                &&& forall|i: int| 0 <= i < m ==> #[trigger] rest@[i] == all@[n + i]
            },
            (None, None, None) => true,
            _ => false,
        }
}

/// A frame of a part is the frame of the whole that it was cut from.
proof fn part_has_frames_of_whole<S>(
    whole: Seq<Option<&[S]>>,
    first: Seq<Option<&[S]>>,
    second: Seq<Option<&[S]>>,
    n: nat,
    m: nat,
    channels: nat,
    frame: int,
)
    requires
        splits_packet(whole, first, second, n, m, channels),
    ensures
        0 <= frame < n ==> frame_terms(first, channels, frame) == frame_terms(
            whole,
            channels,
            frame,
        ),
        0 <= frame < m ==> frame_terms(second, channels, frame) == frame_terms(
            whole,
            channels,
            n + frame,
        ),
    decreases channels,
{
    if channels > 0 {
        part_has_frames_of_whole(whole, first, second, n, m, (channels - 1) as nat, frame);
    }
}

/// How a stream is cut into packets does not show in its downmix: the downmixes of two packets, one
/// after the other, are a downmix of both packets in one.
pub proof fn downmixes_compose<S, A: Fn(S, S) -> S, D: Fn(S, usize) -> S>(
    arithmetic: Arithmetic<S, A, D>,
    whole: Seq<Option<&[S]>>,
    first: Seq<Option<&[S]>>,
    second: Seq<Option<&[S]>>,
    n: usize,
    m: usize,
    channels: usize,
    x: Seq<S>,
    y: Seq<S>,
)
    requires
        n + m <= usize::MAX,
        splits_packet(whole, first, second, n as nat, m as nat, channels as nat),
        is_downmix(arithmetic, first, n, channels, x),
        is_downmix(arithmetic, second, m, channels, y),
    ensures
        is_downmix(arithmetic, whole, (n + m) as usize, channels, x + y),
{
    let both = x + y;
    assert forall|i: int| 0 <= i < n + m implies arithmetic.averages_to(
        frame_terms(whole, channels as nat, i),
        channels,
        #[trigger] both[i],
    ) by {
        if i < n {
            part_has_frames_of_whole(
                whole,
                first,
                second,
                n as nat,
                m as nat,
                channels as nat,
                i,
            );
            assert(both[i] == x[i]);
        } else {
            part_has_frames_of_whole(
                whole,
                first,
                second,
                n as nat,
                m as nat,
                channels as nat,
                i - n,
            );
            assert(both[i] == y[i - n]);
        }
    }
}

/// Every channel counts, however many there are: where all planes are there, the samples of a frame
/// are the samples of all channels, in channel order.
pub proof fn every_channel_counts<S>(planes: Seq<Option<&[S]>>, channels: nat, frame: int)
    requires
        forall|c: int| 0 <= c < channels ==> #[trigger] planes[c] is Some,
    ensures
        frame_terms(planes, channels, frame) == Seq::new(
            channels,
            |c: int| (planes[c]->0)@[frame],
        ),
    decreases channels,
{
    if channels > 0 {
        every_channel_counts(planes, (channels - 1) as nat, frame);
        assert(planes[channels - 1] is Some);
    }
    assert(frame_terms(planes, channels, frame) =~= Seq::new(
        channels,
        |c: int| (planes[c]->0)@[frame],
    ));
}

/// A missing plane takes away its own sample and no other: the samples of a frame are those of the
/// packet without that channel.
pub proof fn missing_plane_adds_nothing<S>(
    planes: Seq<Option<&[S]>>,
    channels: nat,
    missing: int,
    frame: int,
)
    requires
        0 <= missing < channels <= planes.len(),
        planes[missing] is None,
    ensures
        frame_terms(planes, channels, frame) == frame_terms(
            planes.remove(missing),
            (channels - 1) as nat,
            frame,
        ),
    decreases channels,
{
    if missing == channels - 1 {
        frame_terms_look_back(planes, planes.remove(missing), (channels - 1) as nat, frame);
    } else {
        missing_plane_adds_nothing(planes, (channels - 1) as nat, missing, frame);
        assert(planes.remove(missing)[channels - 2] == planes[channels - 1]);
    }
}

/// The samples of a frame hang on the counted planes alone.
proof fn frame_terms_look_back<S>(
    one: Seq<Option<&[S]>>,
    other: Seq<Option<&[S]>>,
    channels: nat,
    frame: int,
)
    requires
        forall|c: int| 0 <= c < channels ==> #[trigger] one[c] == other[c],
    ensures
        frame_terms(one, channels, frame) == frame_terms(other, channels, frame),
    decreases channels,
{
    if channels > 0 {
        frame_terms_look_back(one, other, (channels - 1) as nat, frame);
        assert(one[channels - 1] == other[channels - 1]);
    }
}

/// The samples at `frame` of those of the first `channels` planes that are there.
pub open spec fn present_samples<S>(
    planes: Seq<Option<&[S]>>,
    channels: int,
    frame: int,
) -> Seq<S> {
    planes.take(channels).filter(|plane: Option<&[S]>| plane is Some).map_values(
        |plane: Option<&[S]>| (plane->0)@[frame],
    )
}

/// The samples of a frame are the samples of the planes that are there, each of them once.
pub proof fn frame_has_present_samples<S>(planes: Seq<Option<&[S]>>, channels: nat, frame: int)
    requires
        channels <= planes.len(),
    ensures
        frame_terms(planes, channels, frame) == present_samples(planes, channels as int, frame),
    decreases channels,
{
    reveal(Seq::filter);
    if channels > 0 {
        frame_has_present_samples(planes, (channels - 1) as nat, frame);
        assert(planes.take(channels as int).drop_last() =~= planes.take(channels - 1));
    }
    assert(frame_terms(planes, channels, frame) =~= present_samples(
        planes,
        channels as int,
        frame,
    ));
}

/// What `downmix` gives, where addition is `plus` and division is `over`: one sample for each frame,
/// which is the sum of the samples of all planes that are there, divided by the number of all
/// channels.
pub proof fn downmix_gives_averages<S: Copy, A: Fn(S, S) -> S, D: Fn(S, usize) -> S>(
    arithmetic: Arithmetic<S, A, D>,
    plus: spec_fn(S, S) -> S,
    over: spec_fn(S, usize) -> S,
    planes: &[Option<&[S]>],
    frames: usize,
    channels: usize,
    mono: Vec<S>,
)
    requires
        forall|sum: S, sample: S, result: S| #[trigger]
            call_ensures(arithmetic.add, (sum, sample), result) ==> result == plus(sum, sample),
        forall|sum: S, count: usize, result: S| #[trigger]
            call_ensures(arithmetic.divide, (sum, count), result) ==> result == over(sum, count),
        channels <= planes@.len(),
        call_ensures(downmix::<S, A, D>, (&arithmetic, planes, frames, channels), mono),
    ensures
        mono@.len() == frames,
        forall|i: int|
            0 <= i < frames ==> #[trigger] mono@[i] == over(
                present_samples(planes@, channels as int, i).fold_left(arithmetic.zero, plus),
                channels,
            ),
{
    downmix_averages_frames(arithmetic, plus, over, planes@, frames, channels, mono@);
    assert forall|i: int| 0 <= i < frames implies #[trigger] mono@[i] == over(
        present_samples(planes@, channels as int, i).fold_left(arithmetic.zero, plus),
        channels,
    ) by {
        frame_has_present_samples(planes@, channels as nat, i);
    }
}

/// What `downmix_packet` gives, where addition is `plus` and division is `over`: the averages of the
/// frames of a packet that has planes, frames and channels, and nothing for any other.
pub proof fn downmix_packet_gives_averages<S: Copy, A: Fn(S, S) -> S, D: Fn(S, usize) -> S>(
    arithmetic: Arithmetic<S, A, D>,
    plus: spec_fn(S, S) -> S,
    over: spec_fn(S, usize) -> S,
    data: Option<&[Option<&[S]>]>,
    frames: i32,
    channels: i32,
    mono: Option<Vec<S>>,
)
    requires
        forall|sum: S, sample: S, result: S| #[trigger]
            call_ensures(arithmetic.add, (sum, sample), result) ==> result == plus(sum, sample),
        forall|sum: S, count: usize, result: S| #[trigger]
            call_ensures(arithmetic.divide, (sum, count), result) ==> result == over(sum, count),
        data matches Some(planes) ==> channels <= planes@.len(),
        call_ensures(downmix_packet::<S, A, D>, (&arithmetic, data, frames, channels), mono),
    ensures
        mono is None <==> data is None || frames <= 0 || channels <= 0,
        mono matches Some(mono) ==> {
            &&& mono@.len() == frames
            &&& forall|i: int|
                0 <= i < frames ==> #[trigger] mono@[i] == over(
                    present_samples((data->0)@, channels as int, i).fold_left(
                        arithmetic.zero,
                        plus,
                    ),
                    channels as usize,
                )
        },
{
    if let Some(mono) = mono {
        let planes = (data->0)@;
        downmix_averages_frames(
            arithmetic,
            plus,
            over,
            planes,
            frames as usize,
            channels as usize,
            mono@,
        );
        assert forall|i: int| 0 <= i < frames implies #[trigger] mono@[i] == over(
            present_samples(planes, channels as int, i).fold_left(arithmetic.zero, plus),
            channels as usize,
        ) by {
            frame_has_present_samples(planes, channels as nat, i);
        }
    }
}

/// A packet whose planes are long enough can be downmixed, whichever of them are missing.
pub proof fn long_planes_cover<S>(planes: Seq<Option<&[S]>>, frames: nat, channels: nat)
    requires
        planes.len() >= channels,
        forall|c: int|
            0 <= c < channels && #[trigger] planes[c] is Some ==> (planes[c]->0)@.len() >= frames,
    ensures
        covers(planes, frames, channels),
{
}

/// `downmix` and `downmix_packet` take any packet with a plane for each channel where each plane that
/// is there holds all frames; a packet without planes, frames or channels needs nothing.
pub proof fn downmix_takes_long_planes<S: Copy, A: Fn(S, S) -> S, D: Fn(S, usize) -> S>(
    arithmetic: Arithmetic<S, A, D>,
    planes: &[Option<&[S]>],
    frames: i32,
    channels: i32,
)
    requires
        forall|sum: S, sample: S| #[trigger] call_requires(arithmetic.add, (sum, sample)),
        forall|sum: S, count: usize| #[trigger] call_requires(arithmetic.divide, (sum, count)),
    ensures
        call_requires(downmix_packet::<S, A, D>, (&arithmetic, None, frames, channels)),
        frames <= 0 || channels <= 0 ==> call_requires(
            downmix_packet::<S, A, D>,
            (&arithmetic, Some(planes), frames, channels),
        ),
        frames > 0 && channels > 0 && planes@.len() >= channels && (forall|c: int|
            0 <= c < channels && (#[trigger] planes@[c]) is Some ==> (planes@[c]->0)@.len()
                >= frames) ==> call_requires(
            downmix_packet::<S, A, D>,
            (&arithmetic, Some(planes), frames, channels),
        ) && call_requires(
            downmix::<S, A, D>,
            (&arithmetic, planes, frames as usize, channels as usize),
        ),
{
    if frames > 0 && channels > 0 && planes@.len() >= channels && (forall|c: int|
        0 <= c < channels && (#[trigger] planes@[c]) is Some ==> (planes@[c]->0)@.len() >= frames) {
        long_planes_cover(planes@, frames as nat, channels as nat);
    }
}

/// What `packet_shape` gives: both counts as they are, or nothing where one of them is not positive.
pub proof fn packet_shape_keeps_counts(frames: i32, channels: i32, shape: Option<(usize, usize)>)
    requires
        call_ensures(packet_shape, (frames, channels), shape),
    ensures
        shape is None <==> frames < 1 || channels < 1,
        shape matches Some(counts) ==> counts.0 == frames && counts.1 == channels,
{
}

} // verus!
