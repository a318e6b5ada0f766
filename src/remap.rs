//! Conversion between interleaved sample blocks and per-channel sequences,
//! reconciling differing input and output channel counts.

use vstd::arithmetic::div_mod::{lemma_fundamental_div_mod, lemma_fundamental_div_mod_converse};
use vstd::prelude::*;

verus! {

/// Channel `c` of an interleaved block of `frames` frames with `channels`
/// samples each, for every `c` in `0..channels`.
pub open spec fn deinterleaved<T>(samples: Seq<T>, frames: nat, channels: nat) -> Seq<Seq<T>> {
    Seq::new(channels, |c: int| Seq::new(frames, |i: int| samples[i * channels + c]))
}

/// The interleaved block of `frames` frames with `out_channels` slots each:
/// slot `c` of frame `i` holds sample `i` of channel `c` where that channel
/// exists, and `silence` otherwise.
pub open spec fn interleaved<T>(
    per_channel: Seq<Seq<T>>,
    frames: nat,
    out_channels: nat,
    silence: T,
) -> Seq<T> {
    Seq::new(
        frames * out_channels,
        |k: int|
            if k % (out_channels as int) < per_channel.len() {
                per_channel[k % (out_channels as int)][k / (out_channels as int)]
            } else {
                silence
            },
    )
}

/// The sequences that a vector of vectors holds.
pub open spec fn channel_views<T>(v: Seq<Vec<T>>) -> Seq<Seq<T>> {
    v.map_values(|x: Vec<T>| x@)
}

/// Splits an interleaved block of `frames` frames into one sequence per
/// channel, each in temporal order.
pub fn deinterleave<T: Copy>(samples: &Vec<T>, frames: usize, channels: usize) -> (r: Vec<Vec<T>>)
    requires
        samples@.len() == frames * channels,
    ensures
        channel_views(r@) == deinterleaved(samples@, frames as nat, channels as nat),
{
    let total = samples.len();
    let mut out: Vec<Vec<T>> = Vec::with_capacity(channels);
    let mut c: usize = 0;
    while c < channels
        invariant
            c <= channels,
            samples@.len() == frames * channels,
            total == frames * channels,
            out@.len() == c,
            forall|j: int|
                0 <= j < c ==> #[trigger] out@[j]@ == deinterleaved(
                    samples@,
                    frames as nat,
                    channels as nat,
                )[j],
        decreases channels - c,
    {
        let mut column: Vec<T> = Vec::with_capacity(frames);
        let mut i: usize = 0;
        while i < frames
            invariant
                i <= frames,
                c < channels,
                samples@.len() == frames * channels,
                total == frames * channels,
                column@.len() == i,
                forall|j: int| 0 <= j < i ==> #[trigger] column@[j] == samples@[j * channels + c],
            decreases frames - i,
        {
            proof {
                assert(i * channels + c < frames * channels) by (nonlinear_arith)
                    requires
                        i < frames,
                        c < channels,
                ;
            }
            column.push(samples[i * channels + c]);
            i = i + 1;
        }
        assert(column@ =~= deinterleaved(samples@, frames as nat, channels as nat)[c as int]);
        out.push(column);
        c = c + 1;
    }
    assert(channel_views(out@) =~= deinterleaved(samples@, frames as nat, channels as nat));
    out
}

/// Builds an interleaved block of `frames` frames with `out_channels` slots
/// each: the first `min(per_channel.len(), out_channels)` slots of a frame
/// carry the corresponding channel's sample, the remaining slots carry
/// `silence`. Channels beyond `out_channels` are dropped.
pub fn interleave<T: Copy>(
    per_channel: &Vec<Vec<T>>,
    frames: usize,
    out_channels: usize,
    silence: T,
) -> (r: Vec<T>)
    requires
        out_channels > 0,
        frames * out_channels <= usize::MAX,
        forall|c: int| 0 <= c < per_channel@.len() ==> #[trigger] per_channel@[c]@.len() >= frames,
    ensures
        r@ == interleaved(channel_views(per_channel@), frames as nat, out_channels as nat, silence),
{
    let ghost target = interleaved(
        channel_views(per_channel@),
        frames as nat,
        out_channels as nat,
        silence,
    );
    let mut out: Vec<T> = Vec::with_capacity(frames * out_channels);
    let mut i: usize = 0;
    while i < frames
        invariant
            i <= frames,
            out_channels > 0,
            frames * out_channels <= usize::MAX,
            forall|c: int|
                0 <= c < per_channel@.len() ==> #[trigger] per_channel@[c]@.len() >= frames,
            target == interleaved(
                channel_views(per_channel@),
                frames as nat,
                out_channels as nat,
                silence,
            ),
            out@.len() == i * out_channels,
            forall|k: int| 0 <= k < out@.len() ==> #[trigger] out@[k] == target[k],
        decreases frames - i,
    {
        let mut c: usize = 0;
        while c < out_channels
            invariant
                i < frames,
                c <= out_channels,
                frames * out_channels <= usize::MAX,
                forall|c: int|
                    0 <= c < per_channel@.len() ==> #[trigger] per_channel@[c]@.len() >= frames,
                target == interleaved(
                    channel_views(per_channel@),
                    frames as nat,
                    out_channels as nat,
                    silence,
                ),
                out@.len() == i * out_channels + c,
                forall|k: int| 0 <= k < out@.len() ==> #[trigger] out@[k] == target[k],
            decreases out_channels - c,
        {
            proof {
                let k = i * out_channels + c;
                lemma_fundamental_div_mod_converse(
                    k as int,
                    out_channels as int,
                    i as int,
                    c as int,
                );
                assert(k < frames * out_channels) by (nonlinear_arith)
                    requires
                        i < frames,
                        c < out_channels,
                        k == i * out_channels + c,
                ;
            }
            if c < per_channel.len() {
                out.push(per_channel[c][i]);
            } else {
                out.push(silence);
            }
            c = c + 1;
        }
        proof {
            assert((i + 1) * out_channels == i * out_channels + out_channels) by (nonlinear_arith);
        }
        i = i + 1;
    }
    assert(out@ =~= target);
    out
}

/// Position of slot `c` of frame `i` in an interleaved block whose frames
/// have `width` slots.
pub open spec fn frame_slot(i: int, c: int, width: int) -> int {
    i * width + c
}

proof fn lemma_slot_position(i: int, c: int, width: int, frames: int)
    requires
        0 <= i < frames,
        0 <= c < width,
    ensures
        frame_slot(i, c, width) / width == i,
        frame_slot(i, c, width) % width == c,
        0 <= frame_slot(i, c, width) < frames * width,
{
    lemma_fundamental_div_mod_converse(frame_slot(i, c, width), width, i, c);
    assert(0 <= i * width + c < frames * width) by (nonlinear_arith)
        requires
            0 <= i < frames,
            0 <= c < width,
    ;
}

/// Splitting a block into its channels and interleaving them again with the
/// same channel count gives back the block, sample for sample.
pub proof fn lemma_round_trip<T>(samples: Seq<T>, frames: nat, channels: nat, silence: T)
    requires
        channels > 0,
        samples.len() == frames * channels,
    ensures
        interleaved(deinterleaved(samples, frames, channels), frames, channels, silence) == samples,
{
    let d = deinterleaved(samples, frames, channels);
    let r = interleaved(d, frames, channels, silence);
    assert forall|k: int| 0 <= k < samples.len() implies r[k] == samples[k] by {
        let w = channels as int;
        lemma_fundamental_div_mod(k, w);
        let i = k / w;
        let c = k % w;
        assert(0 <= i < frames) by (nonlinear_arith)
            requires
                k == w * i + c,
                0 <= c < w,
                0 <= k < frames * w,
        ;
        assert(k == i * w + c) by (nonlinear_arith)
            requires
                k == w * i + c,
        ;
    }
    assert(r =~= samples);
}

/// With more output slots than channels, every slot of every frame past the
/// last channel holds `silence`.
pub proof fn lemma_extra_slots_silent<T>(
    per_channel: Seq<Seq<T>>,
    frames: nat,
    out_channels: nat,
    silence: T,
)
    requires
        out_channels > per_channel.len(),
    ensures
        forall|i: int, c: int|
            0 <= i < frames && per_channel.len() <= c < out_channels ==> #[trigger] interleaved(
                per_channel,
                frames,
                out_channels,
                silence,
            )[frame_slot(i, c, out_channels as int)] == silence,
{
    assert forall|i: int, c: int|
        0 <= i < frames && per_channel.len() <= c < out_channels implies #[trigger] interleaved(
            per_channel,
            frames,
            out_channels,
            silence,
        )[frame_slot(i, c, out_channels as int)] == silence by {
        lemma_slot_position(i, c, out_channels as int, frames as int);
    }
}

/// With fewer output slots than channels, slot `c` of each frame carries
/// channel `c`, and the channels from `out_channels` on are dropped: the
/// block is the one built from the first `out_channels` channels alone.
pub proof fn lemma_surplus_channels_dropped<T>(
    per_channel: Seq<Seq<T>>,
    frames: nat,
    out_channels: nat,
    silence: T,
)
    requires
        0 < out_channels < per_channel.len(),
    ensures
        forall|i: int, c: int|
            0 <= i < frames && 0 <= c < out_channels ==> #[trigger] interleaved(
                per_channel,
                frames,
                out_channels,
                silence,
            )[frame_slot(i, c, out_channels as int)] == per_channel[c][i],
        interleaved(per_channel, frames, out_channels, silence) == interleaved(
            per_channel.take(out_channels as int),
            frames,
            out_channels,
            silence,
        ),
{
    assert forall|i: int, c: int| 0 <= i < frames && 0 <= c < out_channels implies #[trigger] interleaved(
        per_channel,
        frames,
        out_channels,
        silence,
    )[frame_slot(i, c, out_channels as int)] == per_channel[c][i] by {
        lemma_slot_position(i, c, out_channels as int, frames as int);
    }
    let w = out_channels as int;
    assert forall|k: int| 0 <= k < frames * out_channels implies #[trigger] (k % w) < out_channels by {
        lemma_fundamental_div_mod(k, w);
    }
    assert(interleaved(per_channel, frames, out_channels, silence) =~= interleaved(
        per_channel.take(out_channels as int),
        frames,
        out_channels,
        silence,
    ));
}

} // verus!
