//! The mono downmix at the decoder boundary: whatever decodes the container
//! format, its interleaved output is averaged per frame into mono here.

use vstd::prelude::*;

verus! {

use vstd::arithmetic::div_mod::{lemma_fundamental_div_mod, lemma_mod_division_less_than_divisor};

/// Sum of the first `c` samples of frame `f`, as an unbounded integer.
pub open spec fn frame_sum(s: Seq<i16>, f: int, channels: int, c: int) -> int
    decreases c,
{
    if c <= 0 {
        0
    } else {
        frame_sum(s, f, channels, c - 1) + s[f * channels + (c - 1)]
    }
}

/// Truncating division by a positive divisor, as the samples are averaged.
pub open spec fn div_toward_zero(a: int, b: int) -> int {
    if a >= 0 {
        a / b
    } else {
        -((-a) / b)
    }
}

/// An integer clamped to the signed 16-bit range.
pub open spec fn clip16(v: int) -> int {
    if v < -32768 {
        -32768
    } else if v > 32767 {
        32767
    } else {
        v
    }
}

/// The mono sample for frame `f`: the per-frame average, clamped.
pub open spec fn mono_sample(s: Seq<i16>, f: int, channels: int) -> i16 {
    clip16(div_toward_zero(frame_sum(s, f, channels, channels), channels)) as i16
}

/// Interleaved samples mixed down to mono: each whole frame of `channels`
/// samples becomes their average, clamped to the 16-bit range; a trailing
/// partial frame is dropped. One channel or fewer passes through unchanged.
pub open spec fn downmix(s: Seq<i16>, channels: int) -> Seq<i16> {
    if channels <= 1 {
        s
    } else {
        Seq::new((s.len() as int / channels) as nat, |f: int| mono_sample(s, f, channels))
    }
}

proof fn lemma_frame_sum_bound(s: Seq<i16>, f: int, channels: int, c: int)
    requires
        c >= 0,
    ensures
        -32768 * c <= frame_sum(s, f, channels, c) <= 32767 * c,
    decreases c,
{
    if c > 0 {
        lemma_frame_sum_bound(s, f, channels, c - 1);
    }
}

/// Mixes interleaved 16-bit samples down to mono by averaging each frame.
/// `channels` is bounded by the 16-bit channel count a decoder can report,
/// which also keeps the frame sums inside 32 bits.
pub fn downmix_to_mono_i16(samples: Vec<i16>, channels: usize) -> (r: Vec<i16>)
    requires
        channels <= 65535,
    ensures
        r@ == downmix(samples@, channels as int),
{
    if channels <= 1 {
        return samples;
    }
    let ghost s = samples@;
    let n = samples.len();
    let frames = n / channels;
    proof {
        lemma_fundamental_div_mod(n as int, channels as int);
        lemma_mod_division_less_than_divisor(n as int, channels as int);
        assert(frames * channels <= n);
    }
    let mut mono: Vec<i16> = Vec::new();
    let mut f: usize = 0;
    while f < frames
        invariant
            f <= frames,
            1 < channels <= 65535,
            n == s.len(),
            frames == n as int / channels as int,
            frames * channels <= n,
            samples@ == s,
            mono@ =~= Seq::new(f as nat, |i: int| mono_sample(s, i, channels as int)),
        decreases frames - f,
    {
        proof {
            assert(f * channels + channels <= frames * channels) by (nonlinear_arith)
                requires
                    f < frames,
                    channels > 1,
            ;
        }
        let base = f * channels;
        let mut sum: i32 = 0;
        let mut c: usize = 0;
        while c < channels
            invariant
                c <= channels <= 65535,
                n == s.len(),
                samples@ == s,
                base == f * channels,
                base + channels <= n,
                sum == frame_sum(s, f as int, channels as int, c as int),
                -32768 * c <= sum <= 32767 * c,
            decreases channels - c,
        {
            proof {
                lemma_frame_sum_bound(s, f as int, channels as int, c as int);
            }
            sum = sum + samples[base + c] as i32;
            c = c + 1;
        }
        let avg: i32 = if sum >= 0 {
            ((sum as u32) / (channels as u32)) as i32
        } else {
            -((((-sum) as u32) / (channels as u32)) as i32)
        };
        let clamped: i16 = if avg > 32767 {
            32767
        } else if avg < -32768 {
            -32768
        } else {
            avg as i16
        };
        proof {
            assert(clamped == mono_sample(s, f as int, channels as int));
        }
        mono.push(clamped);
        f = f + 1;
    }
    proof {
        assert(mono@ =~= downmix(s, channels as int));
    }
    mono
}

} // verus!
