//! Linear-resampler frame geometry and channel adaptation.
//!
//! The documented low-quality fallback resampler maps `n` input frames at
//! `in_rate` to `round(n * out_rate / in_rate)` output frames and reads,
//! for each output frame, the floor source frame and its successor.  The
//! interpolation arithmetic runs in the host layer; the frame counts, the
//! source indices and the channel copy/fold adaptation are verified here,
//! with samples carried as their 32-bit words.

use vstd::prelude::*;

verus! {

/// Output frame count of the linear resampler: `round(n * out / in)`.
pub open spec fn spec_resample_frame_count(in_frames: int, in_rate: int, out_rate: int) -> int {
    (in_frames * out_rate + in_rate / 2) / in_rate
}

/// Number of output frames the resampler produces.
pub fn resample_frame_count(in_frames: usize, in_rate: u32, out_rate: u32) -> (r: usize)
    requires
        1 <= in_rate < 0x0200_0000,
        out_rate < 0x0200_0000,
        in_frames < 0x1_0000_0000,
        spec_resample_frame_count(in_frames as int, in_rate as int, out_rate as int)
            <= usize::MAX,
    ensures
        r == spec_resample_frame_count(in_frames as int, in_rate as int, out_rate as int),
{
    proof {
        assert((in_frames as int) * (out_rate as int) < 0x1_0000_0000 * 0x0200_0000)
            by (nonlinear_arith)
            requires
                in_frames < 0x1_0000_0000,
                out_rate < 0x0200_0000,
        ;
    }
    let num = (in_frames as u64) * (out_rate as u64) + (in_rate as u64) / 2;
    (num / (in_rate as u64)) as usize
}

/// Source frame whose floor the resampler reads for output frame
/// `out_idx`: `floor(out_idx * in / out)`.
pub open spec fn spec_source_frame(out_idx: int, in_rate: int, out_rate: int) -> int {
    out_idx * in_rate / out_rate
}

/// The base source frame read for one output frame; its successor is
/// clamped to the last input frame by the caller.
pub fn source_frame(out_idx: usize, in_rate: u32, out_rate: u32) -> (r: usize)
    requires
        1 <= out_rate < 0x0200_0000,
        in_rate < 0x0200_0000,
        out_idx < 0x1_0000_0000,
        spec_source_frame(out_idx as int, in_rate as int, out_rate as int) <= usize::MAX,
    ensures
        r == spec_source_frame(out_idx as int, in_rate as int, out_rate as int),
{
    proof {
        assert((out_idx as int) * (in_rate as int) < 0x1_0000_0000 * 0x0200_0000)
            by (nonlinear_arith)
            requires
                out_idx < 0x1_0000_0000,
                in_rate < 0x0200_0000,
        ;
    }
    (((out_idx as u64) * (in_rate as u64)) / (out_rate as u64)) as usize
}

/// What channel adaptation writes: output channel `c` of each frame is
/// input channel `c mod in_channels` of the same frame.
pub open spec fn spec_adapted_sample(
    input: Seq<u32>,
    in_channels: int,
    out_channels: int,
    f: int,
    c: int,
) -> u32 {
    input[f * in_channels + c % in_channels]
}

/// Copy/fold channel adaptation: each output channel repeats the input
/// channels cyclically; equal counts are an identity.
pub fn adapt_channels(input: &Vec<u32>, in_channels: usize, out_channels: usize) -> (r: Vec<u32>)
    ensures
        (in_channels == out_channels || in_channels == 0 || out_channels == 0) ==> r@ == input@,
        (in_channels != out_channels && in_channels >= 1 && out_channels >= 1) ==> {
            let frames = input@.len() as int / in_channels as int;
            &&& r@.len() == frames * out_channels
            &&& forall|f: int, c: int|
                0 <= f < frames && 0 <= c < out_channels ==> #[trigger] r@[f * out_channels + c]
                    == spec_adapted_sample(input@, in_channels as int, out_channels as int, f, c)
        },
{
    if in_channels == out_channels || in_channels == 0 || out_channels == 0 {
        let mut out: Vec<u32> = Vec::new();
        let mut i: usize = 0;
        while i < input.len()
            invariant
                i <= input@.len(),
                out@.len() == i,
                forall|j: int| 0 <= j < i ==> out@[j] == input@[j],
            decreases input@.len() - i,
        {
            out.push(input[i]);
            i += 1;
        }
        proof {
            assert(out@ =~= input@);
        }
        return out;
    }
    let frames = input.len() / in_channels;
    let mut out: Vec<u32> = Vec::new();
    let mut f: usize = 0;
    while f < frames
        invariant
            f <= frames,
            frames == input@.len() as int / in_channels as int,
            input@.len() <= usize::MAX,
            1 <= in_channels,
            1 <= out_channels,
            out@.len() == f * out_channels,
            forall|k: int|
                0 <= k < out@.len() ==> #[trigger] out@[k] == spec_adapted_sample(
                    input@,
                    in_channels as int,
                    out_channels as int,
                    k / out_channels as int,
                    k % out_channels as int,
                ),
        decreases frames - f,
    {
        let mut c: usize = 0;
        proof {
            assert((f + 1) * in_channels <= frames * in_channels && f * in_channels + in_channels
                == (f + 1) * in_channels) by (nonlinear_arith)
                requires
                    f < frames,
                    in_channels >= 1,
            ;
            assert(frames * in_channels <= input@.len()) by (nonlinear_arith)
                requires
                    frames == input@.len() as int / in_channels as int,
                    in_channels >= 1,
            ;
            assert(f * out_channels + out_channels == (f + 1) * out_channels && (f + 1)
                * out_channels <= frames * out_channels) by (nonlinear_arith)
                requires
                    f < frames,
                    out_channels >= 1,
            ;
        }
        while c < out_channels
            invariant
                c <= out_channels,
                f < frames,
                frames == input@.len() as int / in_channels as int,
                input@.len() <= usize::MAX,
                1 <= in_channels,
                1 <= out_channels,
                f * in_channels + in_channels <= input@.len(),
                f * out_channels + out_channels <= frames * out_channels,
                out@.len() == f * out_channels + c,
                forall|k: int|
                    0 <= k < out@.len() ==> #[trigger] out@[k] == spec_adapted_sample(
                        input@,
                        in_channels as int,
                        out_channels as int,
                        k / out_channels as int,
                        k % out_channels as int,
                    ),
            decreases out_channels - c,
        {
            let src = f * in_channels + c % in_channels;
            out.push(input[src]);
            proof {
                let k = f * out_channels + c;
                vstd::arithmetic::div_mod::lemma_fundamental_div_mod_converse(
                    k as int,
                    out_channels as int,
                    f as int,
                    c as int,
                );
            }
            c += 1;
        }
        f += 1;
    }
    proof {
        assert forall|f: int, c: int| 0 <= f < frames && 0 <= c < out_channels implies #[trigger] out@[f
            * out_channels + c] == spec_adapted_sample(
            input@,
            in_channels as int,
            out_channels as int,
            f,
            c,
        ) by {
            assert(f * out_channels + c < frames * out_channels && 0 <= f * out_channels + c)
                by (nonlinear_arith)
                requires
                    0 <= f < frames,
                    0 <= c < out_channels,
            ;
            vstd::arithmetic::div_mod::lemma_fundamental_div_mod_converse(
                f * out_channels + c,
                out_channels as int,
                f,
                c,
            );
        }
    }
    out
}

} // verus!
