use vstd::prelude::*;
use crate::shift::{compute_shift_frames, half_second_frames, shift_frames};

verus! {

/// Frames the separation model takes in one chunk.
pub const TARGET_FRAMES: usize = 343_980;

/// Number of chunks starting every `stride` frames from frame 0 that
/// are needed to reach every one of `total_frames` frames.
pub open spec fn chunk_count(total_frames: nat, stride: nat) -> nat {
    if total_frames == 0 {
        0
    } else {
        ((total_frames - 1) as nat / stride + 1) as nat
    }
}

/// `a + b`, or `usize::MAX` where that overflows.
pub open spec fn saturating_sum(a: nat, b: nat) -> nat {
    if a + b > usize::MAX {
        usize::MAX as nat
    } else {
        a + b
    }
}

/// Frames of a chunk of `chunk_frames` frames starting at `offset` that
/// fall inside a track of `total_frames` frames.
pub open spec fn frames_in_track(offset: nat, chunk_frames: nat, total_frames: nat) -> nat {
    if offset >= total_frames {
        0
    } else if total_frames - offset < chunk_frames {
        (total_frames - offset) as nat
    } else {
        chunk_frames
    }
}

/// The chunk stride came out as zero, which would never advance.
#[derive(Clone, Copy, Debug, PartialEq, Eq, Structural)]
pub struct ZeroStride;

/// Start frames of the chunks that cover `total_frames` frames, one every
/// `stride` frames from frame 0.
pub fn chunk_offsets(total_frames: usize, stride: usize) -> (r: Result<Vec<usize>, ZeroStride>)
    ensures
        stride == 0 <==> r is Err,
        r matches Ok(offs) ==> {
            &&& offs.len() == chunk_count(total_frames as nat, stride as nat)
            &&& forall|k: int| 0 <= k < offs.len() ==> offs[k] == k * stride
            &&& forall|k: int| 0 <= k < offs.len() ==> #[trigger] offs[k] < total_frames
            &&& (offs.len() == 0 <==> total_frames == 0)
            &&& offs.len() > 0 ==> offs[offs.len() - 1] + stride >= total_frames
        },
{
    proof {
        if stride > 0 {
            lemma_chunk_count_exact(total_frames as nat, stride as nat);
        }
    }
    if stride == 0 {
        return Err(ZeroStride);
    }
    let mut offs: Vec<usize> = Vec::new();
    if total_frames == 0 {
        return Ok(offs);
    }
    let mut off: usize = 0;
    let ghost n = chunk_count(total_frames as nat, stride as nat);
    assert(0 * stride == 0);
    assert(n >= 1);
    loop
        invariant_except_break
            off == offs.len() * stride,
            off < total_frames,
            offs.len() < n,
        invariant
            stride > 0,
            total_frames > 0,
            n == chunk_count(total_frames as nat, stride as nat),
            forall|k: int| 0 <= k < offs.len() ==> offs[k] == k * stride,
        ensures
            offs.len() == n,
            forall|k: int| 0 <= k < offs.len() ==> offs[k] == k * stride,
        decreases total_frames - off,
    {
        proof {
            let c = offs.len() as int;
            assert((c + 1) * stride == c * stride + stride) by (nonlinear_arith);
            vstd::arithmetic::div_mod::lemma_fundamental_div_mod(
                (total_frames - 1) as int,
                stride as int,
            );
            let q = (total_frames - 1) as int / stride as int;
            let m = (total_frames - 1) as int % stride as int;
            assert(c * stride <= total_frames - 1);
            assert(c <= q) by (nonlinear_arith)
                requires
                    c * stride <= stride * q + m,
                    0 <= m < stride,
                    stride > 0,
                    c >= 0,
            ;
            if total_frames - off > stride {
                assert(c + 1 <= q) by (nonlinear_arith)
                    requires
                        (c + 1) * stride <= stride * q + m,
                        0 <= m < stride,
                        stride > 0,
                        c >= 0,
                ;
            } else {
                assert(c >= q) by (nonlinear_arith)
                    requires
                        c * stride + stride >= stride * q + m + 1,
                        0 <= m < stride,
                        stride > 0,
                ;
            }
        }
        offs.push(off);
        if total_frames - off <= stride {
            break;
        }
        off = off + stride;
    }
    proof {
        assert forall|k: int| 0 <= k < offs.len() implies #[trigger] offs[k] < total_frames by {
            lemma_chunks_start_in_track(total_frames as nat, stride as nat, k as nat);
        }
    }
    Ok(offs)
}

/// Start frames of every chunk of every pass: pass `s` of
/// `max(shifts, 1)` places chunk `c` at `c * stride` moved on by the
/// pass's shift (saturating at `usize::MAX`).
pub fn plan_passes(total_frames: usize, stride: usize, shifts: usize, sample_rate: u32) -> (r:
    Result<Vec<Vec<usize>>, ZeroStride>)
    requires
        shifts > 1 ==> (shifts - 1) * half_second_frames(sample_rate) <= usize::MAX,
    ensures
        stride == 0 <==> r is Err,
        r matches Ok(plan) ==> {
            &&& plan.len() == if shifts == 0 { 1 } else { shifts as int }
            &&& forall|s: int|
                0 <= s < plan.len() ==> {
                    &&& #[trigger] plan[s]@.len() == chunk_count(total_frames as nat, stride as nat)
                    &&& forall|c: int|
                        0 <= c < plan[s]@.len() ==> #[trigger] plan[s]@[c] == saturating_sum(
                            (c * stride) as nat,
                            shift_frames(s as nat, plan.len() as nat, sample_rate),
                        )
                }
            &&& forall|s: int|
                0 <= s < plan.len() ==> {
                    &&& (#[trigger] plan[s]@.len() == 0 <==> total_frames == 0)
                    &&& plan[s]@.len() > 0 ==> (plan[s]@.len() - 1) * stride < total_frames
                    &&& plan[s]@.len() > 0 ==> (plan[s]@.len() - 1) * stride + stride
                        >= total_frames
                }
            &&& forall|s: int, c: int|
                0 <= s < plan.len() && 0 <= c < plan[s]@.len() ==> #[trigger] plan[s]@[c] == {
                    let sh: int = if plan.len() <= 1 {
                        0
                    } else {
                        (s * half_second_frames(sample_rate)) / (plan.len() as int)
                    };
                    if c * stride + sh <= usize::MAX {
                        c * stride + sh
                    } else {
                        usize::MAX as int
                    }
                }
        },
{
    let offs = match chunk_offsets(total_frames, stride) {
        Ok(o) => o,
        Err(e) => return Err(e),
    };
    let num_shifts: usize = if shifts == 0 { 1 } else { shifts };
    let mut plan: Vec<Vec<usize>> = Vec::new();
    for s in 0..num_shifts
        invariant
            num_shifts == if shifts == 0 { 1 } else { shifts },
            shifts > 1 ==> (shifts - 1) * half_second_frames(sample_rate) <= usize::MAX,
            offs.len() == chunk_count(total_frames as nat, stride as nat),
            forall|k: int| 0 <= k < offs.len() ==> offs[k] == k * stride,
            plan.len() == s,
            forall|t: int|
                0 <= t < s ==> {
                    &&& #[trigger] plan[t]@.len() == offs.len()
                    &&& forall|c: int|
                        0 <= c < plan[t]@.len() ==> #[trigger] plan[t]@[c] == saturating_sum(
                            (c * stride) as nat,
                            shift_frames(t as nat, num_shifts as nat, sample_rate),
                        )
                },
    {
        proof {
            if num_shifts > 1 {
                assert(s * half_second_frames(sample_rate) <= (shifts - 1) * half_second_frames(
                    sample_rate,
                )) by (nonlinear_arith)
                    requires
                        s <= shifts - 1,
                ;
            }
        }
        let shift: usize = compute_shift_frames(s, num_shifts, sample_rate);
        let mut pass: Vec<usize> = Vec::new();
        for c in 0..offs.len()
            invariant
                pass.len() == c,
                shift == shift_frames(s as nat, num_shifts as nat, sample_rate),
                forall|k: int| 0 <= k < offs.len() ==> offs[k] == k * stride,
                forall|k: int|
                    0 <= k < c ==> #[trigger] pass@[k] == saturating_sum(
                        (k * stride) as nat,
                        shift as nat,
                    ),
        {
            pass.push(offs[c].saturating_add(shift));
        }
        plan.push(pass);
    }
    proof {
        lemma_chunk_count_exact(total_frames as nat, stride as nat);
        assert forall|s: int, c: int|
            0 <= s < plan.len() && 0 <= c < plan[s]@.len() implies #[trigger] plan[s]@[c] == {
                let sh: int = if plan.len() <= 1 {
                    0
                } else {
                    (s * half_second_frames(sample_rate)) / (plan.len() as int)
                };
                if c * stride + sh <= usize::MAX {
                    c * stride + sh
                } else {
                    usize::MAX as int
                }
            } by {
            crate::shift::lemma_shift_formula(s as nat, plan.len() as nat, sample_rate);
            assert(c * stride >= 0) by (nonlinear_arith)
                requires
                    c >= 0,
            ;
        }
    }
    Ok(plan)
}

/// Frames of a chunk of `chunk_frames` frames starting at `offset` that
/// fall inside a track of `total_frames` frames; the rest is padding.
pub fn chunk_frames_in_track(offset: usize, chunk_frames: usize, total_frames: usize) -> (n: usize)
    ensures
        n == frames_in_track(offset as nat, chunk_frames as nat, total_frames as nat),
        n <= chunk_frames,
        offset >= total_frames ==> n == 0,
        offset < total_frames ==> n == if total_frames - offset < chunk_frames {
            (total_frames - offset) as int
        } else {
            chunk_frames as int
        },
{
    if offset >= total_frames {
        0
    } else if total_frames - offset < chunk_frames {
        total_frames - offset
    } else {
        chunk_frames
    }
}

/// Sample `k` of channel `ch` of a chunk starting at frame `offset` of the
/// interleaved stereo `samples`, or `pad` past the last whole frame.
pub open spec fn chunk_sample<S>(samples: Seq<S>, offset: nat, k: nat, ch: nat, pad: S) -> S {
    if offset + k < samples.len() / 2 {
        samples[(2 * (offset + k) + ch) as int]
    } else {
        pad
    }
}

/// Cuts `chunk_frames` frames starting at frame `offset` out of the
/// interleaved stereo `samples` into planar layout: all left samples, then
/// all right samples, each padded with `pad` past the end of the track.
pub fn deinterleave_chunk<S: Copy>(samples: &[S], offset: usize, chunk_frames: usize, pad: S) -> (out:
    Vec<S>)
    requires
        2 * chunk_frames <= usize::MAX,
    ensures
        out@.len() == 2 * chunk_frames,
        forall|k: int|
            0 <= k < chunk_frames && offset + k < samples@.len() / 2 ==> #[trigger] out@[k]
                == samples@[2 * (offset + k)],
        forall|k: int|
            0 <= k < chunk_frames && offset + k < samples@.len() / 2 ==> #[trigger] out@[chunk_frames
                + k] == samples@[2 * (offset + k) + 1],
        forall|k: int|
            0 <= k < chunk_frames && offset + k >= samples@.len() / 2 ==> #[trigger] out@[k] == pad,
        forall|k: int|
            0 <= k < chunk_frames && offset + k >= samples@.len() / 2 ==> #[trigger] out@[chunk_frames
                + k] == pad,
        forall|k: int|
            0 <= k < chunk_frames ==> #[trigger] out@[k] == chunk_sample(
                samples@,
                offset as nat,
                k as nat,
                0,
                pad,
            ),
        forall|k: int|
            0 <= k < chunk_frames ==> #[trigger] out@[chunk_frames + k] == chunk_sample(
                samples@,
                offset as nat,
                k as nat,
                1,
                pad,
            ),
{
    let total_frames: usize = samples.len() / 2;
    let n: usize = chunk_frames_in_track(offset, chunk_frames, total_frames);
    let mut out: Vec<S> = Vec::with_capacity(2 * chunk_frames);
    for k in 0..chunk_frames
        invariant
            total_frames == samples@.len() / 2,
            samples@.len() <= usize::MAX,
            n == frames_in_track(offset as nat, chunk_frames as nat, total_frames as nat),
            out@.len() == k,
            forall|j: int|
                0 <= j < k ==> #[trigger] out@[j] == chunk_sample(
                    samples@,
                    offset as nat,
                    j as nat,
                    0,
                    pad,
                ),
    {
        if k < n {
            assert(offset + k < total_frames);
            out.push(samples[2 * (offset + k)]);
        } else {
            out.push(pad);
        }
    }
    for k in 0..chunk_frames
        invariant
            total_frames == samples@.len() / 2,
            samples@.len() <= usize::MAX,
            n == frames_in_track(offset as nat, chunk_frames as nat, total_frames as nat),
            2 * chunk_frames <= usize::MAX,
            out@.len() == chunk_frames + k,
            forall|j: int|
                0 <= j < chunk_frames ==> #[trigger] out@[j] == chunk_sample(
                    samples@,
                    offset as nat,
                    j as nat,
                    0,
                    pad,
                ),
            forall|j: int|
                0 <= j < k ==> #[trigger] out@[chunk_frames + j] == chunk_sample(
                    samples@,
                    offset as nat,
                    j as nat,
                    1,
                    pad,
                ),
    {
        if k < n {
            assert(offset + k < total_frames);
            out.push(samples[2 * (offset + k) + 1]);
        } else {
            out.push(pad);
        }
    }
    out
}

/// Every frame of the track starts out inside one chunk: frame `f` lies in
/// the `stride` frames from the start of chunk `f / stride`, and that chunk
/// is one of the `chunk_count` chunks.
pub proof fn lemma_chunks_cover(total_frames: nat, stride: nat, f: nat)
    requires
        stride > 0,
        f < total_frames,
    ensures
        f / stride < chunk_count(total_frames, stride),
        (f / stride) * stride <= f < (f / stride) * stride + stride,
{
    vstd::arithmetic::div_mod::lemma_fundamental_div_mod(f as int, stride as int);
    vstd::arithmetic::div_mod::lemma_div_is_ordered(f as int, (total_frames - 1) as int, stride as int);
    assert((f / stride) * stride == stride * (f / stride)) by (nonlinear_arith);
}

/// There are exactly as many chunks as it takes to reach the end of the
/// track: none for an empty track, else the last starts inside the track
/// and reaches its end.
pub proof fn lemma_chunk_count_exact(total_frames: nat, stride: nat)
    requires
        stride > 0,
    ensures
        chunk_count(total_frames, stride) == 0 <==> total_frames == 0,
        chunk_count(total_frames, stride) > 0 ==> (chunk_count(total_frames, stride) - 1)
            * stride < total_frames,
        chunk_count(total_frames, stride) > 0 ==> (chunk_count(total_frames, stride) - 1)
            * stride + stride >= total_frames,
{
    if total_frames > 0 {
        let q = (total_frames - 1) as nat / stride;
        let m = (total_frames - 1) as nat % stride;
        vstd::arithmetic::div_mod::lemma_fundamental_div_mod((total_frames - 1) as int, stride as int);
        assert(chunk_count(total_frames, stride) - 1 == q);
        assert(q * stride == stride * q) by (nonlinear_arith);
    }
}

/// A chunk frame falls in the track exactly when its track position is
/// before the track's end: the chunk's frames in the track are all of
/// them from its start to the end of the track or of the chunk.
pub proof fn lemma_frames_in_track_exact(offset: nat, chunk_frames: nat, total_frames: nat, k: nat)
    requires
        k < chunk_frames,
    ensures
        k < frames_in_track(offset, chunk_frames, total_frames) <==> offset + k < total_frames,
        frames_in_track(offset, chunk_frames, total_frames) == if offset >= total_frames {
            0
        } else if total_frames - offset < chunk_frames {
            total_frames - offset
        } else {
            chunk_frames as int
        },
{
}

/// The frames of a chunk that fall in the track never reach past its end
/// nor past the chunk.
pub proof fn lemma_frames_in_track_bounded(offset: nat, chunk_frames: nat, total_frames: nat)
    ensures
        frames_in_track(offset, chunk_frames, total_frames) <= chunk_frames,
        offset + frames_in_track(offset, chunk_frames, total_frames) <= total_frames
            || frames_in_track(offset, chunk_frames, total_frames) == 0,
{
}

/// Every chunk starts inside the track.
pub proof fn lemma_chunks_start_in_track(total_frames: nat, stride: nat, k: nat)
    requires
        stride > 0,
        k < chunk_count(total_frames, stride),
    ensures
        k * stride < total_frames,
{
    let q = (total_frames - 1) as nat / stride;
    vstd::arithmetic::div_mod::lemma_fundamental_div_mod((total_frames - 1) as int, stride as int);
    assert(k * stride <= q * stride) by (nonlinear_arith)
        requires
            k <= q,
    ;
    assert(q * stride == stride * q) by (nonlinear_arith);
}

} // verus!
