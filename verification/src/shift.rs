use vstd::prelude::*;
use vstd::arithmetic::div_mod::{lemma_div_denominator, lemma_fundamental_div_mod};

verus! {

/// Spacing between neighbouring `f32` values around `x`, when that spacing
/// is at least 1: the smallest power of two `u` with `x / u < 2^24`.
pub open spec fn f32_spacing(x: nat) -> nat
    decreases x,
{
    if x < 0x100_0000 {
        1
    } else {
        2 * f32_spacing(x / 2)
    }
}

/// The value of the non-negative integer `x` once held in an `f32`:
/// rounded to the nearest multiple of its spacing, ties to the even multiple.
pub open spec fn f32_nearest(x: nat) -> nat {
    let u = f32_spacing(x);
    let q = x / u;
    let r = x % u;
    if 2 * r < u || (2 * r == u && q % 2 == 0) {
        q * u
    } else {
        (q + 1) * u
    }
}

/// Half a second of frames at `sample_rate`: half the rate (as an `f32`),
/// rounded half away from zero.
pub open spec fn half_second_frames(sample_rate: u32) -> nat {
    (f32_nearest(sample_rate as nat) + 1) / 2
}

/// The frame shift applied for shift number `shift_idx` out of `shifts`.
pub open spec fn shift_frames(shift_idx: nat, shifts: nat, sample_rate: u32) -> nat {
    if shifts <= 1 {
        0
    } else {
        (shift_idx * half_second_frames(sample_rate)) / shifts
    }
}

proof fn lemma_spacing_positive(x: nat)
    ensures
        f32_spacing(x) >= 1,
    decreases x,
{
    if x >= 0x100_0000 {
        lemma_spacing_positive(x / 2);
    }
}

/// The largest shift, half a second of frames at `sample_rate`.
pub fn max_shift_frames(sample_rate: u32) -> (m: usize)
    ensures
        m == half_second_frames(sample_rate),
        sample_rate < 0x100_0000 ==> m == (sample_rate + 1) / 2,
        m <= 0x8000_0000,
        sample_rate <= 2 * m + 128,
        2 * m <= sample_rate + 129,
{
    let x: u64 = sample_rate as u64;
    let mut y: u64 = x;
    let mut unit: u64 = 1;
    while y >= 0x100_0000
        invariant
            x == sample_rate as u64,
            unit == 1 || unit == 2 || unit == 4 || unit == 8 || unit == 16 || unit == 32
                || unit == 64 || unit == 128 || unit == 256,
            y == (x as nat) / (unit as nat),
            y * unit <= x,
            f32_spacing(x as nat) == unit * f32_spacing(y as nat),
        decreases y,
    {
        proof {
            lemma_div_denominator(x as int, unit as int, 2);
            assert(y * unit >= 0x100_0000 * unit) by (nonlinear_arith)
                requires y >= 0x100_0000;
            assert(unit < 256);
            let s = f32_spacing((y / 2) as nat);
            assert(f32_spacing(y as nat) == 2 * s);
            assert(unit * (2 * s) == (unit * 2) * s) by (nonlinear_arith);
            assert((y / 2) * (unit * 2) <= y * unit) by (nonlinear_arith);
        }
        y = y / 2;
        unit = unit * 2;
    }
    proof {
        lemma_spacing_positive(y as nat);
        lemma_fundamental_div_mod(x as int, unit as int);
    }
    let q: u64 = y;
    let r: u64 = x - q * unit;
    assert(f32_spacing(y as nat) == 1);
    assert(f32_spacing(x as nat) == unit);
    assert(unit * q == q * unit) by (nonlinear_arith);
    assert(r == (x as nat) % (unit as nat));
    let v: u64 = if 2 * r < unit || (2 * r == unit && q % 2 == 0) {
        q * unit
    } else {
        (q + 1) * unit
    };
    assert(v == f32_nearest(x as nat));
    proof {
        lemma_half_second_bound(sample_rate);
        assert(unit <= 256);
        if 2 * r < unit || (2 * r == unit && q % 2 == 0) {
            assert(v == q * unit);
        } else {
            assert(v == q * unit + unit) by (nonlinear_arith)
                requires
                    v == (q + 1) * unit,
            ;
        }
        if sample_rate < 0x100_0000 {
            lemma_half_second_exact(sample_rate);
        }
    }
    ((v + 1) / 2) as usize
}

/// Frames by which chunk positions are shifted on pass `shift_idx` of
/// `shifts` passes: zero for a single pass, else `shift_idx` evenly
/// spaced fractions of half a second.
pub fn compute_shift_frames(shift_idx: usize, shifts: usize, sample_rate: u32) -> (r: usize)
    requires
        shifts > 1 ==> shift_idx * half_second_frames(sample_rate) <= usize::MAX,
    ensures
        r == shift_frames(shift_idx as nat, shifts as nat, sample_rate),
        shifts <= 1 ==> r == 0,
        shifts > 1 ==> r == (shift_idx * half_second_frames(sample_rate)) / (shifts as int),
        shifts > 1 && sample_rate < 0x100_0000 ==> r == (shift_idx * ((sample_rate as int + 1)
            / 2)) / (shifts as int),
{
    proof {
        if sample_rate < 0x100_0000 {
            lemma_half_second_exact(sample_rate);
        }
    }
    if shifts <= 1 {
        return 0;
    }
    let max_shift: usize = max_shift_frames(sample_rate);
    (shift_idx * max_shift) / shifts
}

/// Spacing of values below `2^24 * m` is a power of two no larger than `m`.
proof fn lemma_spacing_power(x: nat, m: nat)
    requires
        m == 1 || m == 2 || m == 4 || m == 8 || m == 16 || m == 32 || m == 64 || m == 128
            || m == 256,
        x < 0x100_0000 * m,
    ensures
        f32_spacing(x) <= m,
        f32_spacing(x) == 1 || f32_spacing(x) == 2 || f32_spacing(x) == 4 || f32_spacing(x) == 8
            || f32_spacing(x) == 16 || f32_spacing(x) == 32 || f32_spacing(x) == 64
            || f32_spacing(x) == 128 || f32_spacing(x) == 256,
    decreases x,
{
    if x >= 0x100_0000 {
        lemma_spacing_power(x / 2, m / 2);
    }
}

/// A sample rate held in an `f32` never exceeds `2^32`, so half a second
/// never exceeds `2^31` frames.
pub proof fn lemma_half_second_bound(sample_rate: u32)
    ensures
        half_second_frames(sample_rate) <= 0x8000_0000,
{
    let x = sample_rate as nat;
    lemma_spacing_power(x, 256);
    let u = f32_spacing(x);
    lemma_fundamental_div_mod(x as int, u as int);
    let q = x / u;
    let r = x % u;
    assert(u * q + r == x);
    assert((q + 1) * u <= 0x1_0000_0000) by (nonlinear_arith)
        requires
            u * q + r == x,
            0 <= r,
            x < 0x1_0000_0000,
            u == 1 || u == 2 || u == 4 || u == 8 || u == 16 || u == 32 || u == 64 || u == 128
                || u == 256,
    ;
    assert(q * u <= (q + 1) * u) by (nonlinear_arith);
}

/// Sample rates below 2^24 are held exactly, so half a second is the
/// rate halved, rounded up.
pub proof fn lemma_half_second_exact(sample_rate: u32)
    requires
        sample_rate < 0x100_0000,
    ensures
        half_second_frames(sample_rate) == (sample_rate as nat + 1) / 2,
{
    assert(f32_spacing(sample_rate as nat) == 1);
}

/// The first pass is never shifted, and every pass of `shifts` is shifted
/// by less than half a second.
pub proof fn lemma_shift_below_half_second(shift_idx: nat, shifts: nat, sample_rate: u32)
    requires
        shift_idx < shifts,
    ensures
        shift_frames(0, shifts, sample_rate) == 0,
        shift_frames(shift_idx, shifts, sample_rate) <= half_second_frames(sample_rate),
        half_second_frames(sample_rate) > 0 ==> shift_frames(shift_idx, shifts, sample_rate)
            < half_second_frames(sample_rate),
{
    let h = half_second_frames(sample_rate);
    if shifts > 1 {
        assert((shift_idx * h) / shifts < h || h == 0) by (nonlinear_arith)
            requires
                shift_idx < shifts,
                shifts > 1,
        ;
        assert(shift_idx * h <= shifts * h) by (nonlinear_arith)
            requires
                shift_idx < shifts,
        ;
        assert((shift_idx * h) / shifts <= h) by (nonlinear_arith)
            requires
                shift_idx * h <= shifts * h,
                shifts > 1,
        ;
    }
}

/// The shift of pass `shift_idx` of `shifts > 1` passes is that share of
/// half a second, rounded down; for rates below `2^24`, half a second is
/// the rate halved and rounded up.
pub proof fn lemma_shift_formula(shift_idx: nat, shifts: nat, sample_rate: u32)
    ensures
        shifts <= 1 ==> shift_frames(shift_idx, shifts, sample_rate) == 0,
        shifts > 1 ==> shift_frames(shift_idx, shifts, sample_rate) == (shift_idx
            * half_second_frames(sample_rate)) / shifts,
        shifts > 1 && sample_rate < 0x100_0000 ==> shift_frames(shift_idx, shifts, sample_rate)
            == (shift_idx * ((sample_rate as int + 1) / 2)) / (shifts as int),
{
    if sample_rate < 0x100_0000 {
        lemma_half_second_exact(sample_rate);
    }
}

/// With passes no more than half a second of frames apart, every pass but
/// the first is shifted, and later passes strictly further.
pub proof fn lemma_shift_positive(i: nat, j: nat, shifts: nat, sample_rate: u32)
    requires
        shifts > 1,
        0 < i < j < shifts,
        half_second_frames(sample_rate) >= shifts,
    ensures
        shift_frames(i, shifts, sample_rate) > 0,
        shift_frames(i, shifts, sample_rate) < shift_frames(j, shifts, sample_rate),
{
    let h = half_second_frames(sample_rate);
    assert(i * h >= shifts) by (nonlinear_arith)
        requires
            i >= 1,
            h >= shifts,
    ;
    assert((i * h) / shifts >= 1) by (nonlinear_arith)
        requires
            i * h >= shifts,
            shifts > 1,
    ;
    assert(j * h >= i * h + shifts) by (nonlinear_arith)
        requires
            j >= i + 1,
            h >= shifts,
    ;
    assert((i * h) / shifts < (j * h) / shifts) by (nonlinear_arith)
        requires
            j * h >= i * h + shifts,
            shifts > 1,
            i * h >= 0,
    ;
}

/// Half a second at rates of 2^24 and above still lies within 128 frames
/// of half the rate.
pub proof fn lemma_half_second_close(sample_rate: u32)
    ensures
        sample_rate <= 2 * half_second_frames(sample_rate) + 128,
        2 * half_second_frames(sample_rate) <= sample_rate + 129,
{
    let x = sample_rate as nat;
    lemma_spacing_power(x, 256);
    let u = f32_spacing(x);
    lemma_fundamental_div_mod(x as int, u as int);
    let q = x / u;
    let r = x % u;
    assert(u * q == q * u) by (nonlinear_arith);
    assert((q + 1) * u == q * u + u) by (nonlinear_arith);
}

/// Later passes are shifted at least as far as earlier ones.
pub proof fn lemma_shift_monotonic(i: nat, j: nat, shifts: nat, sample_rate: u32)
    requires
        i <= j,
    ensures
        shift_frames(i, shifts, sample_rate) <= shift_frames(j, shifts, sample_rate),
{
    let h = half_second_frames(sample_rate);
    if shifts > 1 {
        assert(i * h <= j * h) by (nonlinear_arith)
            requires
                i <= j,
        ;
        vstd::arithmetic::div_mod::lemma_div_is_ordered((i * h) as int, (j * h) as int, shifts as int);
    }
}

} // verus!
