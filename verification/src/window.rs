use vstd::prelude::*;

verus! {

/// Weight of frame `i` in a chunk of `size` frames before normalisation:
/// a ramp up from 1 over the first half and back down to 1 over the second.
pub open spec fn ramp_weight(size: nat, i: nat) -> nat {
    if i + 1 <= size - i {
        i + 1
    } else {
        (size - i) as nat
    }
}

/// `p` is the largest element of `s`, or 1 when every element is smaller.
pub open spec fn is_peak(s: Seq<usize>, p: nat) -> bool {
    &&& p >= 1
    &&& forall|i: int| 0 <= i < s.len() ==> s[i] <= p
    &&& (p == 1 || exists|i: int| 0 <= i < s.len() && s[i] == p)
}

/// The un-normalised overlap-add weight window for chunks of `size`
/// frames: `1, 2, ..., size / 2` followed by `size - size / 2, ..., 2, 1`.
pub fn weight_ramp(size: usize) -> (w: Vec<usize>)
    requires
        size > 0,
    ensures
        w.len() == size,
        forall|i: int| 0 <= i < size ==> w[i] == ramp_weight(size as nat, i as nat),
        forall|i: int| 0 <= i < size / 2 ==> w[i] == i + 1,
        forall|i: int| size / 2 <= i < size ==> w[i] == size - i,
        forall|i: int| 0 <= i < size ==> #[trigger] w[i] == if i + 1 <= size - i {
            i + 1
        } else {
            size - i
        },
{
    let left_len: usize = size / 2;
    let right_len: usize = size - left_len;
    let mut w: Vec<usize> = Vec::with_capacity(size);
    for i in 0..left_len
        invariant
            left_len == size / 2,
            w.len() == i,
            forall|j: int| 0 <= j < i ==> w[j] == ramp_weight(size as nat, j as nat),
    {
        w.push(i + 1);
    }
    for i in 0..right_len
        invariant
            left_len == size / 2,
            right_len == size - left_len,
            w.len() == left_len + i,
            forall|j: int| 0 <= j < left_len + i ==> w[j] == ramp_weight(size as nat, j as nat),
    {
        w.push(right_len - i);
    }
    w
}

/// The largest weight of `w`, and at least 1.
pub fn window_peak(w: &[usize]) -> (p: usize)
    ensures
        is_peak(w@, p as nat),
        p >= 1,
        forall|i: int| 0 <= i < w@.len() ==> w@[i] <= p,
        p == 1 || exists|i: int| 0 <= i < w@.len() && w@[i] == p,
{
    let mut p: usize = 1;
    for i in 0..w.len()
        invariant
            p >= 1,
            forall|j: int| 0 <= j < i ==> w@[j] <= p,
            p == 1 || exists|j: int| 0 <= j < i && w@[j] == p,
    {
        if w[i] > p {
            p = w[i];
        }
    }
    p
}

/// The weight window is symmetric: frame `i` weighs what frame
/// `size - 1 - i` weighs.
pub proof fn lemma_ramp_symmetric(size: nat, i: nat)
    requires
        i < size,
    ensures
        ramp_weight(size, i) == ramp_weight(size, (size - 1 - i) as nat),
{
}

/// The window is a linear ramp: it starts at 1, climbs by exactly 1 per
/// frame over the first `size / 2` frames, and falls by exactly 1 per frame
/// from there to the last frame, which is 1 again.
pub proof fn lemma_ramp_linear(size: nat, i: nat)
    requires
        size > 0,
    ensures
        ramp_weight(size, 0) == 1,
        ramp_weight(size, (size - 1) as nat) == 1,
        i < size / 2 ==> ramp_weight(size, i) == i + 1,
        size / 2 <= i < size ==> ramp_weight(size, i) == size - i,
        i + 1 < size / 2 ==> ramp_weight(size, i + 1) == ramp_weight(size, i) + 1,
        size / 2 <= i && i + 1 < size ==> ramp_weight(size, i + 1) + 1 == ramp_weight(size, i),
        i < size ==> ramp_weight(size, i) == if i + 1 <= size - i {
            (i + 1) as int
        } else {
            size - i
        },
{
}

/// Every weight of the window lies between 1 and `(size + 1) / 2`.
pub proof fn lemma_ramp_bounds(size: nat, i: nat)
    requires
        i < size,
    ensures
        1 <= ramp_weight(size, i) <= (size + 1) / 2,
{
}

/// The peak of a sequence is unique.
pub proof fn lemma_peak_unique(s: Seq<usize>, p: nat, q: nat)
    requires
        is_peak(s, p),
        is_peak(s, q),
    ensures
        p == q,
{
    if p != 1 {
        let i = choose|i: int| 0 <= i < s.len() && s[i] == p;
        assert(s[i] <= q);
    }
    if q != 1 {
        let i = choose|i: int| 0 <= i < s.len() && s[i] == q;
        assert(s[i] <= p);
    }
}

/// The peak of the weight window of `size` frames is `(size + 1) / 2`,
/// reached at frame `size / 2`.
pub proof fn lemma_ramp_peak(size: nat, w: Seq<usize>)
    requires
        size > 0,
        w.len() == size,
        forall|i: int| 0 <= i < size ==> w[i] == ramp_weight(size, i as nat),
    ensures
        is_peak(w, (size + 1) / 2),
        w[(size / 2) as int] == (size + 1) / 2,
{
    assert forall|i: int| 0 <= i < w.len() implies w[i] <= (size + 1) / 2 by {
        lemma_ramp_bounds(size, i as nat);
    }
    assert(w[(size / 2) as int] == (size + 1) / 2);
}

} // verus!
