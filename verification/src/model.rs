use vstd::prelude::*;
use crate::audio::{N_CHANNELS, N_STEMS};
use crate::chunks::TARGET_FRAMES;

verus! {

/// The shape every model output must have: one batch of `N_STEMS` stems
/// of `N_CHANNELS` channels of `TARGET_FRAMES` frames.
pub open spec fn expected_output_shape() -> Seq<i64> {
    seq![1i64, N_STEMS as i64, N_CHANNELS as i64, TARGET_FRAMES as i64]
}

/// The model answered with a tensor of another shape.
#[derive(Clone, Copy, Debug, PartialEq, Eq, Structural)]
pub struct ShapeMismatch;

/// Accepts exactly the shape `[1, 4, 2, TARGET_FRAMES]`.
pub fn validate_output_shape(shape: &[i64]) -> (r: Result<(), ShapeMismatch>)
    ensures
        r is Ok <==> shape@ == expected_output_shape(),
        r is Ok <==> shape@ == seq![1i64, 4i64, 2i64, 343_980i64],
{
    let expected: [i64; 4] = [1, N_STEMS as i64, N_CHANNELS as i64, TARGET_FRAMES as i64];
    if shape.len() != 4 {
        return Err(ShapeMismatch);
    }
    for i in 0..4usize
        invariant
            shape@.len() == 4,
            expected@ == expected_output_shape(),
            forall|j: int| 0 <= j < i ==> shape@[j] == expected@[j],
    {
        if shape[i] != expected[i] {
            return Err(ShapeMismatch);
        }
    }
    assert(shape@ =~= expected_output_shape());
    assert(expected_output_shape() =~= seq![1i64, 4i64, 2i64, 343_980i64]);
    Ok(())
}

} // verus!
