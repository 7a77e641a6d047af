//! The triangle fan of a disc: a centre vertex and `resolution` rim
//! vertices, one triangle per rim segment. The rim positions, points on the
//! unit circle, are computed in floating point by the caller.
use vstd::prelude::*;

verus! {

/// The triangle list of a fan of `resolution` segments: vertex 0 is the
/// centre, vertices `1..=resolution` the rim, segment `i` the triangle
/// `(0, i + 1, (i + 1) % resolution + 1)`.
pub fn fan_indices(resolution: u32) -> (r: Vec<u32>)
    requires
        resolution < 0xffff_ffff,
    ensures
        r@.len() == 3 * resolution,
        forall|i: int| 0 <= i < resolution ==> #[trigger] r@[3 * i] == 0,
        forall|i: int| 0 <= i < resolution ==> #[trigger] r@[3 * i + 1] == i + 1,
        forall|i: int|
            0 <= i < resolution ==> #[trigger] r@[3 * i + 2] == (i + 1) % (resolution as int) + 1,
{
    let mut indices: Vec<u32> = Vec::new();
    let mut i: u32 = 0;
    while i < resolution
        invariant
            i <= resolution,
            resolution < 0xffff_ffff,
            indices@.len() == 3 * i,
            forall|j: int| 0 <= j < i ==> #[trigger] indices@[3 * j] == 0,
            forall|j: int| 0 <= j < i ==> #[trigger] indices@[3 * j + 1] == j + 1,
            forall|j: int|
                0 <= j < i ==> #[trigger] indices@[3 * j + 2] == (j + 1) % (resolution as int) + 1,
        decreases resolution - i,
    {
        let ghost prev = indices@;
        indices.push(0);
        indices.push(i + 1);
        indices.push((i + 1) % resolution + 1);
        proof {
            assert forall|j: int| 0 <= j < i + 1 implies #[trigger] indices@[3 * j] == 0 by {
                if j < i {
                    assert(indices@[3 * j] == prev[3 * j]);
                }
            }
            assert forall|j: int| 0 <= j < i + 1 implies #[trigger] indices@[3 * j + 1] == j + 1 by {
                if j < i {
                    assert(indices@[3 * j + 1] == prev[3 * j + 1]);
                }
            }
            assert forall|j: int| 0 <= j < i + 1 implies #[trigger] indices@[3 * j + 2] == (j + 1)
                % (resolution as int) + 1 by {
                if j < i {
                    assert(indices@[3 * j + 2] == prev[3 * j + 2]);
                }
            }
        }
        i = i + 1;
    }
    indices
}

} // verus!
