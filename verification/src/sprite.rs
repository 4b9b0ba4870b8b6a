//! Index layout of the primitives the engine draws.

use vstd::prelude::*;

verus! {

/// Index `k` of a triangle fan over `segments` rim vertices: triangle `t`
/// is (center, rim `t + 1`, the next rim vertex), the last one wrapping
/// back to rim vertex 1. Vertex 0 is the center.
pub open spec fn fan_index(segments: int, k: int) -> int {
    let t = k / 3;
    if k % 3 == 0 {
        0
    } else if k % 3 == 1 {
        t + 1
    } else {
        (t + 1) % segments + 1
    }
}

/// The relative indices of a triangle fan approximating a filled circle
/// with `segments` rim vertices around a center vertex: one triangle per
/// segment, closing the ring.
pub fn circle_fan_indices(segments: u16) -> (indices: Vec<u32>)
    ensures
        indices@.len() == 3 * segments,
        forall|k: int|
            0 <= k < indices@.len() ==> #[trigger] indices@[k] as int == fan_index(
                segments as int,
                k,
            ),
        forall|k: int| 0 <= k < indices@.len() ==> #[trigger] indices@[k] <= segments,
{
    let mut indices: Vec<u32> = Vec::with_capacity(segments as usize * 3);
    let n: u32 = segments as u32;
    let mut i: u32 = 1;
    while i <= n
        invariant
            1 <= i <= segments as int + 1,
            n == segments,
            indices@.len() == 3 * (i - 1),
            forall|k: int|
                0 <= k < indices@.len() ==> #[trigger] indices@[k] as int == fan_index(
                    segments as int,
                    k,
                ),
            forall|k: int| 0 <= k < indices@.len() ==> #[trigger] indices@[k] <= segments,
        decreases segments as int + 1 - i,
    {
        let next: u32 = i % n + 1;
        let ghost len = indices@.len() as int;
        indices.push(0);
        indices.push(i);
        indices.push(next);
        assert(len / 3 == i - 1 && len % 3 == 0);
        assert((len + 1) / 3 == i - 1 && (len + 1) % 3 == 1);
        assert((len + 2) / 3 == i - 1 && (len + 2) % 3 == 2);
        i = i + 1;
    }
    indices
}

/// The fan closes the ring: its last triangle joins the last rim vertex back
/// to the first, and every index names the center or a rim vertex.
pub proof fn lemma_fan_closes_ring(segments: int)
    requires
        segments >= 1,
    ensures
        fan_index(segments, 3 * segments - 2) == segments,
        fan_index(segments, 3 * segments - 1) == 1,
        forall|k: int| 0 <= k < 3 * segments ==> 0 <= #[trigger] fan_index(segments, k) <= segments,
{
    assert((3 * segments - 2) / 3 == segments - 1);
    assert((3 * segments - 1) / 3 == segments - 1);
    assert(segments % segments == 0) by (nonlinear_arith)
        requires
            segments >= 1,
    ;
    assert forall|k: int| 0 <= k < 3 * segments implies 0 <= #[trigger] fan_index(segments, k)
        <= segments by {
        let t = k / 3;
        assert(0 <= t < segments);
        assert(0 <= (t + 1) % segments < segments) by (nonlinear_arith)
            requires
                segments >= 1,
        ;
    }
}

} // verus!
