use vstd::prelude::*;

verus! {

/// Arcs around corners are made of 5 segments by default.
pub const DEFAULT_ARC_SEGMENTS: u32 = 5;

/// The largest arc resolution whose full circle still has a vertex count
/// that fits in a `u32`.
pub const MAX_ARC_SEGMENTS: u32 = 0x7fff_ffff;

/// The odd number of segments an arc between two vertices is cut into:
/// the requested count, or one less when it is even.
pub open spec fn spec_arc_segment_count(n: int) -> int {
    if n % 2 == 0 { n - 1 } else { n }
}

/// The odd number of vertices of the polygon approximating a full circle:
/// twice the arc resolution, plus one.
pub open spec fn spec_circle_vertex_count(arc_segments: int) -> int {
    2 * arc_segments + 1
}

/// Number of segments an arc is drawn with for a requested `segment_count`.
///
/// The count is forced odd so that no vertex lands exactly opposite the
/// seam where the angle wraps around.
pub fn arc_segment_count(segment_count: u32) -> (r: u32)
    requires
        segment_count >= 1,
    ensures
        r == spec_arc_segment_count(segment_count as int),
        r % 2 == 1,
        r <= segment_count,
        segment_count <= r + 1,
{
    if segment_count % 2 == 0 {
        segment_count - 1
    } else {
        segment_count
    }
}

/// Number of vertices of the polygon approximating the circle around a
/// point, for an arc resolution of `arc_segments`.
///
/// Twice the resolution is always even, so it is bumped to the next odd
/// number: no two vertices are then exactly antipodal.
pub fn circle_vertex_count(arc_segments: u32) -> (r: u32)
    requires
        arc_segments <= MAX_ARC_SEGMENTS,
    ensures
        r == spec_circle_vertex_count(arc_segments as int),
        r % 2 == 1,
{
    let count: u32 = arc_segments * 2;
    if count % 2 == 0 {
        count + 1
    } else {
        count
    }
}

} // verus!
