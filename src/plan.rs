use vstd::prelude::*;

use crate::arc::{
    arc_segment_count, circle_vertex_count, spec_arc_segment_count, spec_circle_vertex_count,
    MAX_ARC_SEGMENTS,
};
use crate::error::{EdgeError, OffsetError};
use crate::shape::{Polygon, Polyline, Shape};

verus! {

/// The offset of a shape, as a term over round primitives and the input
/// polygons, combined by union and difference.
///
/// Every primitive is drawn at the magnitude of the requested distance.
#[derive(Debug, PartialEq)]
pub enum Region {
    /// No area at all.
    Empty,
    /// A polygon of `vertices` vertices approximating the circle around
    /// `center`, starting at angle `2π / vertices` and turning
    /// counter-clockwise.
    Disc { center: usize, vertices: u32 },
    /// The stadium around the directed segment from `start` to `end`: its
    /// two offset copies joined by round caps, each cap an arc of
    /// `arc_segments` segments.
    Stadium { start: usize, end: usize, arc_segments: u32 },
    /// The area of an input polygon.
    Area(Polygon),
    /// The union of the two regions.
    Union(Box<Region>, Box<Region>),
    /// The first region with the second removed.
    Difference(Box<Region>, Box<Region>),
    /// The first piece of the region (in the clipping engine's own order),
    /// with every other piece removed from it, one after the other.
    OuterFirst(Box<Region>),
}

pub open spec fn zero_length_error() -> OffsetError {
    OffsetError::EdgeError(EdgeError::ZeroLength)
}

/// The disc drawn around a point.
pub open spec fn disc(center: usize, arc_segments: u32) -> Region {
    Region::Disc { center, vertices: spec_circle_vertex_count(arc_segments as int) as u32 }
}

/// The stadium drawn around a non-degenerate segment.
pub open spec fn stadium(start: usize, end: usize, arc_segments: u32) -> Region {
    Region::Stadium {
        start,
        end,
        arc_segments: spec_arc_segment_count(arc_segments as int) as u32,
    }
}

/// The offset of a lone segment: a degenerate one is a point.
pub open spec fn segment_region(start: usize, end: usize, arc_segments: u32) -> Region {
    if start == end {
        disc(start, arc_segments)
    } else {
        stadium(start, end, arc_segments)
    }
}

/// The edge of `points` that starts at position `i` has zero length.
pub open spec fn zero_length_edge_at(points: Seq<usize>, i: int) -> bool {
    0 <= i && i + 1 < points.len() && points[i] == points[i + 1]
}

pub open spec fn has_zero_length_edge(points: Seq<usize>) -> bool {
    exists|i: int| zero_length_edge_at(points, i)
}

pub open spec fn edge_count(points: Seq<usize>) -> int {
    if points.len() < 2 {
        0
    } else {
        points.len() - 1
    }
}

/// Union, from the empty region on, of the stadiums of the first `k` edges.
pub open spec fn stadium_fold(points: Seq<usize>, k: int, arc_segments: u32) -> Region
    decreases k,
{
    if k <= 0 {
        Region::Empty
    } else {
        Region::Union(
            Box::new(stadium_fold(points, k - 1, arc_segments)),
            Box::new(stadium(points[k - 1], points[k], arc_segments)),
        )
    }
}

/// The offset of a polyline: its stadiums united, the first piece kept as
/// the outer boundary and the others cut from it. Fails on a zero-length
/// edge.
pub open spec fn polyline_region(points: Seq<usize>, arc_segments: u32) -> Result<
    Region,
    OffsetError,
> {
    if has_zero_length_edge(points) {
        Err(zero_length_error())
    } else {
        Ok(Region::OuterFirst(Box::new(stadium_fold(points, edge_count(points), arc_segments))))
    }
}

/// Union, from the empty region on and in order, of the offsets of a
/// sequence of members; the first member that fails makes the whole fail.
pub open spec fn union_fold(parts: Seq<Result<Region, OffsetError>>) -> Result<
    Region,
    OffsetError,
>
    decreases parts.len(),
{
    if parts.len() == 0 {
        Ok(Region::Empty)
    } else {
        match union_fold(parts.drop_last()) {
            Err(e) => Err(e),
            Ok(acc) => match parts.last() {
                Err(e) => Err(e),
                Ok(r) => Ok(Region::Union(Box::new(acc), Box::new(r))),
            },
        }
    }
}

pub open spec fn multi_polyline_region(lines: Seq<Polyline>, arc_segments: u32) -> Result<
    Region,
    OffsetError,
> {
    union_fold(lines.map_values(|l: Polyline| polyline_region(l.points@, arc_segments)))
}

pub open spec fn multi_point_region(points: Seq<usize>, arc_segments: u32) -> Region {
    union_fold(points.map_values(|p: usize| Ok(disc(p, arc_segments)))).unwrap()
}

/// The offset of a polygon: its exterior ring and its interior rings are
/// offset as polylines, then united with the polygon (dilation) or cut from
/// it (erosion).
pub open spec fn polygon_region(p: Polygon, erode: bool, arc_segments: u32) -> Result<
    Region,
    OffsetError,
> {
    match polyline_region(p.exterior.points@, arc_segments) {
        Err(e) => Err(e),
        Ok(ext) => match multi_polyline_region(p.interiors@, arc_segments) {
            Err(e) => Err(e),
            Ok(holes) => Ok(
                if erode {
                    Region::Difference(
                        Box::new(Region::Difference(Box::new(Region::Area(p)), Box::new(ext))),
                        Box::new(holes),
                    )
                } else {
                    Region::Union(
                        Box::new(Region::Union(Box::new(Region::Area(p)), Box::new(ext))),
                        Box::new(holes),
                    )
                },
            ),
        },
    }
}

pub open spec fn multi_polygon_region(ps: Seq<Polygon>, erode: bool, arc_segments: u32) -> Result<
    Region,
    OffsetError,
> {
    union_fold(ps.map_values(|p: Polygon| polygon_region(p, erode, arc_segments)))
}

/// The offset of a shape, eroded when `erode` holds and dilated otherwise.
pub open spec fn shape_region(s: Shape, erode: bool, arc_segments: u32) -> Result<
    Region,
    OffsetError,
>
    decreases s, 1int, 0int,
{
    match s {
        Shape::Point(p) => if erode {
            Ok(Region::Empty)
        } else {
            Ok(disc(p, arc_segments))
        },
        Shape::Segment(a, b) => if erode {
            Ok(Region::Empty)
        } else {
            Ok(segment_region(a, b, arc_segments))
        },
        Shape::Polyline(l) => if erode {
            Ok(Region::Empty)
        } else {
            polyline_region(l.points@, arc_segments)
        },
        Shape::MultiPoint(ps) => if erode {
            Ok(Region::Empty)
        } else {
            Ok(multi_point_region(ps@, arc_segments))
        },
        Shape::MultiPolyline(ls) => if erode {
            Ok(Region::Empty)
        } else {
            multi_polyline_region(ls@, arc_segments)
        },
        Shape::Polygon(p) => polygon_region(p, erode, arc_segments),
        Shape::MultiPolygon(ps) => multi_polygon_region(ps@, erode, arc_segments),
        Shape::Collection(ms) => members_region(s, ms@.len() as int, erode, arc_segments),
    }
}

/// For a collection, the union fold of the offsets of its first `k`
/// members.
pub open spec fn members_region(s: Shape, k: int, erode: bool, arc_segments: u32) -> Result<
    Region,
    OffsetError,
>
    decreases s, 0int, k,
{
    match s {
        Shape::Collection(ms) => if k <= 0 || k > ms@.len() {
            Ok(Region::Empty)
        } else {
            match members_region(s, k - 1, erode, arc_segments) {
                Err(e) => Err(e),
                Ok(acc) => match shape_region(ms@[k - 1], erode, arc_segments) {
                    Err(e) => Err(e),
                    Ok(r) => Ok(Region::Union(Box::new(acc), Box::new(r))),
                },
            }
        },
        _ => Ok(Region::Empty),
    }
}

} // verus!
