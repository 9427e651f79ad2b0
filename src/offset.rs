use vstd::prelude::*;

use crate::arc::{arc_segment_count, circle_vertex_count, DEFAULT_ARC_SEGMENTS, MAX_ARC_SEGMENTS};
use crate::error::{EdgeError, OffsetError};
use crate::plan::{
    disc, edge_count, has_zero_length_edge, members_region, multi_point_region,
    multi_polygon_region, multi_polyline_region, polygon_region, polyline_region, segment_region,
    shape_region, stadium, stadium_fold, union_fold, zero_length_edge_at, Region,
};
use crate::shape::{Polygon, Polyline, Shape};

verus! {

/// One step of a union fold: the fold of the first `k + 1` parts from the
/// fold of the first `k`.
proof fn lemma_union_fold_step(parts: Seq<Result<Region, OffsetError>>, k: int)
    requires
        0 <= k < parts.len(),
    ensures
        union_fold(parts.take(k + 1)) == match union_fold(parts.take(k)) {
            Err(e) => Err(e),
            Ok(acc) => match parts[k] {
                Err(e) => Err(e),
                Ok(r) => Ok(Region::Union(Box::new(acc), Box::new(r))),
            },
        },
{
    assert(parts.take(k + 1).drop_last() =~= parts.take(k));
}

/// Once a prefix of the parts fails, the whole fold fails the same way.
proof fn lemma_union_fold_err(parts: Seq<Result<Region, OffsetError>>, k: int)
    requires
        0 <= k <= parts.len(),
        union_fold(parts.take(k)) is Err,
    ensures
        union_fold(parts) == union_fold(parts.take(k)),
    decreases parts.len() - k,
{
    if k == parts.len() {
        assert(parts.take(k) =~= parts);
    } else {
        lemma_union_fold_step(parts, k);
        lemma_union_fold_err(parts, k + 1);
    }
}

fn disc_of(center: usize, arc_segments: u32) -> (r: Region)
    requires
        arc_segments <= MAX_ARC_SEGMENTS,
    ensures
        r == disc(center, arc_segments),
{
    Region::Disc { center, vertices: circle_vertex_count(arc_segments) }
}

fn stadium_of(start: usize, end: usize, arc_segments: u32) -> (r: Region)
    requires
        arc_segments >= 1,
    ensures
        r == stadium(start, end, arc_segments),
{
    Region::Stadium { start, end, arc_segments: arc_segment_count(arc_segments) }
}

/// Offset of a single directed segment at a non-negative distance: its
/// stadium, or, when both ends coincide, the disc around that point.
pub fn offset_segment(start: usize, end: usize, arc_segments: u32) -> (r: Region)
    requires
        1 <= arc_segments <= MAX_ARC_SEGMENTS,
    ensures
        r == segment_region(start, end, arc_segments),
{
    if start == end {
        disc_of(start, arc_segments)
    } else {
        stadium_of(start, end, arc_segments)
    }
}

/// Offset of a polyline at a non-negative distance.
pub fn offset_polyline(points: &Vec<usize>, arc_segments: u32) -> (r: Result<Region, OffsetError>)
    requires
        1 <= arc_segments <= MAX_ARC_SEGMENTS,
    ensures
        r == polyline_region(points@, arc_segments),
{
    let len = points.len();
    let mut acc = Region::Empty;
    let mut i: usize = 0;
    while i + 1 < len
        invariant
            len == points@.len(),
            len < 2 ==> i == 0,
            len >= 2 ==> i <= len - 1,
            acc == stadium_fold(points@, i as int, arc_segments),
            1 <= arc_segments <= MAX_ARC_SEGMENTS,
            forall|j: int| 0 <= j < i ==> !zero_length_edge_at(points@, j),
        decreases len - i,
    {
        if points[i] == points[i + 1] {
            assert(zero_length_edge_at(points@, i as int));
            return Err(OffsetError::EdgeError(EdgeError::ZeroLength));
        }
        let s = stadium_of(points[i], points[i + 1], arc_segments);
        acc = Region::Union(Box::new(acc), Box::new(s));
        i = i + 1;
    }
    assert(i as int == edge_count(points@));
    assert(!has_zero_length_edge(points@));
    Ok(Region::OuterFirst(Box::new(acc)))
}

/// Offset of a set of polylines at a non-negative distance.
pub fn offset_multi_polyline(lines: &Vec<Polyline>, arc_segments: u32) -> (r: Result<
    Region,
    OffsetError,
>)
    requires
        1 <= arc_segments <= MAX_ARC_SEGMENTS,
    ensures
        r == multi_polyline_region(lines@, arc_segments),
{
    let ghost parts = lines@.map_values(|l: Polyline| polyline_region(l.points@, arc_segments));
    let mut acc = Region::Empty;
    let mut i: usize = 0;
    while i < lines.len()
        invariant
            i <= lines@.len(),
            parts == lines@.map_values(|l: Polyline| polyline_region(l.points@, arc_segments)),
            union_fold(parts.take(i as int)) == Ok::<Region, OffsetError>(acc),
            1 <= arc_segments <= MAX_ARC_SEGMENTS,
        decreases lines.len() - i,
    {
        proof {
            lemma_union_fold_step(parts, i as int);
        }
        match offset_polyline(&lines[i].points, arc_segments) {
            Err(e) => {
                proof {
                    lemma_union_fold_err(parts, i + 1);
                }
                return Err(e);
            },
            Ok(r) => {
                acc = Region::Union(Box::new(acc), Box::new(r));
            },
        }
        i = i + 1;
    }
    assert(parts.take(i as int) =~= parts);
    Ok(acc)
}

/// Offset of a set of points at a non-negative distance.
pub fn offset_multi_point(points: &Vec<usize>, arc_segments: u32) -> (r: Region)
    requires
        arc_segments <= MAX_ARC_SEGMENTS,
    ensures
        r == multi_point_region(points@, arc_segments),
{
    let ghost parts = points@.map_values(|p: usize| Ok::<Region, OffsetError>(disc(p, arc_segments)));
    let mut acc = Region::Empty;
    let mut i: usize = 0;
    while i < points.len()
        invariant
            i <= points@.len(),
            parts == points@.map_values(|p: usize| Ok::<Region, OffsetError>(disc(p, arc_segments))),
            union_fold(parts.take(i as int)) == Ok::<Region, OffsetError>(acc),
            arc_segments <= MAX_ARC_SEGMENTS,
        decreases points.len() - i,
    {
        proof {
            lemma_union_fold_step(parts, i as int);
        }
        let d = disc_of(points[i], arc_segments);
        acc = Region::Union(Box::new(acc), Box::new(d));
        i = i + 1;
    }
    assert(parts.take(i as int) =~= parts);
    acc
}

/// Offset of a polygon: dilated when `erode` does not hold, eroded when it
/// does.
pub fn offset_polygon(p: Polygon, erode: bool, arc_segments: u32) -> (r: Result<
    Region,
    OffsetError,
>)
    requires
        1 <= arc_segments <= MAX_ARC_SEGMENTS,
    ensures
        r == polygon_region(p, erode, arc_segments),
{
    let ext = match offset_polyline(&p.exterior.points, arc_segments) {
        Ok(ext) => ext,
        Err(e) => return Err(e),
    };
    let holes = match offset_multi_polyline(&p.interiors, arc_segments) {
        Ok(holes) => holes,
        Err(e) => return Err(e),
    };
    if erode {
        Ok(
            Region::Difference(
                Box::new(Region::Difference(Box::new(Region::Area(p)), Box::new(ext))),
                Box::new(holes),
            ),
        )
    } else {
        Ok(
            Region::Union(
                Box::new(Region::Union(Box::new(Region::Area(p)), Box::new(ext))),
                Box::new(holes),
            ),
        )
    }
}

/// Offset of a set of polygons.
pub fn offset_multi_polygon(polygons: Vec<Polygon>, erode: bool, arc_segments: u32) -> (r: Result<
    Region,
    OffsetError,
>)
    requires
        1 <= arc_segments <= MAX_ARC_SEGMENTS,
    ensures
        r == multi_polygon_region(polygons@, erode, arc_segments),
{
    let count = polygons.len();
    let ghost all = polygons@;
    let ghost parts = all.map_values(|p: Polygon| polygon_region(p, erode, arc_segments));
    let mut rest = polygons;
    let mut acc = Region::Empty;
    let mut i: usize = 0;
    while rest.len() > 0
        invariant
            i <= all.len() == count,
            all == polygons@,
            rest@ == all.skip(i as int),
            parts == all.map_values(|p: Polygon| polygon_region(p, erode, arc_segments)),
            union_fold(parts.take(i as int)) == Ok::<Region, OffsetError>(acc),
            1 <= arc_segments <= MAX_ARC_SEGMENTS,
        decreases rest.len(),
    {
        proof {
            lemma_union_fold_step(parts, i as int);
        }
        let p = rest.remove(0);
        assert(p == all[i as int]);
        assert(rest@ =~= all.skip(i + 1));
        assert(parts[i as int] == polygon_region(p, erode, arc_segments));
        match offset_polygon(p, erode, arc_segments) {
            Err(e) => {
                proof {
                    lemma_union_fold_err(parts, i + 1);
                }
                return Err(e);
            },
            Ok(r) => {
                acc = Region::Union(Box::new(acc), Box::new(r));
            },
        }
        i = i + 1;
    }
    assert(parts.take(i as int) =~= parts);
    Ok(acc)
}

impl Shape {
    /// Offset of the shape, with arcs cut into `arc_segments` segments.
    ///
    /// `erode` holds when the requested distance is negative: the shape is
    /// then eroded, and dilated otherwise. A shape without interior area has
    /// no erosion: its offset is then empty.
    pub fn offset_with_arc_segments(self, erode: bool, arc_segments: u32) -> (r: Result<
        Region,
        OffsetError,
    >)
        requires
            1 <= arc_segments <= MAX_ARC_SEGMENTS,
        ensures
            r == shape_region(self, erode, arc_segments),
        decreases self,
    {
        let ghost whole = self;
        match self {
            Shape::Point(p) => if erode {
                Ok(Region::Empty)
            } else {
                Ok(disc_of(p, arc_segments))
            },
            Shape::Segment(a, b) => if erode {
                Ok(Region::Empty)
            } else {
                Ok(offset_segment(a, b, arc_segments))
            },
            Shape::Polyline(l) => if erode {
                Ok(Region::Empty)
            } else {
                offset_polyline(&l.points, arc_segments)
            },
            Shape::MultiPoint(ps) => if erode {
                Ok(Region::Empty)
            } else {
                Ok(offset_multi_point(&ps, arc_segments))
            },
            Shape::MultiPolyline(ls) => if erode {
                Ok(Region::Empty)
            } else {
                offset_multi_polyline(&ls, arc_segments)
            },
            Shape::Polygon(p) => offset_polygon(p, erode, arc_segments),
            Shape::MultiPolygon(ps) => offset_multi_polygon(ps, erode, arc_segments),
            Shape::Collection(members) => {
                let count = members.len();
                let ghost all = members@;
                let mut rest = members;
                let mut acc = Region::Empty;
                let mut i: usize = 0;
                while rest.len() > 0
                    invariant
                        i <= all.len() == count,
                        whole == Shape::Collection(members),
                        whole == self,
                        all == members@,
                        rest@ == all.skip(i as int),
                        members_region(whole, i as int, erode, arc_segments) == Ok::<
                            Region,
                            OffsetError,
                        >(acc),
                        1 <= arc_segments <= MAX_ARC_SEGMENTS,
                    decreases rest.len(),
                {
                    let m = rest.remove(0);
                    assert(m == all[i as int]);
                    assert(rest@ =~= all.skip(i + 1));
                    proof {
                        assert(decreases_to!(members@ => members@[i as int]));
                    }
                    match m.offset_with_arc_segments(erode, arc_segments) {
                        Err(e) => {
                            proof {
                                lemma_members_err(whole, i + 1, erode, arc_segments);
                            }
                            return Err(e);
                        },
                        Ok(r) => {
                            acc = Region::Union(Box::new(acc), Box::new(r));
                        },
                    }
                    i = i + 1;
                }
                Ok(acc)
            },
        }
    }

    /// Offset of the shape with the default arc resolution.
    pub fn offset(self, erode: bool) -> (r: Result<Region, OffsetError>)
        ensures
            r == shape_region(self, erode, DEFAULT_ARC_SEGMENTS),
    {
        self.offset_with_arc_segments(erode, DEFAULT_ARC_SEGMENTS)
    }
}

/// Once the offsets of the first `k` members of a collection fail, the
/// offset of the whole collection fails the same way.
proof fn lemma_members_err(s: Shape, k: int, erode: bool, arc_segments: u32)
    requires
        s is Collection,
        0 <= k <= s->Collection_0@.len(),
        members_region(s, k, erode, arc_segments) is Err,
    ensures
        members_region(s, s->Collection_0@.len() as int, erode, arc_segments) == members_region(
            s,
            k,
            erode,
            arc_segments,
        ),
    decreases s->Collection_0@.len() - k,
{
    if k < s->Collection_0@.len() {
        lemma_members_err(s, k + 1, erode, arc_segments);
    }
}

} // verus!
