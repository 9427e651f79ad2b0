use vstd::prelude::*;

use crate::plan::{
    disc, has_zero_length_edge, members_region, multi_polygon_region, multi_polyline_region,
    polygon_region, polyline_region, shape_region, union_fold, Region,
};
use crate::shape::{Polygon, Polyline};
use crate::error::OffsetError;
use crate::shape::Shape;

verus! {

/// Eroding a shape that has no interior area (a point, a segment, a
/// polyline, or a set of any one of these) gives the empty region, whatever
/// the shape's edges are.
pub proof fn lemma_erosion_of_open_curve_is_empty(s: Shape, arc_segments: u32)
    requires
        s.is_open_curve(),
    ensures
        shape_region(s, true, arc_segments) == Ok::<Region, OffsetError>(
            Region::Empty,
        ),
{
}

/// Offsetting a segment whose two ends coincide does not fail: it gives
/// the same region as offsetting the point where it lies, with the same
/// distance sign and arc resolution.
pub proof fn lemma_degenerate_segment_is_point(p: usize, erode: bool, arc_segments: u32)
    ensures
        shape_region(Shape::Segment(p, p), erode, arc_segments) == shape_region(
            Shape::Point(p),
            erode,
            arc_segments,
        ),
        shape_region(Shape::Segment(p, p), erode, arc_segments) is Ok,
        !erode ==> shape_region(Shape::Segment(p, p), erode, arc_segments)
            == Ok::<Region, OffsetError>(disc(p, arc_segments)),
{
}

/// Some ring of the polygon, exterior or interior, has a zero-length edge.
pub open spec fn polygon_has_zero_length_edge(p: Polygon) -> bool {
    ||| has_zero_length_edge(p.exterior.points@)
    ||| exists|i: int| 0 <= i < p.interiors@.len() && has_zero_length_edge(#[trigger] p.interiors@[i].points@)
}

/// Some polyline or ring that the offset of `s` draws round has a
/// zero-length edge. Lone segments are not among them (a degenerate one is
/// a point), nor are polylines when eroding (they are not drawn at all).
pub open spec fn offsets_zero_length_edge(s: Shape, erode: bool) -> bool
    decreases s,
{
    match s {
        Shape::Point(_) | Shape::Segment(_, _) | Shape::MultiPoint(_) => false,
        Shape::Polyline(l) => !erode && has_zero_length_edge(l.points@),
        Shape::MultiPolyline(ls) => !erode && exists|i: int|
            0 <= i < ls@.len() && has_zero_length_edge(#[trigger] ls@[i].points@),
        Shape::Polygon(p) => polygon_has_zero_length_edge(p),
        Shape::MultiPolygon(ps) => exists|i: int|
            0 <= i < ps@.len() && polygon_has_zero_length_edge(#[trigger] ps@[i]),
        Shape::Collection(ms) => exists|i: int|
            0 <= i < ms@.len() && offsets_zero_length_edge(#[trigger] ms@[i], erode),
    }
}

/// A union fold fails exactly when one of its parts fails.
proof fn lemma_union_fold_fails(parts: Seq<Result<Region, OffsetError>>)
    ensures
        union_fold(parts) is Err <==> exists|i: int| 0 <= i < parts.len() && #[trigger] parts[i] is Err,
    decreases parts.len(),
{
    if parts.len() > 0 {
        let front = parts.drop_last();
        lemma_union_fold_fails(front);
        assert forall|i: int| 0 <= i < front.len() implies front[i] == parts[i] by {}
        if union_fold(parts) is Err {
            if !(union_fold(front) is Err) {
                assert(parts[parts.len() - 1] is Err);
            }
        }
        if exists|i: int| 0 <= i < parts.len() && #[trigger] parts[i] is Err {
            let i = choose|i: int| 0 <= i < parts.len() && #[trigger] parts[i] is Err;
            if i < front.len() {
                assert(front[i] is Err);
            }
        }
    }
}

proof fn lemma_polyline_fails(points: Seq<usize>, arc_segments: u32)
    ensures
        polyline_region(points, arc_segments) is Err <==> has_zero_length_edge(points),
{
}

proof fn lemma_multi_polyline_fails(lines: Seq<Polyline>, arc_segments: u32)
    ensures
        multi_polyline_region(lines, arc_segments) is Err <==> exists|i: int|
            0 <= i < lines.len() && has_zero_length_edge(#[trigger] lines[i].points@),
{
    let parts = lines.map_values(|l: Polyline| polyline_region(l.points@, arc_segments));
    lemma_union_fold_fails(parts);
    assert forall|i: int| 0 <= i < lines.len() implies (#[trigger] parts[i] is Err
        <==> has_zero_length_edge(lines[i].points@)) by {
        lemma_polyline_fails(lines[i].points@, arc_segments);
    }
    if multi_polyline_region(lines, arc_segments) is Err {
        let i = choose|i: int| 0 <= i < parts.len() && #[trigger] parts[i] is Err;
        assert(has_zero_length_edge(lines[i].points@));
    }
    if exists|i: int| 0 <= i < lines.len() && has_zero_length_edge(#[trigger] lines[i].points@) {
        let i = choose|i: int|
            0 <= i < lines.len() && has_zero_length_edge(#[trigger] lines[i].points@);
        assert(parts[i] is Err);
    }
}

proof fn lemma_polygon_fails(p: Polygon, erode: bool, arc_segments: u32)
    ensures
        polygon_region(p, erode, arc_segments) is Err <==> polygon_has_zero_length_edge(p),
{
    lemma_polyline_fails(p.exterior.points@, arc_segments);
    lemma_multi_polyline_fails(p.interiors@, arc_segments);
}

proof fn lemma_members_fail(s: Shape, k: int, erode: bool, arc_segments: u32)
    requires
        s is Collection,
        0 <= k <= s->Collection_0@.len(),
    ensures
        members_region(s, k, erode, arc_segments) is Err <==> exists|i: int|
            0 <= i < k && offsets_zero_length_edge(#[trigger] s->Collection_0@[i], erode),
    decreases s, 0int, k,
{
    if k > 0 {
        let ms = s->Collection_0@;
        assert(decreases_to!(s->Collection_0 => ms));
        lemma_members_fail(s, k - 1, erode, arc_segments);
        lemma_offset_fails(ms[k - 1], erode, arc_segments);
        if exists|i: int| 0 <= i < k && offsets_zero_length_edge(#[trigger] ms[i], erode) {
            let i = choose|i: int| 0 <= i < k && offsets_zero_length_edge(#[trigger] ms[i], erode);
            if i < k - 1 {
                assert(members_region(s, k - 1, erode, arc_segments) is Err);
            }
        }
    }
}

/// The offset of a shape fails exactly when some polyline or ring that it
/// draws round has a zero-length edge: a polygon's rings in either
/// direction, a polyline's points only when dilating.
pub proof fn lemma_offset_fails(s: Shape, erode: bool, arc_segments: u32)
    ensures
        shape_region(s, erode, arc_segments) is Err <==> offsets_zero_length_edge(s, erode),
    decreases s, 1int, 0int,
{
    match s {
        Shape::Polyline(l) => {
            lemma_polyline_fails(l.points@, arc_segments);
        },
        Shape::MultiPolyline(ls) => {
            lemma_multi_polyline_fails(ls@, arc_segments);
        },
        Shape::Polygon(p) => lemma_polygon_fails(p, erode, arc_segments),
        Shape::MultiPolygon(ps) => {
            let parts = ps@.map_values(|p: Polygon| polygon_region(p, erode, arc_segments));
            lemma_union_fold_fails(parts);
            assert forall|i: int| 0 <= i < ps@.len() implies (#[trigger] parts[i] is Err
                <==> polygon_has_zero_length_edge(ps@[i])) by {
                lemma_polygon_fails(ps@[i], erode, arc_segments);
            }
            if shape_region(s, erode, arc_segments) is Err {
                let i = choose|i: int| 0 <= i < parts.len() && #[trigger] parts[i] is Err;
                assert(polygon_has_zero_length_edge(ps@[i]));
            }
            if offsets_zero_length_edge(s, erode) {
                let i = choose|i: int|
                    0 <= i < ps@.len() && polygon_has_zero_length_edge(#[trigger] ps@[i]);
                assert(parts[i] is Err);
            }
        },
        Shape::Collection(ms) => {
            lemma_members_fail(s, ms@.len() as int, erode, arc_segments);
        },
        _ => {},
    }
}

} // verus!
