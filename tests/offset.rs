use geo_offset::{
    arc_segment_count, circle_vertex_count, offset_segment, EdgeError, OffsetError, Polygon,
    Polyline, Region, Shape, MAX_ARC_SEGMENTS,
};

fn union(a: Region, b: Region) -> Region {
    Region::Union(Box::new(a), Box::new(b))
}

fn difference(a: Region, b: Region) -> Region {
    Region::Difference(Box::new(a), Box::new(b))
}

fn stadium(start: usize, end: usize, arc_segments: u32) -> Region {
    Region::Stadium { start, end, arc_segments }
}

fn line(points: &[usize]) -> Polyline {
    Polyline { points: points.to_vec() }
}

/// The unit square (0,0), (1,0), (1,1), (0,1) as a closed ring over the
/// identifiers 0 to 3.
fn unit_square() -> Polygon {
    Polygon { exterior: line(&[0, 1, 2, 3, 0]), interiors: vec![] }
}

fn unit_square_ring_region(arc_segments: u32) -> Region {
    let mut acc = Region::Empty;
    for (a, b) in [(0, 1), (1, 2), (2, 3), (3, 0)] {
        acc = union(acc, stadium(a, b, arc_segments));
    }
    Region::OuterFirst(Box::new(acc))
}

const ZERO_LENGTH: OffsetError = OffsetError::EdgeError(EdgeError::ZeroLength);

#[test]
fn arc_segment_count_is_odd_and_not_above_request() {
    assert_eq!(arc_segment_count(1), 1);
    assert_eq!(arc_segment_count(4), 3);
    assert_eq!(arc_segment_count(5), 5);
    assert_eq!(arc_segment_count(u32::MAX), u32::MAX);
    assert_eq!(arc_segment_count(u32::MAX - 1), u32::MAX - 2);
}

#[test]
fn circle_vertex_count_is_twice_plus_one() {
    assert_eq!(circle_vertex_count(0), 1);
    assert_eq!(circle_vertex_count(5), 11);
    assert_eq!(circle_vertex_count(MAX_ARC_SEGMENTS), u32::MAX);
}

#[test]
fn point_with_five_arc_segments_has_eleven_vertices() {
    let r = Shape::Point(0).offset_with_arc_segments(false, 5);
    assert_eq!(r, Ok(Region::Disc { center: 0, vertices: 11 }));
}

#[test]
fn default_resolution_is_five() {
    assert_eq!(Shape::Point(3).offset(false), Ok(Region::Disc { center: 3, vertices: 11 }));
    assert_eq!(Shape::Segment(0, 1).offset(false), Ok(stadium(0, 1, 5)));
}

#[test]
fn segment_gives_one_stadium() {
    let r = Shape::Segment(0, 1).offset_with_arc_segments(false, 5);
    assert_eq!(r, Ok(stadium(0, 1, 5)));
    let r = Shape::Segment(1, 0).offset_with_arc_segments(false, 6);
    assert_eq!(r, Ok(stadium(1, 0, 5)));
}

#[test]
fn degenerate_segment_is_offset_as_point() {
    for arc_segments in [1, 2, 5, 8] {
        let seg = Shape::Segment(7, 7).offset_with_arc_segments(false, arc_segments);
        let point = Shape::Point(7).offset_with_arc_segments(false, arc_segments);
        assert_eq!(seg, point);
        assert!(seg.is_ok());
    }
    assert_eq!(offset_segment(2, 2, 5), Region::Disc { center: 2, vertices: 11 });
}

#[test]
fn erosion_of_open_curves_is_empty() {
    let shapes = vec![
        Shape::Point(0),
        Shape::Segment(0, 1),
        Shape::Segment(0, 0),
        Shape::Polyline(line(&[0, 1, 2])),
        Shape::Polyline(line(&[0, 0, 1])),
        Shape::MultiPoint(vec![0, 1]),
        Shape::MultiPolyline(vec![line(&[0, 1]), line(&[2, 2])]),
    ];
    for s in shapes {
        assert_eq!(s.offset_with_arc_segments(true, 5), Ok(Region::Empty));
    }
}

#[test]
fn unit_square_dilation() {
    let r = Shape::Polygon(unit_square()).offset_with_arc_segments(false, 5);
    let expected = union(
        union(Region::Area(unit_square()), unit_square_ring_region(5)),
        Region::Empty,
    );
    assert_eq!(r, Ok(expected));
}

#[test]
fn unit_square_erosion() {
    let r = Shape::Polygon(unit_square()).offset_with_arc_segments(true, 5);
    let expected = difference(
        difference(Region::Area(unit_square()), unit_square_ring_region(5)),
        Region::Empty,
    );
    assert_eq!(r, Ok(expected));
}

#[test]
fn polygon_with_hole() {
    let p = Polygon { exterior: line(&[0, 1, 2, 0]), interiors: vec![line(&[3, 4, 5, 3])] };
    let r = Shape::Polygon(p.clone()).offset_with_arc_segments(false, 3);
    let ext = Region::OuterFirst(Box::new(union(
        union(union(Region::Empty, stadium(0, 1, 3)), stadium(1, 2, 3)),
        stadium(2, 0, 3),
    )));
    let hole = Region::OuterFirst(Box::new(union(
        union(union(Region::Empty, stadium(3, 4, 3)), stadium(4, 5, 3)),
        stadium(5, 3, 3),
    )));
    let expected = union(union(Region::Area(p), ext), union(Region::Empty, hole));
    assert_eq!(r, Ok(expected));
}

#[test]
fn polyline_unites_stadiums_and_keeps_outer_piece() {
    let r = Shape::Polyline(line(&[0, 1, 2])).offset_with_arc_segments(false, 4);
    let expected = Region::OuterFirst(Box::new(union(
        union(Region::Empty, stadium(0, 1, 3)),
        stadium(1, 2, 3),
    )));
    assert_eq!(r, Ok(expected));
}

#[test]
fn polyline_of_one_point_is_empty() {
    let r = Shape::Polyline(line(&[4])).offset_with_arc_segments(false, 5);
    assert_eq!(r, Ok(Region::OuterFirst(Box::new(Region::Empty))));
    let r = Shape::Polyline(line(&[])).offset_with_arc_segments(false, 5);
    assert_eq!(r, Ok(Region::OuterFirst(Box::new(Region::Empty))));
}

#[test]
fn zero_length_edge_in_polyline_fails() {
    let r = Shape::Polyline(line(&[0, 1, 1, 2])).offset_with_arc_segments(false, 5);
    assert_eq!(r, Err(ZERO_LENGTH));
}

#[test]
fn zero_length_edge_in_ring_fails_both_ways() {
    let p = Polygon { exterior: line(&[0, 1, 1, 2, 0]), interiors: vec![] };
    assert_eq!(Shape::Polygon(p.clone()).offset_with_arc_segments(false, 5), Err(ZERO_LENGTH));
    assert_eq!(Shape::Polygon(p).offset_with_arc_segments(true, 5), Err(ZERO_LENGTH));
    let q = Polygon { exterior: line(&[0, 1, 2, 0]), interiors: vec![line(&[3, 3])] };
    assert_eq!(Shape::Polygon(q).offset_with_arc_segments(true, 5), Err(ZERO_LENGTH));
}

#[test]
fn multi_point_unites_discs_in_order() {
    let r = Shape::MultiPoint(vec![2, 0]).offset_with_arc_segments(false, 1);
    let expected = union(
        union(Region::Empty, Region::Disc { center: 2, vertices: 3 }),
        Region::Disc { center: 0, vertices: 3 },
    );
    assert_eq!(r, Ok(expected));
    assert_eq!(Shape::MultiPoint(vec![]).offset_with_arc_segments(false, 1), Ok(Region::Empty));
}

#[test]
fn multi_polyline_unites_members() {
    let r = Shape::MultiPolyline(vec![line(&[0, 1]), line(&[2, 3])])
        .offset_with_arc_segments(false, 5);
    let one = |a, b| {
        Region::OuterFirst(Box::new(union(Region::Empty, stadium(a, b, 5))))
    };
    assert_eq!(r, Ok(union(union(Region::Empty, one(0, 1)), one(2, 3))));
    let r = Shape::MultiPolyline(vec![line(&[0, 1]), line(&[2, 2])])
        .offset_with_arc_segments(false, 5);
    assert_eq!(r, Err(ZERO_LENGTH));
}

#[test]
fn multi_polygon_unites_members() {
    let a = Polygon { exterior: line(&[0, 1, 2, 0]), interiors: vec![] };
    let r = Shape::MultiPolygon(vec![a.clone()]).offset_with_arc_segments(true, 1);
    let ring = Region::OuterFirst(Box::new(union(
        union(union(Region::Empty, stadium(0, 1, 1)), stadium(1, 2, 1)),
        stadium(2, 0, 1),
    )));
    let one = difference(difference(Region::Area(a.clone()), ring), Region::Empty);
    assert_eq!(r, Ok(union(Region::Empty, one)));
    let bad = Polygon { exterior: line(&[0, 0]), interiors: vec![] };
    let r = Shape::MultiPolygon(vec![a, bad]).offset_with_arc_segments(false, 1);
    assert_eq!(r, Err(ZERO_LENGTH));
}

#[test]
fn collection_unites_members_and_propagates_failure() {
    let c = Shape::Collection(vec![
        Shape::Point(0),
        Shape::Collection(vec![Shape::Segment(1, 2)]),
    ]);
    let expected = union(
        union(Region::Empty, Region::Disc { center: 0, vertices: 11 }),
        union(Region::Empty, stadium(1, 2, 5)),
    );
    assert_eq!(c.offset_with_arc_segments(false, 5), Ok(expected));

    let c = Shape::Collection(vec![
        Shape::Point(0),
        Shape::Polyline(line(&[1, 1])),
    ]);
    assert_eq!(c.offset_with_arc_segments(false, 5), Err(ZERO_LENGTH));

    let c = Shape::Collection(vec![
        Shape::Point(0),
        Shape::Polyline(line(&[1, 1])),
    ]);
    let expected = union(union(Region::Empty, Region::Empty), Region::Empty);
    assert_eq!(c.offset_with_arc_segments(true, 5), Ok(expected));

    assert_eq!(Shape::Collection(vec![]).offset_with_arc_segments(true, 5), Ok(Region::Empty));
}
