use vstd::prelude::*;

verus! {

/// An open chain of points; each two consecutive points form one edge.
///
/// A closed ring is a chain whose last point repeats its first.
#[derive(Debug, Clone, PartialEq)]
pub struct Polyline {
    pub points: Vec<usize>,
}

/// A polygon: one exterior ring and any number of interior rings (holes).
#[derive(Debug, Clone, PartialEq)]
pub struct Polygon {
    pub exterior: Polyline,
    pub interiors: Vec<Polyline>,
}

/// The shapes that can be offset.
///
/// Points are named by identifiers into a table of distinct coordinates that
/// the caller keeps: two identifiers are equal exactly when the coordinates
/// they stand for are equal. Triangles, rectangles and other closed-form
/// primitives are given as their polygon.
#[derive(Debug, PartialEq)]
pub enum Shape {
    Point(usize),
    /// A single directed segment, from its first point to its second.
    Segment(usize, usize),
    Polyline(Polyline),
    Polygon(Polygon),
    MultiPoint(Vec<usize>),
    MultiPolyline(Vec<Polyline>),
    MultiPolygon(Vec<Polygon>),
    Collection(Vec<Shape>),
}

impl Shape {
    /// A shape without interior area: points, segments, polylines and their
    /// aggregates.
    pub open spec fn is_open_curve(self) -> bool {
        ||| self is Point
        ||| self is Segment
        ||| self is Polyline
        ||| self is MultiPoint
        ||| self is MultiPolyline
    }
}

} // verus!
