//! Offsetting (buffering) of planar shapes.
//!
//! A shape is described over point identifiers: each identifier names one
//! distinct coordinate of a table that the caller keeps, so two identifiers
//! are equal exactly when the coordinates they name are equal. From such a
//! shape the library derives the offset as a [`Region`]: a term of union and
//! difference over round primitives (discs around points, stadiums around
//! segments) and the input polygons themselves. Evaluating that term with
//! coordinates and a polygon clipping engine is left to the caller.

pub mod arc;
pub mod error;
pub mod laws;
pub mod offset;
pub mod plan;
pub mod shape;

pub use arc::{arc_segment_count, circle_vertex_count, DEFAULT_ARC_SEGMENTS, MAX_ARC_SEGMENTS};
pub use error::{EdgeError, OffsetError};
pub use offset::{
    offset_multi_point, offset_multi_polygon, offset_multi_polyline, offset_polygon,
    offset_polyline, offset_segment,
};
pub use plan::Region;
pub use shape::{Polygon, Polyline, Shape};
