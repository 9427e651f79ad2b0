use vstd::prelude::*;

verus! {

/// Failure to derive the normals of an edge.
#[derive(Debug, Clone, Copy, PartialEq, Eq, Structural)]
pub enum EdgeError {
    /// The edge starts and ends at the same point, so it has no direction.
    ZeroLength,
}

/// If offset computing fails this error is returned.
#[derive(Debug, Clone, Copy, PartialEq, Eq, Structural)]
pub enum OffsetError {
    /// This error can be produced when manipulating edges.
    EdgeError(EdgeError),
}

} // verus!
