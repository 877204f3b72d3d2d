//! Validation of body outline geometry before it is drawn.
//!
//! A body is rendered as a closed outline over its bounding polygon's
//! corners; a polygon with fewer than four corners is a broken bounding
//! box and is rejected instead of being drawn as garbage.

use vstd::prelude::*;

verus! {

/// Why a body's outline was not drawn.
#[derive(Clone, Copy, PartialEq, Eq, Structural, Debug)]
pub enum GeometryError {
    /// A bounding polygon with fewer than four corners.
    TooFewCorners,
}

/// How many corners of a bounding polygon to draw: all of them, provided
/// there are at least the four a bounding box guarantees.
pub fn outline_corner_count(corners: usize) -> (r: Result<usize, GeometryError>)
    ensures
        r is Ok <==> corners >= 4,
        r matches Ok(n) ==> n == corners,
        r is Err ==> r == Err::<usize, GeometryError>(GeometryError::TooFewCorners),
{
    if corners < 4 {
        Err(GeometryError::TooFewCorners)
    } else {
        Ok(corners)
    }
}

} // verus!
