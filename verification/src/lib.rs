//! Measurement and rasterization of vector-graphics documents.
//!
//! The crate computes an axis-aligned bounding box for every
//! geometry-bearing node of a document plus an overall bounding box,
//! and rasterizes a document to a PNG byte buffer at a caller-chosen
//! uniform scale.

use vstd::prelude::*;

pub mod errors;
pub mod ext;
pub mod fonts;
pub mod geom;
pub mod pipeline;
pub mod report;
pub mod scale;

verus! {

/// The crate's semantic version string.
pub fn version() -> (r: &'static str)
    ensures
        r@ == "0.1.0"@,
{
    "0.1.0"
}

} // verus!
