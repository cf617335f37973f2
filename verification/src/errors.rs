//! The failures of measurement and rendering.

use vstd::prelude::*;

verus! {

/// What can go wrong in a measurement or render call. Any of these
/// aborts the call; a caller never receives a partial report or a
/// partial byte buffer. Failure to load one caller-supplied font file
/// is not among them: it is absorbed and reported as a diagnostic.
#[derive(Debug)]
pub enum SvgError {
    /// The markup could not be parsed into a document tree; carries
    /// the parser's diagnostic text.
    Parse(String),
    /// The requested scale does not compare strictly greater than
    /// zero; carries the bit pattern of the rejected single-precision
    /// scale.
    InvalidScale(u32),
    /// The document has no resolvable intrinsic size, or the computed
    /// pixel dimensions are degenerate.
    MissingSize,
    /// The raster surface of the computed size could not be allocated.
    SurfaceAlloc,
    /// The raster surface could not be encoded as a PNG buffer.
    EncodePng,
}

} // verus!
