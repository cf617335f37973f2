//! The two operations of the crate: measuring a document and
//! rendering it to a PNG buffer.
//!
//! Both share the same front half: build the per-call font catalog,
//! parse the markup, and resolve text into path geometry. Each call
//! also hands back one diagnostic per caller-supplied font file, so
//! that the boundary can report load failures without failing the
//! call. Failures follow one order, first match wins: the parse
//! failure, then (for rendering) the rejected scale, the unusable
//! size, the failed allocation, the failed encode.

use vstd::prelude::*;

use crate::errors::SvgError;
use crate::ext::collect_node_records;
use crate::ext::convert_text;
use crate::ext::encode_png;
use crate::ext::fit_of;
use crate::ext::fresh_surface;
use crate::ext::new_pixmap;
use crate::ext::painted_surface;
use crate::ext::parse_tree;
use crate::ext::parsed_size_of;
use crate::ext::pixmap_alloc_ok;
use crate::ext::png_of;
use crate::ext::records_of;
use crate::ext::render_to_pixmap;
use crate::ext::scaled_pixel_size;
use crate::ext::tree_size_bits;
use crate::fonts::FontLoadOutcome;
use crate::fonts::build_font_database;
use crate::fonts::paths_of;
use crate::report::MeasurementReport;
use crate::report::aggregate;
use crate::scale::scale_rejected;
use crate::scale::scale_rejected_exec;

verus! {

/// One diagnostic per supplied font path, in order.
pub open spec fn outcomes_cover(
    outcomes: Seq<FontLoadOutcome>,
    font_paths: Option<Vec<String>>,
) -> bool {
    &&& outcomes.len() == paths_of(font_paths).len()
    &&& forall|i: int|
        0 <= i < outcomes.len() ==> (#[trigger] outcomes[i]).path == paths_of(font_paths)[i]
}

/// The pixel dimensions of a document under a scale's bit pattern:
/// the fit of the intrinsic size its markup parses to.
pub open spec fn doc_fit(markup: Seq<char>, scale_bits: u32) -> Option<(u32, u32)>
    recommends
        parsed_size_of(markup) is Some,
{
    fit_of(parsed_size_of(markup)->Some_0, scale_bits)
}

/// A render call reaches allocation: the markup parses, the scale is
/// accepted, and the fit yields a pixel size.
pub open spec fn render_reaches_alloc(markup: Seq<char>, scale_bits: u32) -> bool {
    &&& parsed_size_of(markup) is Some
    &&& !scale_rejected(scale_bits)
    &&& doc_fit(markup, scale_bits) is Some
}

/// A render call's surface can be allocated: it reaches allocation
/// and the pixel size passes the surface's integer condition.
pub open spec fn render_alloc_ok(markup: Seq<char>, scale_bits: u32) -> bool {
    &&& render_reaches_alloc(markup, scale_bits)
    &&& pixmap_alloc_ok(
        doc_fit(markup, scale_bits)->Some_0.0,
        doc_fit(markup, scale_bits)->Some_0.1,
    )
}

/// A render call's output: encoding the surface that results from
/// rasterizing some document tree of the markup, at the scale, onto
/// the fresh surface of the document's pixel dimensions, yields
/// `out` (the bytes on success, nothing on an encode failure). The
/// tree is existential because text layout and referenced images
/// draw on the machine; the pixel dimensions are the markup's own.
pub open spec fn encodes_to(markup: Seq<char>, scale_bits: u32, out: Option<Seq<u8>>) -> bool
    recommends
        render_reaches_alloc(markup, scale_bits),
{
    exists|t: usvg::Tree|
        png_of(
            #[trigger] painted_surface(
                t,
                scale_bits,
                fresh_surface(
                    doc_fit(markup, scale_bits)->Some_0.0,
                    doc_fit(markup, scale_bits)->Some_0.1,
                ),
            ),
        ) == out
}

/// The shared front half: font catalog, parse, text-to-path. It
/// succeeds exactly when the markup parses; a failure is always a
/// parse failure. Text conversion leaves the intrinsic size as the
/// parsed tree had it.
fn load_document(markup: &str, font_paths: &Option<Vec<String>>) -> (r: (
    Vec<FontLoadOutcome>,
    Result<usvg::Tree, SvgError>,
))
    ensures
        outcomes_cover(r.0@, *font_paths),
        r.1 is Ok <==> parsed_size_of(markup@) is Some,
        r.1 matches Err(e) ==> e is Parse,
        r.1 matches Ok(t) ==> Some(tree_size_bits(t)) == parsed_size_of(markup@),
{
    let (db, outcomes) = build_font_database(font_paths);
    match parse_tree(markup) {
        Ok(tree) => {
            let mut tree = tree;
            convert_text(&mut tree, &db);
            (outcomes, Ok(tree))
        },
        Err(msg) => (outcomes, Err(SvgError::Parse(msg))),
    }
}

/// Measures a document: every node of the traversal that has
/// computable geometry yields a descriptor, and their rectangles are
/// folded into the overall rectangle.
///
/// The call succeeds exactly when the markup parses; the only failure
/// is a parse failure, and no report accompanies one. A returned
/// report is the aggregation of some document tree's traversal — so
/// the overall rectangle is the tight union of the nodes' rectangles
/// — and is well-formed: rectangles are ordered, ordinals strictly
/// increase, no identifier is empty, and the overall rectangle is
/// present exactly when a node was measured and contains every
/// node's rectangle.
pub fn measure(markup: &str, font_paths: Option<Vec<String>>) -> (r: (
    Vec<FontLoadOutcome>,
    Result<MeasurementReport, SvgError>,
))
    ensures
        outcomes_cover(r.0@, font_paths),
        r.1 is Ok <==> parsed_size_of(markup@) is Some,
        r.1 matches Ok(rep) ==> rep.wf(),
        r.1 matches Ok(rep) ==> exists|t: usvg::Tree| rep.matches(#[trigger] records_of(t)),
        r.1 matches Err(e) ==> e is Parse,
{
    let (outcomes, parsed) = load_document(markup, &font_paths);
    match parsed {
        Ok(tree) => {
            let records = collect_node_records(&tree);
            let report = aggregate(&records);
            proof {
                assert(report.matches(records_of(tree)));
            }
            (outcomes, Ok(report))
        },
        Err(e) => (outcomes, Err(e)),
    }
}

/// Renders a document to a PNG byte buffer at a uniform scale, given
/// as the bit pattern of a single-precision value.
///
/// The font catalog is built and the markup parsed first, whatever
/// the scale: one diagnostic per supplied font file comes back in
/// every case, and unparsable markup is the parse failure. Then a
/// scale that does not compare strictly greater than zero is rejected
/// with its bit pattern; then a document whose fit under the scale
/// yields no pixel size is the missing-size failure; then a pixel
/// size over the surface's limits is the allocation failure; what
/// remains succeeds or is the encode failure. A returned buffer is
/// the PNG encoding of a surface of the document's pixel dimensions,
/// rasterized at the scale; no partial buffer is ever returned.
pub fn render(markup: &str, scale_bits: u32, font_paths: Option<Vec<String>>) -> (r: (
    Vec<FontLoadOutcome>,
    Result<Vec<u8>, SvgError>,
))
    ensures
        outcomes_cover(r.0@, font_paths),
        (r.1 matches Err(e) && e is Parse) <==> parsed_size_of(markup@) is None,
        (r.1 matches Err(e) && e is InvalidScale) <==> (parsed_size_of(markup@) is Some
            && scale_rejected(scale_bits)),
        r.1 matches Err(e) ==> (e matches SvgError::InvalidScale(b) ==> b == scale_bits),
        (r.1 matches Err(e) && e is MissingSize) <==> (parsed_size_of(markup@) is Some
            && !scale_rejected(scale_bits) && doc_fit(markup@, scale_bits) is None),
        (r.1 matches Err(e) && e is SurfaceAlloc) <==> (render_reaches_alloc(markup@, scale_bits)
            && !render_alloc_ok(markup@, scale_bits)),
        (r.1 is Ok || (r.1 matches Err(e) && e is EncodePng)) <==> render_alloc_ok(
            markup@,
            scale_bits,
        ),
        r.1 matches Ok(bytes) ==> encodes_to(markup@, scale_bits, Some(bytes@)),
        r.1 matches Err(e) ==> (e is EncodePng ==> encodes_to(markup@, scale_bits, None)),
{
    let (outcomes, parsed) = load_document(markup, &font_paths);
    let tree = match parsed {
        Ok(t) => t,
        Err(e) => {
            return (outcomes, Err(e));
        },
    };
    if scale_rejected_exec(scale_bits) {
        return (outcomes, Err(SvgError::InvalidScale(scale_bits)));
    }
    let (width, height) = match scaled_pixel_size(&tree, scale_bits) {
        Some(wh) => wh,
        None => {
            return (outcomes, Err(SvgError::MissingSize));
        },
    };
    let mut pixmap = match new_pixmap(width, height) {
        Some(p) => p,
        None => {
            return (outcomes, Err(SvgError::SurfaceAlloc));
        },
    };
    proof {
        assert(pixmap == fresh_surface(doc_fit(markup@, scale_bits)->Some_0.0, doc_fit(
            markup@,
            scale_bits,
        )->Some_0.1));
    }
    match render_to_pixmap(&tree, scale_bits, &mut pixmap) {
        Some(_) => {},
        None => {
            return (outcomes, Err(SvgError::MissingSize));
        },
    }
    match encode_png(&pixmap) {
        Ok(bytes) => (outcomes, Ok(bytes)),
        Err(_) => (outcomes, Err(SvgError::EncodePng)),
    }
}

} // verus!
