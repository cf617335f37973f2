//! The boundary to the parsing, text-layout, rasterization and
//! encoding collaborators. Everything here is trusted: each function
//! only crosses into an outside crate and converts values at the
//! edge; the contracts state what the crates' sources show.

use vstd::prelude::*;

use usvg::NodeExt;
use usvg_text_layout::TreeTextToPath;
use usvg_text_layout::fontdb;

use crate::geom::RawRect;
use crate::report::NodeRecord;

verus! {

#[verifier::external_type_specification]
#[verifier::external_body]
pub struct ExTree(usvg::Tree);

#[verifier::external_type_specification]
#[verifier::external_body]
pub struct ExFontDatabase(fontdb::Database);

#[verifier::external_type_specification]
#[verifier::external_body]
pub struct ExPixmap(resvg::tiny_skia::Pixmap);

/// Relies on fontdb::Database::new: creates an empty font catalog.
#[verifier::external_body]
pub(crate) fn font_database_new() -> fontdb::Database {
    fontdb::Database::new()
}

/// Relies on fontdb::Database::load_system_fonts: registers the fonts
/// installed on the machine; what is found depends on the machine and
/// never fails outright.
#[verifier::external_body]
pub(crate) fn load_system_fonts(db: &mut fontdb::Database) {
    db.load_system_fonts();
}

/// Relies on fontdb::Database::load_font_file: reads one font file
/// and registers its faces; the outcome depends on what is on disk.
/// A failure is flattened to its text, and happens before anything is
/// registered, so it leaves the catalog as it was.
#[verifier::external_body]
pub(crate) fn load_font_file(db: &mut fontdb::Database, path: &String) -> (r: Result<(), String>)
    ensures
        r is Err ==> *final(db) == *old(db),
{
    db.load_font_file(path).map_err(|e| format!("{}", e))
}

/// Whether given markup parses, and the parsed document's intrinsic
/// size (width and height, as double-precision bit patterns) when it
/// does. Both are functions of the markup alone: the parser's error
/// set is closed over the markup's bytes, and the intrinsic size
/// comes from the document's own attributes. Nothing more of the
/// tree is a function of the markup: image references may draw on
/// what is on disk.
pub uninterp spec fn parsed_size_of(markup: Seq<char>) -> Option<(u64, u64)>;

/// A tree's intrinsic size, as double-precision bit patterns: a pure
/// read of the tree value's size field.
pub uninterp spec fn tree_size_bits(tree: usvg::Tree) -> (u64, u64);

/// The pixel dimensions that the fit computation yields for an
/// intrinsic size (as bit patterns) under a scale's bit pattern, if
/// any: pure arithmetic, a function of the two arguments alone.
pub uninterp spec fn fit_of(size_bits: (u64, u64), scale_bits: u32) -> Option<(u32, u32)>;

/// The records of a tree's document-order traversal: identifier,
/// category name and rectangle of every node are pure reads and pure
/// geometry of the tree value, so the records are a function of it.
pub uninterp spec fn records_of(tree: usvg::Tree) -> Seq<NodeRecord>;

/// The surface that allocation yields for given dimensions: filled
/// with transparent black, a function of the dimensions alone.
pub uninterp spec fn fresh_surface(width: u32, height: u32) -> resvg::tiny_skia::Pixmap;

/// The surface after rasterizing a tree at a scale onto a starting
/// surface: rasterization draws nothing from outside its inputs.
pub uninterp spec fn painted_surface(
    tree: usvg::Tree,
    scale_bits: u32,
    surface: resvg::tiny_skia::Pixmap,
) -> resvg::tiny_skia::Pixmap;

/// The PNG encoding of a surface, if encoding succeeds: a function of
/// the surface alone.
pub uninterp spec fn png_of(surface: resvg::tiny_skia::Pixmap) -> Option<Seq<u8>>;

/// Relies on usvg::Tree::from_data with usvg::Options::default():
/// parses markup into a document tree; a failure carries the parser's
/// diagnostic, flattened to its text. Success or failure is decided
/// by the markup alone (the error set is closed: encoding, gzip,
/// element limit, invalid size, XML structure; unresolvable image
/// references are warned about and skipped, never an error), and so
/// is the tree's intrinsic size. The tree's nodes may draw on
/// referenced image files, so nothing more of the tree is stated.
#[verifier::external_body]
pub(crate) fn parse_tree(markup: &str) -> (r: Result<usvg::Tree, String>)
    ensures
        r is Ok <==> parsed_size_of(markup@) is Some,
        r matches Ok(t) ==> Some(tree_size_bits(t)) == parsed_size_of(markup@),
{
    usvg::Tree::from_data(markup.as_bytes(), &usvg::Options::default()).map_err(
        |e| format!("{:?}", e),
    )
}

/// Relies on usvg_text_layout::TreeTextToPath::convert_text: replaces
/// the tree's text nodes by path geometry resolved against the font
/// catalog. The conversion rewrites nodes under the root only and
/// leaves the tree's intrinsic size untouched.
#[verifier::external_body]
pub(crate) fn convert_text(tree: &mut usvg::Tree, db: &fontdb::Database)
    ensures
        tree_size_bits(*final(tree)) == tree_size_bits(*old(tree)),
{
    tree.convert_text(db);
}

/// Walks the tree in document order and hands each node out as plain
/// values. Relies on rctree::Node::descendants (pre-order, the node
/// itself first), usvg::NodeExt::id and calculate_bbox, and
/// usvg::PathBbox::to_rect; the node's variant is told apart into its
/// category name, and the rectangle's edges are handed on as
/// double-precision bit patterns. All of these read the tree value
/// alone, so the records are the function of it named `records_of`.
#[verifier::external_body]
pub(crate) fn collect_node_records(tree: &usvg::Tree) -> (r: Vec<NodeRecord>)
    ensures
        r@ == records_of(*tree),
{
    tree.root.descendants().map(|node| NodeRecord {
        id: node.id().to_string(),
        kind: match *node.borrow() {
            usvg::NodeKind::Group(_) => "group".to_string(),
            usvg::NodeKind::Path(_) => "path".to_string(),
            usvg::NodeKind::Image(_) => "image".to_string(),
            usvg::NodeKind::Text(_) => "text".to_string(),
        },
        bbox: node.calculate_bbox().and_then(|b| b.to_rect()).map(
            |r| RawRect { left: r.left().to_bits(), top: r.top().to_bits(), right: r.right().to_bits(), bottom: r.bottom().to_bits() },
        ),
    }).collect()
}

/// Relies on usvg::Size::to_screen_size and usvg::FitTo::fit_to with
/// FitTo::Zoom: the pixel dimensions of the document's intrinsic size
/// under the given uniform scale, or None when no valid size comes
/// out. The scale's bit pattern is cast back to the zoom value
/// through bytemuck::cast. The result is pure arithmetic on the
/// tree's intrinsic size and the scale, named by `fit_of`;
/// usvg::ScreenSize keeps both dimensions positive, so a returned
/// size is never degenerate.
#[verifier::external_body]
pub(crate) fn scaled_pixel_size(tree: &usvg::Tree, scale_bits: u32) -> (r: Option<(u32, u32)>)
    ensures
        r == fit_of(tree_size_bits(*tree), scale_bits),
        r matches Some(wh) ==> wh.0 > 0 && wh.1 > 0,
{
    usvg::FitTo::Zoom(bytemuck::cast(scale_bits)).fit_to(tree.size.to_screen_size()).map(
        |s| (s.width(), s.height()),
    )
}

/// When tiny_skia::Pixmap::new succeeds: both dimensions nonzero, a
/// row's bytes within the signed 32-bit range, and the whole buffer's
/// length representable (its source checks exactly these, with four
/// bytes per pixel).
pub open spec fn pixmap_alloc_ok(width: u32, height: u32) -> bool {
    &&& 0 < width
    &&& 0 < height
    &&& width * 4 <= 0x7FFF_FFFF
    &&& (height - 1) * (width * 4) + width * 4 <= usize::MAX
}

/// Relies on tiny_skia::Pixmap::new: allocates a pixel buffer filled
/// with transparent black; a zero dimension or a size over the
/// crate's limits yields None, by the integer condition of
/// `pixmap_alloc_ok` alone. A returned surface is the transparent
/// surface of the given dimensions, named by `fresh_surface`.
#[verifier::external_body]
pub(crate) fn new_pixmap(width: u32, height: u32) -> (r: Option<resvg::tiny_skia::Pixmap>)
    ensures
        r is Some <==> pixmap_alloc_ok(width, height),
        r matches Some(p) ==> p == fresh_surface(width, height),
{
    resvg::tiny_skia::Pixmap::new(width, height)
}

/// Relies on resvg::render with usvg::FitTo::Zoom and the identity
/// transform: draws the tree onto the surface at the uniform scale
/// (the scale's bit pattern cast back to the zoom value through
/// bytemuck::cast). Its only early exit is the very fit computation
/// named by `fit_of`, so it returns None exactly when that fit is
/// None; rasterization itself draws nothing from outside the tree,
/// the scale and the surface.
#[verifier::external_body]
pub(crate) fn render_to_pixmap(
    tree: &usvg::Tree,
    scale_bits: u32,
    pixmap: &mut resvg::tiny_skia::Pixmap,
) -> (r: Option<()>)
    ensures
        r is Some <==> fit_of(tree_size_bits(*tree), scale_bits) is Some,
        r is Some ==> *final(pixmap) == painted_surface(*tree, scale_bits, *old(pixmap)),
{
    resvg::render(
        tree,
        usvg::FitTo::Zoom(bytemuck::cast(scale_bits)),
        resvg::tiny_skia::Transform::default(),
        pixmap.as_mut(),
    )
}

/// Relies on tiny_skia::Pixmap::encode_png: encodes the surface as a
/// PNG byte buffer, a function of the surface alone, named by
/// `png_of`; a failure is flattened to its text.
#[verifier::external_body]
pub(crate) fn encode_png(pixmap: &resvg::tiny_skia::Pixmap) -> (r: Result<Vec<u8>, String>)
    ensures
        r is Ok <==> png_of(*pixmap) is Some,
        r matches Ok(bytes) ==> Some(bytes@) == png_of(*pixmap),
{
    pixmap.encode_png().map_err(|e| format!("{}", e))
}

} // verus!
