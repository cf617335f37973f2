//! The per-call font catalog.
//!
//! Every call builds its catalog from scratch: the system-installed
//! fonts are always registered, then each caller-supplied font file
//! is tried in turn. A file that fails to load is recorded as a
//! diagnostic and skipped; partial font failure never fails the call.

use vstd::prelude::*;

use usvg_text_layout::fontdb;

use crate::ext::font_database_new;
use crate::ext::load_font_file;
use crate::ext::load_system_fonts;

verus! {

/// What became of one caller-supplied font file: its path, and the
/// failure text if it could not be loaded. The text is whatever the
/// loader reported; since loading depends on what is on disk, the
/// contracts promise the path and the order of the outcomes, nothing
/// of the `error` field.
pub struct FontLoadOutcome {
    pub path: String,
    pub error: Option<String>,
}

/// The caller-supplied font paths, or none.
pub open spec fn paths_of(font_paths: Option<Vec<String>>) -> Seq<String> {
    match font_paths {
        Some(v) => v@,
        None => Seq::empty(),
    }
}

/// Builds the font catalog for one call: system fonts first, then
/// each supplied font file, best-effort. One outcome is returned per
/// supplied path, in the order given, whether or not it loaded.
pub fn build_font_database(font_paths: &Option<Vec<String>>) -> (r: (
    fontdb::Database,
    Vec<FontLoadOutcome>,
))
    ensures
        r.1@.len() == paths_of(*font_paths).len(),
        forall|i: int| 0 <= i < r.1@.len() ==> (#[trigger] r.1@[i]).path == paths_of(
            *font_paths,
        )[i],
{
    let mut db = font_database_new();
    load_system_fonts(&mut db);
    let mut outcomes: Vec<FontLoadOutcome> = Vec::new();
    match font_paths {
        Some(paths) => {
            let mut i: usize = 0;
            while i < paths.len()
                invariant
                    i <= paths@.len(),
                    outcomes@.len() == i,
                    forall|j: int|
                        0 <= j < i ==> (#[trigger] outcomes@[j]).path == paths@[j],
                decreases paths@.len() - i,
            {
                let path = paths[i].clone();
                let error = match load_font_file(&mut db, &path) {
                    Ok(_) => None,
                    Err(msg) => Some(msg),
                };
                outcomes.push(FontLoadOutcome { path, error });
                i = i + 1;
            }
        },
        None => {},
    }
    (db, outcomes)
}

} // verus!
