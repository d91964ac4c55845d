//! Icons the tree shows beside entries.

use vstd::prelude::*;
use crate::text::str_eq;

verus! {

/// The icon shown for a file of the given extension.
pub open spec fn type_icon_of(ext: Seq<char>) -> Seq<char> {
    if ext == "png"@ || ext == "jpg"@ || ext == "jpeg"@ {
        "🖼️"@
    } else if ext == "typ"@ || ext == "pdf"@ {
        "📄"@
    } else if ext == "rs"@ {
        "🦀"@
    } else if ext == "md"@ {
        "📝"@
    } else {
        "🔹"@
    }
}

/// The pair of icons for a file: the generic document icon, and the one
/// its extension selects.
pub fn get_icons(ext: &str) -> (r: (&'static str, &'static str))
    ensures
        r.0@ == "📄"@,
        r.1@ == type_icon_of(ext@),
{
    let type_icon: &'static str = if str_eq(ext, "png") || str_eq(ext, "jpg") || str_eq(
        ext,
        "jpeg",
    ) {
        "🖼️"
    } else if str_eq(ext, "typ") || str_eq(ext, "pdf") {
        "📄"
    } else if str_eq(ext, "rs") {
        "🦀"
    } else if str_eq(ext, "md") {
        "📝"
    } else {
        "🔹"
    };
    ("📄", type_icon)
}

} // verus!
