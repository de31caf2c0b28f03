//! File names.
//!
//! The stem of a file name is taken by the standard library. Nothing in this
//! module is proved: it gives that result a name for contracts to speak of.

use vstd::prelude::*;

verus! {

/// What `std::path::Path::file_stem` gives for a path: the last component
/// without its extension, or nothing where the path has no last component.
/// It is computed from the characters of the path alone.
pub uninterp spec fn file_stem_of(path: Seq<char>) -> Option<Seq<char>>;

/// Calls `std::path::Path::file_stem` on `path`. The stem of a path that
/// is a string is a string again, a part of the path.
#[verifier::external_body]
pub(crate) fn file_stem<'a>(path: &'a str) -> (stem: Option<&'a str>)
    ensures
        match stem {
            Some(s) => file_stem_of(path@) == Some(s@),
            None => file_stem_of(path@) is None,
        },
{
    std::path::Path::new(path).file_stem()?.to_str()
}

} // verus!
