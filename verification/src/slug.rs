//! The filesystem-safe slug of a user-supplied project name.

use vstd::prelude::*;

verus! {

/// The sanitized form of a name. Sanitizing strips path separators and
/// other characters that are unsafe in a file name; what exactly it keeps
/// is the sanitizer's affair, so the result only carries a name here.
pub uninterp spec fn slug_of(name: Seq<char>) -> Seq<char>;

/// Relies on sanitize_filename::sanitize_with_options, called with fixed
/// options (windows rules on, truncation on, empty replacement), so the
/// result depends on the characters of `name` alone.
#[verifier::external_body]
pub(crate) fn sanitize_name(name: &str) -> (r: String)
    ensures
        r@ == slug_of(name@),
{
    sanitize_filename::sanitize_with_options(
        name,
        sanitize_filename::Options { windows: true, truncate: true, replacement: "" },
    )
}

} // verus!
