//! The media type of an archive.

use vstd::prelude::*;

verus! {

/// The media type that `mime_guess` attaches to a file name: the first one
/// that it knows for the name's extension, and the type of arbitrary bytes
/// for a name whose extension it does not know.
pub uninterp spec fn mime_of(file_name: Seq<char>) -> Seq<char>;

/// `mime_guess::from_path` followed by `MimeGuess::first_or_octet_stream`,
/// written out as text. Trusted: the guess looks at the name alone, never at
/// the disk, so it is named by [`mime_of`].
#[verifier::external_body]
pub(crate) fn guess(file_name: &str) -> (r: String)
    ensures
        r@ == mime_of(file_name@),
{
    mime_guess::from_path(file_name).first_or_octet_stream().as_ref().to_string()
}

} // verus!
