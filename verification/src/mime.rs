//! The media type of a file, guessed from the extension of its name.

use vstd::prelude::*;
use vstd::string::*;

verus! {

/// The media type that `mime_guess` has for a file named `filename`, or
/// `application/octet-stream` where it has none.
pub uninterp spec fn guessed_mime(filename: Seq<char>) -> Seq<char>;

/// Calls `mime_guess::from_path` and `MimeGuess::first_or_octet_stream`: the result is
/// the text of the first media type listed for the extension of `filename`, or of
/// `application/octet-stream`. It depends on the name alone: no file is opened.
#[verifier::external_body]
pub(crate) fn guess_mime(filename: &str) -> (mime: String)
    ensures
        mime@ == guessed_mime(filename@),
{
    mime_guess::from_path(filename).first_or_octet_stream().to_string()
}

} // verus!
