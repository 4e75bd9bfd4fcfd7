//! What counts as a well-formed credential, and the errors an interception
//! step can end in.

use vstd::prelude::*;

verus! {

/// A character may appear in an HTTP header value exactly when every byte of
/// its UTF-8 encoding is the horizontal tab or lies in `32..=126` or
/// `128..=255`.  A character below `128` is encoded as the single byte of its
/// own code; a character at `128` or above is encoded with bytes that are all
/// at least `128`.  So the allowed characters are the tab and everything that
/// is neither another control character nor delete.
pub open spec fn header_char_allowed(c: char) -> bool {
    c == '\t' || (c as u32 >= 32 && c as u32 != 127)
}

/// A credential can be carried as an HTTP header value exactly when each of
/// its characters is allowed there.
pub open spec fn header_text_allowed(text: Seq<char>) -> bool {
    forall|i: int| 0 <= i < text.len() ==> header_char_allowed(#[trigger] text[i])
}

/// The detail a rejected credential is reported with.
pub open spec fn invalid_credential_message() -> Seq<char> {
    "failed to parse header value"@
}

/// The two ways an interception step itself can fail.  An error coming back
/// from the rest of the chain is no `ChainError`: it is handed through
/// unchanged, never reclassified.
#[derive(Debug, Clone, PartialEq, Eq)]
pub enum ChainError {
    /// The credential source's fetch failed; `message` carries the source's
    /// own description of the failure.
    CredentialFetchFailed { message: String },
    /// The fetched credential cannot be encoded as a header value; `message`
    /// carries the formatting error's description.
    InvalidCredentialFormat { message: String },
}

} // verus!
