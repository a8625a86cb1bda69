//! Turning bytes into text only when every byte belongs to valid UTF-8,
//! as `sanitation::SString::safe` decides it.
use vstd::prelude::*;
use vstd::utf8::{decode_utf8, valid_utf8};

use crate::errors::{
    debug_quoted, debug_text, error_message, exception_text, fs_error_text, Error,
    FileSystemError,
};
use crate::path::Path;

verus! {

/// The display text of the `sanitation::Error` that `SString::safe` gives
/// for a byte sequence it refuses.
pub uninterp spec fn refusal_text(bytes: Seq<u8>) -> Seq<char>;

/// Calls `sanitation::SString::new(bytes).safe()`. Its source converts the
/// bytes with `String::from_utf8`: the text comes back exactly when the bytes
/// are valid UTF-8, and it is the text they encode. Otherwise the error comes
/// back as its display text, which the source builds from the bytes alone.
#[verifier::external_body]
fn sanitized(bytes: &[u8]) -> (r: Result<String, String>)
    ensures
        match r {
            Ok(s) => valid_utf8(bytes@) && s@ == decode_utf8(bytes@),
            Err(m) => !valid_utf8(bytes@) && m@ == refusal_text(bytes@),
        },
{
    match sanitation::SString::new(bytes).safe() {
        Ok(s) => Ok(s),
        Err(e) => Err(e.to_string()),
    }
}

/// The text encoded by `bytes`; where they are not valid UTF-8, a
/// `SafetyError` holding the refusal.
pub fn safe_text(bytes: &[u8]) -> (r: Result<String, Error>)
    ensures
        r is Ok <==> valid_utf8(bytes@),
        r matches Ok(s) ==> s@ == decode_utf8(bytes@),
        r matches Err(e) ==> e matches Error::SafetyError(m) && m@ == refusal_text(bytes@),
{
    match sanitized(bytes) {
        Ok(s) => Ok(s),
        Err(m) => Err(Error::SafetyError(m)),
    }
}

/// The text encoded by `bytes`; where they are not valid UTF-8, a
/// `SafetyError` that names what was being converted.
pub fn safe_string(bytes: &[u8], short_description: &str) -> (r: Result<String, Error>)
    ensures
        r is Ok <==> valid_utf8(bytes@),
        r matches Ok(s) ==> s@ == decode_utf8(bytes@),
        r matches Err(e) ==> e matches Error::SafetyError(m) && m@ == refusal_text(bytes@)
            + " in converting "@ + debug_quoted(short_description@),
{
    match sanitized(bytes) {
        Ok(s) => Ok(s),
        Err(m) => {
            let mut text = m;
            text.append(" in converting ");
            let quoted = debug_text(short_description);
            text.append(quoted.as_str());
            Err(Error::SafetyError(text))
        },
    }
}

impl Path {
    /// The text of a file at this path whose contents are `bytes`: an
    /// `UnsafeFileContent` failure on this path where they are not valid UTF-8.
    pub fn text_of_contents(&self, bytes: &[u8]) -> (r: Result<String, Error>)
        ensures
            r is Ok <==> valid_utf8(bytes@),
            r matches Ok(s) ==> s@ == decode_utf8(bytes@),
            r matches Err(e) ==> e is FileSystemError && error_message(e) == debug_quoted(self@)
                + ": "@ + fs_error_text(FileSystemError::UnsafeFileContent) + " "@
                + exception_text(
                FileSystemError::UnsafeFileContent,
                self@,
                Some(refusal_text(bytes@)),
            ),
    {
        match sanitized(bytes) {
            Ok(s) => Ok(s),
            Err(m) => Err(
                Error::from_failure(FileSystemError::UnsafeFileContent, self.clone(), m.as_str()),
            ),
        }
    }
}

} // verus!
