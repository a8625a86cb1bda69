//! `FileName`: the name of an entry in a directory, which never holds a
//! path separator.
use vstd::prelude::*;

use crate::errors::{Error, debug_quoted, debug_text};
use crate::path::{Path, joined};
use crate::text::{chars_of, contains_seq, owned, vec_contains};

verus! {

/// A name without path separators.
pub struct FileName {
    value: String,
}

/// The message of a name that holds a separator.
pub open spec fn separator_message(value: Seq<char>) -> Seq<char> {
    "FileName contains path separator "@ + debug_quoted("/"@) + ": "@ + debug_quoted(value)
}

/// How a name is shown for debugging: its type and its text, quoted.
pub open spec fn file_name_debug(value: Seq<char>) -> Seq<char> {
    "iocore::filename::FileName("@ + debug_quoted(value) + ")"@
}

/// Whether `value` holds a separator.
fn has_separator(value: &str) -> (r: bool)
    ensures
        r == contains_seq(value@, "/"@),
{
    let v = chars_of(value);
    let sep = chars_of("/");
    vec_contains(&v, &sep)
}

/// The message for a name that holds a separator.
fn separator_error(value: &str) -> (r: Error)
    ensures
        r matches Error::MalformedFileName(m) && m@ == separator_message(value@),
{
    let mut m = owned("FileName contains path separator ");
    let q = debug_text("/");
    m.append(q.as_str());
    m.append(": ");
    let v = debug_text(value);
    m.append(v.as_str());
    Error::MalformedFileName(m)
}

impl FileName {
    /// A name holds no separator.
    #[verifier::type_invariant]
    spec fn no_separator(self) -> bool {
        !contains_seq(self.value@, "/"@)
    }

    /// The text of this name.
    pub closed spec fn text(self) -> Seq<char> {
        self.value@
    }

    /// The name `name`, refused where it holds a separator.
    pub fn new(name: &str) -> (r: Result<FileName, Error>)
        ensures
            contains_seq(name@, "/"@) ==> (r matches Err(Error::MalformedFileName(m)) && m@ == separator_message(name@)),
            !contains_seq(name@, "/"@) ==> (r matches Ok(f) && f.text() == name@),
    {
        if has_separator(name) {
            Err(separator_error(name))
        } else {
            Ok(FileName { value: owned(name) })
        }
    }

    /// Checks that the name holds no separator, which always holds.
    pub fn validate(&self) -> (r: Result<(), Error>)
        ensures
            r is Ok,
            contains_seq(self.text(), "/"@) ==> r is Err,
    {
        proof {
            use_type_invariant(self);
        }
        if has_separator(self.value.as_str()) {
            Err(separator_error(self.value.as_str()))
        } else {
            Ok(())
        }
    }

    /// The path of this name inside `path`, which must not be an existing
    /// entry other than a directory (the caller reports whether it exists and
    /// whether it is a directory).
    pub fn at_path(&self, path: &Path, path_exists: bool, path_is_dir: bool) -> (r: Result<Path, Error>)
        ensures
            !path_exists || path_is_dir ==> (r matches Ok(p) && p@ == joined(path@, self.text())),
            path_exists && !path_is_dir ==> (r matches Err(Error::PathConversionError(m)) && m@
                == "in joining "@ + file_name_debug(self.text()) + ": "@ + debug_quoted(path@)
                + " exists and is not a diretory"@),
    {
        match self.validate() {
            Ok(()) => {},
            Err(e) => return Err(e),
        }
        if !path_exists || path_is_dir {
            Ok(path.join(self.value.as_str()))
        } else {
            let mut m = owned("in joining ");
            let d = self.to_debug_string();
            m.append(d.as_str());
            m.append(": ");
            let q = debug_text(path.as_str());
            m.append(q.as_str());
            m.append(" exists and is not a diretory");
            Err(Error::PathConversionError(m))
        }
    }

    /// The text of this name.
    pub fn to_string(&self) -> (r: String)
        ensures
            r@ == self.text(),
    {
        owned(self.value.as_str())
    }

    /// How this name is shown for debugging.
    pub fn to_debug_string(&self) -> (r: String)
        ensures
            r@ == file_name_debug(self.text()),
    {
        let mut r = owned("iocore::filename::FileName(");
        let q = debug_text(self.value.as_str());
        r.append(q.as_str());
        r.append(")");
        r
    }
}

} // verus!
