//! The kinds of error that reading a package's component metadata can end in.

use vstd::prelude::*;

verus! {

/// What went wrong, by kind. No error of any kind is worth a second attempt
/// on the same manifest.
#[derive(Debug, Clone, Copy, PartialEq, Eq, Structural)]
pub enum ErrorKind {
    /// The component section does not have the shape of one: a field is
    /// missing or a key is unknown.
    MalformedDocument,
    /// Two fields are present of which one excludes the other.
    ConflictingFields,
    /// A target in the short form lacks its version or is otherwise not of
    /// that form.
    InvalidTarget,
    /// A package name or a world name is not what it has to be.
    InvalidIdentifier,
    /// The manifest's directory cannot be told.
    FilesystemError,
}

} // verus!
