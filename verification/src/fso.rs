//! Metadata of one file system entry.

use vstd::prelude::*;
use vstd::string::*;

use crate::codes::FileType;
use crate::path::{is_component, path_text, UnixPath};

verus! {

/// Metadata snapshot of one file or directory.
#[derive(Debug, PartialEq, Eq)]
pub struct FileSystemObject {
    /// Time of the last modification, in seconds since the epoch.
    pub last_modified: u64,
    /// Size in bytes; meaningful for files only.
    pub size: u64,
    pub file_type: FileType,
    /// For a directory, whether it has no entries: 0 or 1.
    pub is_empty: u8,
    pub path: UnixPath,
}

/// What a [`FileSystemObject`] holds, with the path as its components.
pub struct FileSystemObjectView {
    pub last_modified: u64,
    pub size: u64,
    pub file_type: FileType,
    pub is_empty: u8,
    pub path: Seq<Seq<char>>,
}

impl View for FileSystemObject {
    type V = FileSystemObjectView;

    open spec fn view(&self) -> FileSystemObjectView {
        FileSystemObjectView {
            last_modified: self.last_modified,
            size: self.size,
            file_type: self.file_type,
            is_empty: self.is_empty,
            path: self.path@,
        }
    }
}

/// The failure to take a display name from a path without components.
#[derive(Debug, PartialEq, Eq)]
pub struct NameExtractionError {
    /// The path that has no name.
    pub path: UnixPath,
}

/// The error of the rdp crate that reports a failed attempt with `message`.
pub uninterp spec fn rdp_try_error(message: Seq<char>) -> rdp::model::error::Error;

/// The error type of the rdp crate, carried through and never looked into.
#[verifier::external_type_specification]
#[verifier::external_body]
pub struct ExRdpError(rdp::model::error::Error);

/// Builds the `TryError` variant of `rdp::model::error::Error` around a copy
/// of `message`. The result depends on the message alone.
#[verifier::external_body]
fn try_error(message: &str) -> (err: rdp::model::error::Error)
    ensures
        err == rdp_try_error(message@),
{
    rdp::model::error::Error::TryError(message.to_string())
}

impl NameExtractionError {
    /// The text that reports this error: a fixed prefix and the textual
    /// form of the path.
    pub open spec fn spec_message(&self) -> Seq<char> {
        "failed to extract name from path: "@ + path_text(self.path@)
    }

    /// The text that reports this error.
    pub fn message(&self) -> (text: String)
        ensures
            text@ == self.spec_message(),
    {
        let mut text = String::from_str("failed to extract name from path: ");
        let path = self.path.to_text();
        text.append(path.as_str());
        text
    }

    /// This error as an error of the rdp crate, for callers that report
    /// through it: a `TryError` that holds [`Self::message`].
    pub fn to_rdp_error(&self) -> (err: rdp::model::error::Error)
        ensures
            err == rdp_try_error(self.spec_message()),
    {
        let text = self.message();
        try_error(text.as_str())
    }
}

impl FileSystemObject {
    /// The display name of the entry: the final component of its path.
    ///
    /// Fails exactly for a path without components, and the error then
    /// carries that path.
    pub fn name(&self) -> (res: Result<String, NameExtractionError>)
        ensures
            res is Ok <==> self.path@.len() > 0,
            res matches Ok(name) ==> name@ == self.path@.last() && is_component(name@),
            res matches Err(e) ==> e.path@ == self.path@,
    {
        match self.path.last() {
            Some(name) => Ok(name.to_owned()),
            None => Err(NameExtractionError { path: self.path.clone() }),
        }
    }
}

impl Clone for NameExtractionError {
    /// A copy that carries the same path.
    fn clone(&self) -> (copy: NameExtractionError)
        ensures
            copy.path@ == self.path@,
    {
        NameExtractionError { path: self.path.clone() }
    }
}

impl Clone for FileSystemObject {
    /// A copy with the same metadata and the same path.
    fn clone(&self) -> (copy: FileSystemObject)
        ensures
            copy@ == self@,
    {
        FileSystemObject {
            last_modified: self.last_modified,
            size: self.size,
            file_type: self.file_type,
            is_empty: self.is_empty,
            path: self.path.clone(),
        }
    }
}

} // verus!
