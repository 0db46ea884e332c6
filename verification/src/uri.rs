//! Files opened by URI on UIKit: whether a path is taken as a URL or as a
//! file path, and how each opening mode opens the file.

use vstd::prelude::*;

verus! {

/// How a path is turned into a URL.
#[derive(Debug, Clone, Copy, PartialEq, Eq, Structural)]
pub enum UriSource {
    /// The path parsed as a URL with a scheme, and is used as it is.
    Parsed,
    /// The path is a file path, made into a file URL.
    FilePath,
}

/// How a path is turned into a URL: `scheme_len` is the length of the scheme
/// of the path parsed as a URL, `None` when it did not parse or has no
/// scheme; only a parsed URL with a non-empty scheme is used as it is.
pub fn uri_source(scheme_len: Option<usize>) -> (s: UriSource)
    ensures
        s == (if scheme_len matches Some(n) && n > 0 {
            UriSource::Parsed
        } else {
            UriSource::FilePath
        }),
{
    match scheme_len {
        Some(n) => if n > 0 {
            UriSource::Parsed
        } else {
            UriSource::FilePath
        },
        None => UriSource::FilePath,
    }
}

/// What a file opened by URI is opened for.
#[derive(Debug, Clone, Copy, PartialEq, Eq, Structural)]
pub enum OpenMode {
    Read,
    Write,
    ReadWrite,
}

/// The file handle a mode asks the system for.
#[derive(Debug, Clone, Copy, PartialEq, Eq, Structural)]
pub enum FileHandleKind {
    /// `fileHandleForReadingFromURL`.
    Reading,
    /// `fileHandleForWritingToURL`.
    Writing,
    /// `fileHandleForUpdatingURL`.
    Updating,
}

/// The file handle a mode asks the system for.
pub fn file_handle_kind(mode: OpenMode) -> (k: FileHandleKind)
    ensures
        k == (match mode {
            OpenMode::Read => FileHandleKind::Reading,
            OpenMode::Write => FileHandleKind::Writing,
            OpenMode::ReadWrite => FileHandleKind::Updating,
        }),
{
    match mode {
        OpenMode::Read => FileHandleKind::Reading,
        OpenMode::Write => FileHandleKind::Writing,
        OpenMode::ReadWrite => FileHandleKind::Updating,
    }
}

} // verus!
