//! The failure taxonomy of the fetch/download pipeline, one variant per kind
//! of failure, each carrying a description of the underlying cause.

use vstd::prelude::*;
use vstd::string::StringExecFns;

verus! {

/// Failure of a metadata fetch.
#[derive(Debug)]
pub enum FetchError {
    /// The requested URL could not be parsed (for instance, a relative URL
    /// given without a base).  Distinguishable from transport failures.
    InvalidUrl(String),
    /// The request could not be carried out (DNS, connection, TLS, or a
    /// non-success status).
    TransportError(String),
    /// The response body was not a metadata record (malformed JSON, or a
    /// required field missing or of the wrong shape).
    DecodeError(String),
}

impl FetchError {
    /// A printable description: the failure kind followed by the cause.
    pub fn describe(&self) -> (s: String)
        ensures
            self matches FetchError::InvalidUrl(m) ==> s@ == "builder error: "@ + m@,
            self matches FetchError::TransportError(m) ==> s@ == "transport error: "@ + m@,
            self matches FetchError::DecodeError(m) ==> s@ == "decode error: "@ + m@,
    {
        match self {
            FetchError::InvalidUrl(m) => {
                let mut s = String::from_str("builder error: ");
                s.append(m.as_str());
                s
            },
            FetchError::TransportError(m) => {
                let mut s = String::from_str("transport error: ");
                s.append(m.as_str());
                s
            },
            FetchError::DecodeError(m) => {
                let mut s = String::from_str("decode error: ");
                s.append(m.as_str());
                s
            },
        }
    }
}

/// Failure of an image download.
#[derive(Debug)]
pub enum DownloadError {
    /// The request failed in transit or answered with a non-success status.
    TransportError(String),
}

impl DownloadError {
    /// A printable description: the failure kind followed by the cause.
    pub fn describe(&self) -> (s: String)
        ensures
            self matches DownloadError::TransportError(m) ==> s@ == "transport error: "@ + m@,
    {
        match self {
            DownloadError::TransportError(m) => {
                let mut s = String::from_str("transport error: ");
                s.append(m.as_str());
                s
            },
        }
    }
}

/// Failure of output-path resolution.
#[derive(Debug)]
pub enum PathError {
    /// The user-supplied override has no file-name segment or no parent
    /// segment, so no output location can be derived from it.
    InvalidOutputPath,
    /// The target directory could not be created; the pipeline cannot
    /// proceed without it.
    DirectoryCreationFailed(String),
}

impl PathError {
    /// A printable description of the resolution failure.
    pub fn describe(&self) -> (s: String)
        ensures
            self is InvalidOutputPath ==> s@
                == "invalid output path: missing file name or parent directory"@,
            self matches PathError::DirectoryCreationFailed(m) ==> s@
                == "could not create output directory: "@ + m@,
    {
        match self {
            PathError::InvalidOutputPath => {
                String::from_str("invalid output path: missing file name or parent directory")
            },
            PathError::DirectoryCreationFailed(m) => {
                let mut s = String::from_str("could not create output directory: ");
                s.append(m.as_str());
                s
            },
        }
    }
}

} // verus!
