//! The archive error taxonomy: every fallible archive operation reports one
//! of these kinds, never a raw library failure.

use vstd::prelude::*;

verus! {

/// Archive processing errors.
#[derive(Debug, Clone)]
pub enum Error {
    /// Filesystem access failure, with the platform's message.
    Io { message: String },
    /// Corrupt or truncated compressed or container stream.
    Codec { message: String },
    /// Archive format not supported.
    UnsupportedFormat { format: String },
    /// Invalid archive structure or data, detected before extraction begins.
    InvalidArchive { message: String },
    /// Entry not found in archive.
    EntryNotFound { name: String },
    /// Permission denied.
    PermissionDenied { message: String },
    /// Archive is corrupted or incomplete.
    Corrupted { message: String },
    /// Memory or resource limits exceeded.
    ResourceLimit { message: String },
    /// Generic error with custom message.
    Other { message: String },
}

impl Error {
    /// Creates a new unsupported format error.
    pub fn unsupported_format(format: String) -> (r: Error)
        ensures
            r matches Error::UnsupportedFormat { format: f } && f@ == format@,
    {
        Error::UnsupportedFormat { format }
    }

    /// Creates a new invalid archive error.
    pub fn invalid_archive(message: String) -> (r: Error)
        ensures
            r matches Error::InvalidArchive { message: m } && m@ == message@,
    {
        Error::InvalidArchive { message }
    }

    /// Creates a new entry not found error.
    pub fn entry_not_found(name: String) -> (r: Error)
        ensures
            r matches Error::EntryNotFound { name: n } && n@ == name@,
    {
        Error::EntryNotFound { name }
    }

    /// Creates a new permission denied error.
    pub fn permission_denied(message: String) -> (r: Error)
        ensures
            r matches Error::PermissionDenied { message: m } && m@ == message@,
    {
        Error::PermissionDenied { message }
    }

    /// Creates a new corrupted archive error.
    pub fn corrupted(message: String) -> (r: Error)
        ensures
            r matches Error::Corrupted { message: m } && m@ == message@,
    {
        Error::Corrupted { message }
    }

    /// Creates a new resource limit error.
    pub fn resource_limit(message: String) -> (r: Error)
        ensures
            r matches Error::ResourceLimit { message: m } && m@ == message@,
    {
        Error::ResourceLimit { message }
    }

    /// Creates a new generic error.
    pub fn other(message: String) -> (r: Error)
        ensures
            r matches Error::Other { message: m } && m@ == message@,
    {
        Error::Other { message }
    }
}

} // verus!
