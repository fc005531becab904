//! The not-yet-extracted archive: a tagged reference to a file path or an
//! in-memory buffer, with the tag resolved from the file name when it is
//! constructed from a path.

use vstd::prelude::*;

use crate::archive_type::{
    spec_extension_of, spec_tag_for_name, ArchiveType,
};
use crate::error::Error;

verus! {

/// Where the archive's bytes come from.
#[derive(Debug)]
pub enum ArchiveSource {
    /// Archive backed by a file path; resolving re-reads the file.
    Path(String),
    /// Archive held in memory.
    Memory(Vec<u8>),
    /// Archive collected from a byte sequence, held in memory.
    Iterator(Vec<u8>),
}

/// An archive that can be loaded from a file path or from memory, together
/// with its resolved format tag.
#[derive(Debug)]
pub struct ArchiveFile {
    /// Type of archive.
    pub archive_type: ArchiveType,
    /// Source data for the archive.
    pub source: ArchiveSource,
}

impl ArchiveFile {
    /// Creates an archive reference from a file path. The tag is resolved
    /// from the file name: the call fails with `InvalidArchive` when the name
    /// has no extension (including a path ending in `/`, whose final
    /// component is empty), and with `UnsupportedFormat` when the extension
    /// resolves to no tag.
    pub fn from_path(path: &str) -> (r: Result<ArchiveFile, Error>)
        ensures
            match r {
                Ok(a) => {
                    &&& spec_extension_of(path@) is Some
                    &&& spec_tag_for_name(path@) == Some(a.archive_type)
                    &&& a.source matches ArchiveSource::Path(p) && p@ == path@
                },
                Err(e) => match spec_extension_of(path@) {
                    None => e matches Error::InvalidArchive { message } && message@
                        == "No file extension found"@,
                    Some(ext) => spec_tag_for_name(path@) is None && (e matches
                        Error::UnsupportedFormat { format } && format@ == ext),
                },
            },
    {
        let ext: Option<&str> = ArchiveType::extension_of_path(path);
        match ext {
            None => Err(Error::invalid_archive(String::from_str("No file extension found"))),
            Some(e) => {
                match ArchiveType::from_file_name(path) {
                    Some(t) => Ok(
                        ArchiveFile {
                            archive_type: t,
                            source: ArchiveSource::Path(String::from_str(path)),
                        },
                    ),
                    None => Err(Error::unsupported_format(String::from_str(e))),
                }
            },
        }
    }

    /// Creates an archive reference from an in-memory buffer with an
    /// explicit tag.
    pub fn from_memory(archive_type: ArchiveType, data: Vec<u8>) -> (r: ArchiveFile)
        ensures
            r.archive_type == archive_type,
            r.source matches ArchiveSource::Memory(d) && d@ == data@,
    {
        ArchiveFile { archive_type, source: ArchiveSource::Memory(data) }
    }

    /// Creates an archive reference from a consumed byte sequence with an
    /// explicit tag; the bytes are held in memory.
    pub fn from_iterator(archive_type: ArchiveType, data: Vec<u8>) -> (r: ArchiveFile)
        ensures
            r.archive_type == archive_type,
            r.source matches ArchiveSource::Iterator(d) && d@ == data@,
    {
        ArchiveFile { archive_type, source: ArchiveSource::Iterator(data) }
    }

    /// Replaces the archive's tag, for ambiguous extensions.
    pub fn with_archive_type(self, archive_type: ArchiveType) -> (r: ArchiveFile)
        ensures
            r.archive_type == archive_type,
            r.source == self.source,
    {
        ArchiveFile { archive_type, source: self.source }
    }

    /// The archive's tag.
    pub fn archive_type(&self) -> (r: ArchiveType)
        ensures
            r == self.archive_type,
    {
        self.archive_type
    }

    /// The file path, when the archive was loaded from one.
    pub fn path(&self) -> (r: Option<&String>)
        ensures
            match r {
                Some(p) => self.source matches ArchiveSource::Path(q) && q == p,
                None => !(self.source is Path),
            },
    {
        match &self.source {
            ArchiveSource::Path(p) => Some(p),
            _ => None,
        }
    }

    /// The archive's bytes, when they are already held in memory.
    pub fn buffered_data(&self) -> (r: Option<&Vec<u8>>)
        ensures
            match r {
                Some(d) => (self.source matches ArchiveSource::Memory(m) && m == d) || (self.source
                    matches ArchiveSource::Iterator(m) && m == d),
                None => self.source is Path,
            },
    {
        match &self.source {
            ArchiveSource::Memory(d) => Some(d),
            ArchiveSource::Iterator(d) => Some(d),
            ArchiveSource::Path(_) => None,
        }
    }
}

} // verus!
