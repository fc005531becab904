//! Metadata for content files: the source identifier, the optional path,
//! and the classifications that are read off the path.

use vstd::prelude::*;

use crate::archive_type::{spec_extension_of, spec_file_name, ArchiveType};
use crate::content_kind::{spec_kind_for_extension, ContentKind};
use crate::supported_format::{spec_format_for_extension, SupportedFormat};
use crate::text::{last_index_of, last_index_of_exec};

verus! {

/// A unique identifier for a content source.
#[derive(Debug, Clone, Copy, PartialEq, Eq, Hash, Structural)]
pub struct ContentSource {
    /// The identifier value.
    pub id: u128,
}

/// Relies on uuid's `Uuid::new_v4`: a freshly generated random identifier.
/// Nothing is promised of the value.
#[verifier::external_body]
pub(crate) fn fresh_source_id() -> u128 {
    uuid::Uuid::new_v4().as_u128()
}

impl ContentSource {
    /// Creates a fresh, randomly identified content source.
    pub fn new() -> ContentSource {
        ContentSource { id: fresh_source_id() }
    }

    /// Creates a content source with a given identifier.
    pub fn from_id(id: u128) -> (r: ContentSource)
        ensures
            r.id == id,
    {
        ContentSource { id }
    }

    /// The identifier value.
    pub fn id(&self) -> (r: u128)
        ensures
            r == self.id,
    {
        self.id
    }
}

/// The final component of a path, or nothing when it is empty (as after a
/// trailing separator, which std's `Path` would ignore) or the
/// parent-directory name.
pub open spec fn spec_filename_of(p: Seq<char>) -> Option<Seq<char>> {
    let f = spec_file_name(p);
    if f.len() == 0 || (f.len() == 2 && f[0] == '.' && f[1] == '.') {
        None
    } else {
        Some(f)
    }
}

/// The parent of a path: what stands before its last separator, the root
/// for a path directly under it, nothing for a path without a separator.
pub open spec fn spec_parent_of(p: Seq<char>) -> Option<Seq<char>> {
    match last_index_of(p, '/') {
        Some(i) => if i == 0 {
            Some("/"@)
        } else {
            Some(p.take(i))
        },
        None => None,
    }
}

/// Metadata associated with content: its source identifier and an optional
/// source path, from which extension-based classifications are read.
#[derive(Debug, Clone)]
pub struct ContentMetadata {
    /// Unique identifier for the content source.
    pub content_source: ContentSource,
    /// Optional path to the source file.
    pub source_path: Option<String>,
}

impl ContentMetadata {
    /// Creates content metadata with just a source.
    pub fn new(content_source: ContentSource) -> (r: ContentMetadata)
        ensures
            r.content_source == content_source,
            r.source_path is None,
    {
        ContentMetadata { content_source, source_path: None }
    }

    /// Creates content metadata with a file path.
    pub fn with_path(content_source: ContentSource, path: String) -> (r: ContentMetadata)
        ensures
            r.content_source == content_source,
            r.source_path matches Some(p) && p@ == path@,
    {
        ContentMetadata { content_source, source_path: Some(path) }
    }

    /// The file extension of the source path, when the metadata has a path
    /// with one.
    pub fn file_extension(&self) -> (r: Option<&str>)
        ensures
            match r {
                Some(e) => self.source_path matches Some(p) && spec_extension_of(p@) == Some(e@),
                None => match self.source_path {
                    Some(p) => spec_extension_of(p@) is None,
                    None => true,
                },
            },
    {
        match &self.source_path {
            Some(p) => ArchiveType::extension_of_path(p.as_str()),
            None => None,
        }
    }

    /// The content kind the source path's extension resolves to; unknown
    /// without a path or an extension.
    pub fn content_kind(&self) -> (r: ContentKind)
        ensures
            r == match self.source_path {
                Some(p) => match spec_extension_of(p@) {
                    Some(e) => spec_kind_for_extension(e),
                    None => ContentKind::Unknown,
                },
                None => ContentKind::Unknown,
            },
    {
        match self.file_extension() {
            Some(e) => ContentKind::from_file_extension(e),
            None => ContentKind::Unknown,
        }
    }

    /// The file name of the source path, when the metadata has a path with
    /// a non-empty final component.
    pub fn filename(&self) -> (r: Option<&str>)
        ensures
            match r {
                Some(f) => self.source_path matches Some(p) && spec_filename_of(p@) == Some(f@),
                None => match self.source_path {
                    Some(p) => spec_filename_of(p@) is None,
                    None => true,
                },
            },
    {
        let p: &String = match &self.source_path {
            Some(p) => p,
            None => {
                return None;
            },
        };
        let s: &str = p.as_str();
        let len: usize = s.unicode_len();
        let fstart: usize = match last_index_of_exec(s, '/') {
            Some(i) => i + 1,
            None => 0,
        };
        let fname: &str = s.substring_char(fstart, len);
        proof {
            if fstart > 0 {
                assert(fname@ =~= s@.skip(fstart as int));
            } else {
                assert(fname@ =~= s@);
            }
        }
        let flen: usize = fname.unicode_len();
        if flen == 0 {
            return None;
        }
        if flen == 2 && fname.get_char(0) == '.' && fname.get_char(1) == '.' {
            return None;
        }
        Some(fname)
    }

    /// The parent directory of the source path, when the metadata has a
    /// path with a separator.
    pub fn parent_directory(&self) -> (r: Option<&str>)
        ensures
            match r {
                Some(d) => self.source_path matches Some(p) && spec_parent_of(p@) == Some(d@),
                None => match self.source_path {
                    Some(p) => spec_parent_of(p@) is None,
                    None => true,
                },
            },
    {
        let p: &String = match &self.source_path {
            Some(p) => p,
            None => {
                return None;
            },
        };
        let s: &str = p.as_str();
        match last_index_of_exec(s, '/') {
            Some(i) => {
                if i == 0 {
                    proof {
                        reveal_strlit("/");
                    }
                    let root: &str = s.substring_char(0, 1);
                    proof {
                        assert(root@ =~= s@.take(1));
                        assert(s@.take(1) =~= "/"@) by {
                            crate::text::lemma_last_index_of_is_char(s@, '/');
                            assert(s@[0] == '/');
                        }
                    }
                    Some(root)
                } else {
                    let parent: &str = s.substring_char(0, i);
                    proof {
                        assert(parent@ =~= s@.take(i as int));
                    }
                    Some(parent)
                }
            },
            None => None,
        }
    }

    /// The full source path, when the metadata has one.
    pub fn path(&self) -> (r: Option<&String>)
        ensures
            r == match self.source_path {
                Some(_) => Some(&self.source_path->0),
                None => None::<&String>,
            },
    {
        self.source_path.as_ref()
    }

    /// Sets the source path.
    pub fn set_path(&mut self, path: String)
        ensures
            final(self).content_source == old(self).content_source,
            final(self).source_path matches Some(p) && p@ == path@,
    {
        self.source_path = Some(path);
    }

    /// Removes the source path.
    pub fn clear_path(&mut self)
        ensures
            final(self).content_source == old(self).content_source,
            final(self).source_path is None,
    {
        self.source_path = None;
    }

    /// True when this metadata has a path.
    pub fn has_path(&self) -> (r: bool)
        ensures
            r == (self.source_path is Some),
    {
        self.source_path.is_some()
    }

    /// The supported format the source path's extension resolves to, when
    /// it resolves to one.
    pub fn supported_format(&self) -> (r: Option<SupportedFormat>)
        ensures
            r == match self.source_path {
                Some(p) => match spec_extension_of(p@) {
                    Some(e) => spec_format_for_extension(e),
                    None => None::<SupportedFormat>,
                },
                None => None::<SupportedFormat>,
            },
    {
        match self.file_extension() {
            Some(e) => SupportedFormat::from_extension(e),
            None => None,
        }
    }
}

/// Metadata information for content files: the source, the path, and the
/// optional classification and size.
#[derive(Debug, Clone)]
pub struct ContentFileMetadata {
    /// Content source identifier.
    pub content_source: ContentSource,
    /// Path to the file.
    pub path: String,
    /// Detected content kind.
    pub content_kind: Option<ContentKind>,
    /// File size in bytes.
    pub size: Option<u64>,
}

impl ContentFileMetadata {
    /// Creates new file metadata with no classification and no size.
    pub fn new(content_source: ContentSource, path: String) -> (r: ContentFileMetadata)
        ensures
            r.content_source == content_source,
            r.path@ == path@,
            r.content_kind is None,
            r.size is None,
    {
        ContentFileMetadata { content_source, path, content_kind: None, size: None }
    }

    /// Sets the content kind.
    pub fn with_content_kind(self, kind: ContentKind) -> (r: ContentFileMetadata)
        ensures
            r == (ContentFileMetadata { content_kind: Some(kind), ..self }),
    {
        ContentFileMetadata { content_kind: Some(kind), ..self }
    }

    /// Sets the file size.
    pub fn with_size(self, size: u64) -> (r: ContentFileMetadata)
        ensures
            r == (ContentFileMetadata { size: Some(size), ..self }),
    {
        ContentFileMetadata { size: Some(size), ..self }
    }
}

} // verus!
