//! Entry models: what one archive entry is to this library, for both
//! container formats, as plain values (paths, bytes, numeric attributes).

use vstd::prelude::*;

verus! {

/// The kind of a container entry.
#[derive(Debug, Clone, Copy, PartialEq, Eq, Structural)]
pub enum EntryKind {
    /// A regular file with contents.
    Regular,
    /// A directory.
    Directory,
    /// A symbolic link to a stored target.
    Symlink,
    /// A hard link to a stored target.
    HardLink,
    /// Any other entry kind; skipped during extraction.
    Other,
}

/// The mathematical view of one TAR entry.
pub ghost struct TarEntryModel {
    /// Path within the archive.
    pub path: Seq<char>,
    /// The entry's bytes (empty for non-regular entries).
    pub data: Seq<u8>,
    /// Kind of entry.
    pub kind: EntryKind,
    /// Stored link target, for link entries.
    pub link_target: Option<Seq<char>>,
    /// Size recorded in the header.
    pub size: u64,
    /// Unix mode bits.
    pub mode: u32,
    /// Owner user id.
    pub uid: u64,
    /// Owner group id.
    pub gid: u64,
    /// Modification time, seconds since the Unix epoch.
    pub mtime: u64,
}

/// One TAR entry, fully buffered.
#[derive(Debug)]
pub struct TarEntry {
    /// Path within the archive.
    pub path: String,
    /// The entry's bytes (empty for non-regular entries).
    pub data: Vec<u8>,
    /// Kind of entry.
    pub kind: EntryKind,
    /// Stored link target, for link entries.
    pub link_target: Option<String>,
    /// Size recorded in the header.
    pub size: u64,
    /// Unix mode bits.
    pub mode: u32,
    /// Owner user id.
    pub uid: u64,
    /// Owner group id.
    pub gid: u64,
    /// Modification time, seconds since the Unix epoch.
    pub mtime: u64,
}

impl View for TarEntry {
    type V = TarEntryModel;

    open spec fn view(&self) -> TarEntryModel {
        TarEntryModel {
            path: self.path@,
            data: self.data@,
            kind: self.kind,
            link_target: match self.link_target {
                Some(t) => Some(t@),
                None => None,
            },
            size: self.size,
            mode: self.mode,
            uid: self.uid,
            gid: self.gid,
            mtime: self.mtime,
        }
    }
}

impl TarEntry {
    /// Assembles a TAR entry from its parts.
    pub fn new(
        path: String,
        data: Vec<u8>,
        kind: EntryKind,
        link_target: Option<String>,
        size: u64,
        mode: u32,
        uid: u64,
        gid: u64,
        mtime: u64,
    ) -> (r: TarEntry)
        ensures
            r@ == (TarEntryModel {
                path: path@,
                data: data@,
                kind,
                link_target: match link_target {
                    Some(t) => Some(t@),
                    None => None,
                },
                size,
                mode,
                uid,
                gid,
                mtime,
            }),
    {
        TarEntry { path, data, kind, link_target, size, mode, uid, gid, mtime }
    }
}

/// The mathematical view of one ZIP entry.
pub ghost struct ZipEntryModel {
    /// Name of the file within the archive.
    pub name: Seq<char>,
    /// The entry's decompressed bytes.
    pub data: Seq<u8>,
    /// Whether the entry is a directory.
    pub is_dir: bool,
    /// Uncompressed size in bytes.
    pub size: u64,
    /// Compressed size in bytes.
    pub compressed_size: u64,
    /// Compression method, as the format's numeric code.
    pub method: u16,
    /// Unix mode bits, when stored.
    pub unix_mode: Option<u32>,
    /// CRC32 checksum.
    pub crc32: u32,
    /// Extra-field bytes.
    pub extra_data: Seq<u8>,
    /// Entry comment.
    pub comment: Seq<char>,
    /// Last-modified time, when stored: year, month, day, hour, minute,
    /// second.
    pub last_modified: Option<(u16, u8, u8, u8, u8, u8)>,
}

/// One ZIP entry, fully buffered.
#[derive(Debug)]
pub struct ZipEntry {
    /// Name of the file within the archive.
    pub name: String,
    /// The entry's decompressed bytes.
    pub data: Vec<u8>,
    /// Whether the entry is a directory.
    pub is_dir: bool,
    /// Uncompressed size in bytes.
    pub size: u64,
    /// Compressed size in bytes.
    pub compressed_size: u64,
    /// Compression method, as the format's numeric code.
    pub method: u16,
    /// Unix mode bits, when stored.
    pub unix_mode: Option<u32>,
    /// CRC32 checksum.
    pub crc32: u32,
    /// Extra-field bytes.
    pub extra_data: Vec<u8>,
    /// Entry comment.
    pub comment: String,
    /// Last-modified time, when stored: year, month, day, hour, minute,
    /// second.
    pub last_modified: Option<(u16, u8, u8, u8, u8, u8)>,
}

impl View for ZipEntry {
    type V = ZipEntryModel;

    open spec fn view(&self) -> ZipEntryModel {
        ZipEntryModel {
            name: self.name@,
            data: self.data@,
            is_dir: self.is_dir,
            size: self.size,
            compressed_size: self.compressed_size,
            method: self.method,
            unix_mode: self.unix_mode,
            crc32: self.crc32,
            extra_data: self.extra_data@,
            comment: self.comment@,
            last_modified: self.last_modified,
        }
    }
}

impl ZipEntry {
    /// Assembles a ZIP entry from its parts.
    pub fn new(
        name: String,
        data: Vec<u8>,
        is_dir: bool,
        size: u64,
        compressed_size: u64,
        method: u16,
        unix_mode: Option<u32>,
        crc32: u32,
        extra_data: Vec<u8>,
        comment: String,
        last_modified: Option<(u16, u8, u8, u8, u8, u8)>,
    ) -> (r: ZipEntry)
        ensures
            r@ == (ZipEntryModel {
                name: name@,
                data: data@,
                is_dir,
                size,
                compressed_size,
                method,
                unix_mode,
                crc32,
                extra_data: extra_data@,
                comment: comment@,
                last_modified,
            }),
    {
        ZipEntry {
            name,
            data,
            is_dir,
            size,
            compressed_size,
            method,
            unix_mode,
            crc32,
            extra_data,
            comment,
            last_modified,
        }
    }
}

/// The mathematical view of a file handed to a builder: a relative path and
/// its bytes.
pub ghost struct FileEntryModel {
    /// Path of the file, relative to the tree being packed.
    pub path: Seq<char>,
    /// The file's bytes.
    pub data: Seq<u8>,
}

/// A file handed to a builder: a path and its bytes.
#[derive(Debug)]
pub struct FileEntry {
    /// Path of the file.
    pub path: String,
    /// The file's bytes.
    pub data: Vec<u8>,
}

impl View for FileEntry {
    type V = FileEntryModel;

    open spec fn view(&self) -> FileEntryModel {
        FileEntryModel { path: self.path@, data: self.data@ }
    }
}

/// The mathematical view of one item given to the ZIP builder.
pub ghost enum ZipItemModel {
    /// A file with contents.
    File { name: Seq<char>, data: Seq<u8> },
    /// A directory entry.
    Dir { name: Seq<char> },
}

/// One item given to the ZIP builder.
#[derive(Debug)]
pub enum ZipBuildItem {
    /// A file with contents.
    File { name: String, data: Vec<u8> },
    /// A directory entry.
    Dir { name: String },
}

impl View for ZipBuildItem {
    type V = ZipItemModel;

    open spec fn view(&self) -> ZipItemModel {
        match self {
            ZipBuildItem::File { name, data } => ZipItemModel::File { name: name@, data: data@ },
            ZipBuildItem::Dir { name } => ZipItemModel::Dir { name: name@ },
        }
    }
}

/// The views of a list of TAR entries.
pub open spec fn tar_models(s: Seq<TarEntry>) -> Seq<TarEntryModel> {
    s.map_values(|e: TarEntry| e@)
}

/// The views of a list of ZIP entries.
pub open spec fn zip_models(s: Seq<ZipEntry>) -> Seq<ZipEntryModel> {
    s.map_values(|e: ZipEntry| e@)
}

/// The views of a list of builder files.
pub open spec fn file_models(s: Seq<FileEntry>) -> Seq<FileEntryModel> {
    s.map_values(|e: FileEntry| e@)
}

/// The views of a list of ZIP builder items.
pub open spec fn zip_item_models(s: Seq<ZipBuildItem>) -> Seq<ZipItemModel> {
    s.map_values(|e: ZipBuildItem| e@)
}

} // verus!
