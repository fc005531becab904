//! Per-format handlers and builders over in-memory archives: listing and
//! extracting TAR variants, reading ZIP archives, and assembling both
//! container formats entry by entry.

use vstd::prelude::*;

use crate::archive_type::{spec_display_name, ArchiveType};
use crate::codec::{
    bzip2_decompress, bzip2_inflate, gzip_decompress, gzip_inflate, tar_archive_bytes,
    tar_entry_list, tar_parse, xz_decompress, xz_inflate, zip_archive_bytes, zip_archive_comment,
    zip_build, zip_entry_list, zip_parse,
};
use crate::entry::{
    file_models, tar_models, zip_item_models, zip_models, EntryKind, FileEntry, TarEntry,
    TarEntryModel, ZipBuildItem, ZipEntry, ZipItemModel,
};
use crate::error::Error;
use crate::extract::{op_models, tar_extract_ops, tar_ops, zip_extract_ops, zip_ops, ExtractOp};
use crate::pack::spec_build_bytes;
use crate::session::str_eq;

verus! {

/// Builds the message `prefix` followed by a tag's display name.
fn tag_message(prefix: &str, tag: ArchiveType) -> (r: String)
    ensures
        r@ == prefix@ + spec_display_name(tag),
{
    let mut m: String = String::from_str(prefix);
    let name: String = tag.display_name();
    m.append(name.as_str());
    m
}

/// True when a listing row reports exactly the given TAR entry.
pub open spec fn tar_info_matches(info: TarEntryInfo, m: TarEntryModel) -> bool {
    info.path@ == m.path && info.size == m.size && info.entry_type == m.kind && info.mode == m.mode
        && info.uid == m.uid && info.gid == m.gid && info.mtime == m.mtime
}

/// True when a listing row reports exactly the given ZIP entry.
pub open spec fn zip_info_matches(info: ZipEntryInfo, m: crate::entry::ZipEntryModel) -> bool {
    info.name@ == m.name && info.size == m.size && info.compressed_size == m.compressed_size
        && info.compression_method == m.method && info.is_dir == m.is_dir && info.is_file
        == !m.is_dir && info.unix_mode == m.unix_mode && info.last_modified == m.last_modified
        && info.crc32 == m.crc32 && info.extra_data@ == m.extra_data && info.comment@ == m.comment
}

/// Information about a TAR entry, read while listing.
#[derive(Debug, Clone)]
pub struct TarEntryInfo {
    /// Path of the entry within the archive.
    pub path: String,
    /// Size of the entry in bytes.
    pub size: u64,
    /// Kind of entry (file, directory, symlink, hard link, other).
    pub entry_type: EntryKind,
    /// File mode/permissions.
    pub mode: u32,
    /// User id.
    pub uid: u64,
    /// Group id.
    pub gid: u64,
    /// Modification time (Unix timestamp).
    pub mtime: u64,
}

/// Information about a ZIP entry, read while listing.
#[derive(Debug, Clone)]
pub struct ZipEntryInfo {
    /// Name of the file within the archive.
    pub name: String,
    /// Uncompressed size in bytes.
    pub size: u64,
    /// Compressed size in bytes.
    pub compressed_size: u64,
    /// Compression method, as the format's numeric code.
    pub compression_method: u16,
    /// Whether this entry is a directory.
    pub is_dir: bool,
    /// Whether this entry is a file.
    pub is_file: bool,
    /// Unix file permissions, when stored.
    pub unix_mode: Option<u32>,
    /// Last-modified time, when stored: year, month, day, hour, minute,
    /// second.
    pub last_modified: Option<(u16, u8, u8, u8, u8, u8)>,
    /// CRC32 checksum.
    pub crc32: u32,
    /// Extra data field.
    pub extra_data: Vec<u8>,
    /// File comment.
    pub comment: String,
}

/// The plain TAR bytes a compressed variant decompresses to: the bytes
/// themselves for plain TAR, the decompressed stream for the others.
pub open spec fn spec_plain_tar(tag: ArchiveType, data: Seq<u8>) -> Option<Seq<u8>> {
    match tag {
        ArchiveType::Tar => Some(data),
        ArchiveType::TarGz => gzip_inflate(data),
        ArchiveType::TarBz2 => bzip2_inflate(data),
        ArchiveType::TarXz => xz_inflate(data),
        _ => None,
    }
}

/// Handler for TAR archive operations over in-memory bytes, for plain TAR
/// and its compressed variants.
#[derive(Debug)]
pub struct TarArchiveHandler {
    /// Archive type; always a TAR variant.
    pub archive_type: ArchiveType,
    /// The archive's bytes, still in their outer compression.
    pub data: Vec<u8>,
}

impl TarArchiveHandler {
    /// Creates a TAR handler over archive bytes; a tag that is no TAR
    /// variant is refused.
    pub fn new(data: Vec<u8>, archive_type: ArchiveType) -> (r: Result<TarArchiveHandler, Error>)
        ensures
            match r {
                Ok(h) => h.archive_type == archive_type && h.data@ == data@ && (archive_type
                    == ArchiveType::Tar || archive_type == ArchiveType::TarGz || archive_type
                    == ArchiveType::TarBz2 || archive_type == ArchiveType::TarXz),
                Err(e) => !(archive_type == ArchiveType::Tar || archive_type == ArchiveType::TarGz
                    || archive_type == ArchiveType::TarBz2 || archive_type == ArchiveType::TarXz)
                    && (e matches Error::UnsupportedFormat { format } && format@
                    == "Expected TAR variant, got: "@ + spec_display_name(archive_type)),
            },
    {
        if !archive_type.is_tar_variant() {
            return Err(
                Error::UnsupportedFormat {
                    format: tag_message("Expected TAR variant, got: ", archive_type),
                },
            );
        }
        Ok(TarArchiveHandler { archive_type, data })
    }

    /// Creates a TAR handler from compressed archive bytes; the outer layer
    /// is decompressed when the archive is read.
    pub fn from_compressed_data(data: Vec<u8>, archive_type: ArchiveType) -> (r: Result<
        TarArchiveHandler,
        Error,
    >)
        ensures
            match r {
                Ok(h) => h.archive_type == archive_type && h.data@ == data@ && (archive_type
                    == ArchiveType::Tar || archive_type == ArchiveType::TarGz || archive_type
                    == ArchiveType::TarBz2 || archive_type == ArchiveType::TarXz),
                Err(e) => !(archive_type == ArchiveType::Tar || archive_type == ArchiveType::TarGz
                    || archive_type == ArchiveType::TarBz2 || archive_type == ArchiveType::TarXz)
                    && (e matches Error::UnsupportedFormat { format } && format@
                    == "Not a TAR variant: "@ + spec_display_name(archive_type)),
            },
    {
        if !archive_type.is_tar_variant() {
            return Err(
                Error::UnsupportedFormat {
                    format: tag_message("Not a TAR variant: ", archive_type),
                },
            );
        }
        Ok(TarArchiveHandler { archive_type, data })
    }

    /// The archive type.
    pub fn archive_type(&self) -> (r: ArchiveType)
        ensures
            r == self.archive_type,
    {
        self.archive_type
    }

    /// The entries of the archive, fully buffered: the outer compression
    /// layer is undone first, then the TAR stream is read.
    pub fn entries(&self) -> (r: Result<Vec<TarEntry>, Error>)
        requires
            self.archive_type == ArchiveType::Tar || self.archive_type == ArchiveType::TarGz
                || self.archive_type == ArchiveType::TarBz2 || self.archive_type
                == ArchiveType::TarXz,
        ensures
            r is Ok <==> (spec_plain_tar(self.archive_type, self.data@) is Some && tar_entry_list(
                spec_plain_tar(self.archive_type, self.data@)->0,
            ) is Some),
            r matches Ok(v) ==> Some(tar_models(v@)) == tar_entry_list(
                spec_plain_tar(self.archive_type, self.data@)->0,
            ),
            r matches Err(e) ==> e is Codec,
    {
        let plain: Vec<u8> = match self.archive_type {
            ArchiveType::TarGz => match gzip_decompress(self.data.as_slice()) {
                Ok(v) => v,
                Err(m) => {
                    return Err(Error::Codec { message: m });
                },
            },
            ArchiveType::TarBz2 => match bzip2_decompress(self.data.as_slice()) {
                Ok(v) => v,
                Err(m) => {
                    return Err(Error::Codec { message: m });
                },
            },
            ArchiveType::TarXz => match xz_decompress(self.data.as_slice()) {
                Ok(v) => v,
                Err(m) => {
                    return Err(Error::Codec { message: m });
                },
            },
            _ => {
                let mut copy: Vec<u8> = Vec::new();
                let mut i: usize = 0;
                while i < self.data.len()
                    invariant
                        i <= self.data@.len(),
                        copy@ == self.data@.take(i as int),
                    decreases self.data@.len() - i,
                {
                    copy.push(self.data[i]);
                    proof {
                        assert(copy@ =~= self.data@.take(i + 1));
                    }
                    i = i + 1;
                }
                proof {
                    assert(self.data@.take(self.data@.len() as int) =~= self.data@);
                }
                copy
            },
        };
        match tar_parse(plain.as_slice()) {
            Ok(v) => Ok(v),
            Err(m) => Err(Error::Codec { message: m }),
        }
    }

    /// Lists all entries without extracting, with their header attributes.
    pub fn list_entries(&self) -> (r: Result<Vec<TarEntryInfo>, Error>)
        requires
            self.archive_type == ArchiveType::Tar || self.archive_type == ArchiveType::TarGz
                || self.archive_type == ArchiveType::TarBz2 || self.archive_type
                == ArchiveType::TarXz,
        ensures
            r is Ok <==> (spec_plain_tar(self.archive_type, self.data@) is Some && tar_entry_list(
                spec_plain_tar(self.archive_type, self.data@)->0,
            ) is Some),
            r matches Ok(v) ==> ({
                let models = tar_entry_list(spec_plain_tar(self.archive_type, self.data@)->0)->0;
                &&& v@.len() == models.len()
                &&& forall|i: int| 0 <= i < v@.len() ==> #[trigger] tar_info_matches(
                    v@[i],
                    models[i],
                )
            }),
            r matches Err(e) ==> e is Codec,
    {
        let entries: Vec<TarEntry> = match self.entries() {
            Ok(v) => v,
            Err(e) => {
                return Err(e);
            },
        };
        let mut out: Vec<TarEntryInfo> = Vec::new();
        let mut i: usize = 0;
        while i < entries.len()
            invariant
                i <= entries@.len(),
                out@.len() == i,
                forall|j: int| 0 <= j < i ==> #[trigger] tar_info_matches(out@[j], entries@[j]@),
            decreases entries@.len() - i,
        {
            let e: &TarEntry = &entries[i];
            out.push(
                TarEntryInfo {
                    path: e.path.clone(),
                    size: e.size,
                    entry_type: e.kind,
                    mode: e.mode,
                    uid: e.uid,
                    gid: e.gid,
                    mtime: e.mtime,
                },
            );
            i = i + 1;
        }
        proof {
            assert(tar_models(entries@) =~= tar_entry_list(
                spec_plain_tar(self.archive_type, self.data@)->0,
            )->0);
        }
        Ok(out)
    }

    /// The actions that extract this archive, as [`tar_ops`] describes
    /// them.
    pub fn extract_ops(&self) -> (r: Result<Vec<ExtractOp>, Error>)
        requires
            self.archive_type == ArchiveType::Tar || self.archive_type == ArchiveType::TarGz
                || self.archive_type == ArchiveType::TarBz2 || self.archive_type
                == ArchiveType::TarXz,
        ensures
            r is Ok <==> (spec_plain_tar(self.archive_type, self.data@) is Some && tar_entry_list(
                spec_plain_tar(self.archive_type, self.data@)->0,
            ) is Some),
            r matches Ok(ops) ==> op_models(ops@) == tar_ops(
                tar_entry_list(spec_plain_tar(self.archive_type, self.data@)->0)->0,
            ),
            r matches Err(e) ==> e is Codec,
    {
        match self.entries() {
            Ok(entries) => Ok(tar_extract_ops(&entries)),
            Err(e) => Err(e),
        }
    }
}

/// Builder for TAR archives and their compressed variants, assembled in
/// memory from named byte buffers.
pub struct TarArchiveBuilder {
    /// Archive type; a TAR variant for a builder that can finish.
    pub archive_type: ArchiveType,
    /// The files appended so far, in order.
    pub entries: Vec<FileEntry>,
}

impl TarArchiveBuilder {
    /// Creates a TAR builder; a tag that is no TAR variant is refused.
    pub fn new(archive_type: ArchiveType) -> (r: Result<TarArchiveBuilder, Error>)
        ensures
            match r {
                Ok(b) => b.archive_type == archive_type && b.entries@.len() == 0 && (archive_type
                    == ArchiveType::Tar || archive_type == ArchiveType::TarGz || archive_type
                    == ArchiveType::TarBz2 || archive_type == ArchiveType::TarXz),
                Err(e) => !(archive_type == ArchiveType::Tar || archive_type == ArchiveType::TarGz
                    || archive_type == ArchiveType::TarBz2 || archive_type == ArchiveType::TarXz)
                    && (e matches Error::UnsupportedFormat { format } && format@
                    == "Expected TAR variant, got: "@ + spec_display_name(archive_type)),
            },
    {
        if !archive_type.is_tar_variant() {
            return Err(
                Error::UnsupportedFormat {
                    format: tag_message("Expected TAR variant, got: ", archive_type),
                },
            );
        }
        Ok(TarArchiveBuilder { archive_type, entries: Vec::new() })
    }

    /// Creates a builder whose output is compressed per the tag; a tag that
    /// is no TAR variant is refused.
    pub fn compressed(archive_type: ArchiveType) -> (r: Result<TarArchiveBuilder, Error>)
        ensures
            match r {
                Ok(b) => b.archive_type == archive_type && b.entries@.len() == 0 && (archive_type
                    == ArchiveType::Tar || archive_type == ArchiveType::TarGz || archive_type
                    == ArchiveType::TarBz2 || archive_type == ArchiveType::TarXz),
                Err(e) => !(archive_type == ArchiveType::Tar || archive_type == ArchiveType::TarGz
                    || archive_type == ArchiveType::TarBz2 || archive_type == ArchiveType::TarXz)
                    && (e matches Error::UnsupportedFormat { format } && format@
                    == "Not a TAR variant: "@ + spec_display_name(archive_type)),
            },
    {
        if !archive_type.is_tar_variant() {
            return Err(
                Error::UnsupportedFormat {
                    format: tag_message("Not a TAR variant: ", archive_type),
                },
            );
        }
        Ok(TarArchiveBuilder { archive_type, entries: Vec::new() })
    }

    /// Creates a builder for packing a directory, with the tag taken as
    /// given; finishing refuses a tag that is no TAR variant.
    pub fn for_directory(archive_type: ArchiveType) -> (r: TarArchiveBuilder)
        ensures
            r.archive_type == archive_type,
            r.entries@.len() == 0,
    {
        TarArchiveBuilder { archive_type, entries: Vec::new() }
    }

    /// The archive type.
    pub fn archive_type(&self) -> (r: ArchiveType)
        ensures
            r == self.archive_type,
    {
        self.archive_type
    }

    /// Appends a file with the given archive path and bytes.
    pub fn append_data(&mut self, path: String, data: Vec<u8>)
        ensures
            final(self).archive_type == old(self).archive_type,
            final(self).entries@.len() == old(self).entries@.len() + 1,
            final(self).entries@.last().path@ == path@,
            final(self).entries@.last().data@ == data@,
            forall|i: int| 0 <= i < old(self).entries@.len() ==> final(self).entries@[i] == old(
                self,
            ).entries@[i],
    {
        self.entries.push(FileEntry { path, data });
    }

    /// Finishes the archive: the TAR bytes of the appended files, run
    /// through the tag's compression, succeeding exactly when the named
    /// builder calls do. The XZ variant compresses the fully buffered TAR
    /// stream at the end. A tag that is no TAR variant is refused with
    /// `UnsupportedFormat`.
    pub fn finish(self) -> (r: Result<Vec<u8>, Error>)
        ensures
            ({
                let variant = self.archive_type == ArchiveType::Tar || self.archive_type
                    == ArchiveType::TarGz || self.archive_type == ArchiveType::TarBz2
                    || self.archive_type == ArchiveType::TarXz;
                match r {
                    Ok(v) => {
                        &&& variant
                        &&& crate::pack::spec_build_ok(
                            self.archive_type,
                            file_models(self.entries@),
                        )
                        &&& v@ == spec_build_bytes(self.archive_type, file_models(self.entries@))
                    },
                    Err(e) => match e {
                        Error::UnsupportedFormat { format } => !variant && format@
                            == "Unsupported TAR variant: "@ + spec_display_name(
                            self.archive_type,
                        ),
                        Error::Codec { .. } => variant && !crate::pack::spec_build_ok(
                            self.archive_type,
                            file_models(self.entries@),
                        ),
                        _ => false,
                    },
                }
            }),
    {
        if !self.archive_type.is_tar_variant() {
            return Err(
                Error::UnsupportedFormat {
                    format: tag_message("Unsupported TAR variant: ", self.archive_type),
                },
            );
        }
        match crate::pack::build_archive(self.archive_type, &self.entries) {
            Ok(v) => Ok(v),
            Err(e) => Err(e),
        }
    }
}

/// Handler for ZIP archive operations: the archive is parsed once when the
/// handler is created, and queries answer from the buffered entries.
#[derive(Debug)]
pub struct ZipArchiveHandler {
    /// Archive type; always ZIP.
    pub archive_type: ArchiveType,
    /// The archive's entries, fully decompressed, in archive order.
    pub entries: Vec<ZipEntry>,
    /// The archive's comment.
    pub comment: String,
}

impl ZipArchiveHandler {
    /// Creates a ZIP handler by parsing archive bytes; a tag other than ZIP
    /// is refused, and bytes the format does not accept are a codec error.
    pub fn new(data: &[u8], archive_type: ArchiveType) -> (r: Result<ZipArchiveHandler, Error>)
        ensures
            archive_type != ArchiveType::Zip ==> (r matches Err(e) && e matches
                Error::UnsupportedFormat { format } && format@ == "Expected ZIP, got: "@
                + spec_display_name(archive_type)),
            archive_type == ArchiveType::Zip ==> ((r is Ok <==> zip_entry_list(data@) is Some) && (
            r matches Ok(h) ==> h.archive_type == ArchiveType::Zip && Some(zip_models(h.entries@))
                == zip_entry_list(data@) && h.comment@ == zip_archive_comment(data@)) && (r matches
                Err(e) ==> e is Codec)),
    {
        if !matches!(archive_type, ArchiveType::Zip) {
            return Err(
                Error::UnsupportedFormat {
                    format: tag_message("Expected ZIP, got: ", archive_type),
                },
            );
        }
        let entries: Vec<ZipEntry> = match zip_parse(data) {
            Ok(v) => v,
            Err(m) => {
                return Err(Error::Codec { message: m });
            },
        };
        let comment: String = match crate::codec::zip_read_comment(data) {
            Ok(c) => c,
            Err(m) => {
                return Err(Error::Codec { message: m });
            },
        };
        Ok(ZipArchiveHandler { archive_type: ArchiveType::Zip, entries, comment })
    }

    /// Creates a ZIP handler from in-memory data.
    pub fn from_memory(data: &[u8]) -> (r: Result<ZipArchiveHandler, Error>)
        ensures
            r is Ok <==> zip_entry_list(data@) is Some,
            r matches Ok(h) ==> h.archive_type == ArchiveType::Zip && Some(zip_models(h.entries@))
                == zip_entry_list(data@) && h.comment@ == zip_archive_comment(data@),
            r matches Err(e) ==> e is Codec,
    {
        ZipArchiveHandler::new(data, ArchiveType::Zip)
    }

    /// The archive type.
    pub fn archive_type(&self) -> (r: ArchiveType)
        ensures
            r == self.archive_type,
    {
        self.archive_type
    }

    /// The number of entries in the archive.
    pub fn len(&self) -> (r: usize)
        ensures
            r == self.entries@.len(),
    {
        self.entries.len()
    }

    /// True when the archive has no entries.
    pub fn is_empty(&self) -> (r: bool)
        ensures
            r == (self.entries@.len() == 0),
    {
        self.entries.len() == 0
    }

    /// The archive's comment.
    pub fn comment(&self) -> (r: &String)
        ensures
            r == &self.comment,
    {
        &self.comment
    }

    /// True when the archive holds an entry with the given name.
    pub fn contains_file(&self, name: &str) -> (r: bool)
        ensures
            r == (exists|i: int|
                0 <= i < self.entries@.len() && (#[trigger] self.entries@[i]@.name) == name@),
    {
        self.position_of(name).is_some()
    }

    /// The decompressed bytes of the first entry with the given name; a
    /// name the archive does not hold is an `EntryNotFound` error.
    pub fn read_file(&self, name: &str) -> (r: Result<Vec<u8>, Error>)
        ensures
            match r {
                Ok(d) => exists|i: int|
                    0 <= i < self.entries@.len() && (#[trigger] self.entries@[i]@.name) == name@
                        && self.entries@[i]@.data == d@,
                Err(e) => !(exists|i: int|
                    0 <= i < self.entries@.len() && (#[trigger] self.entries@[i]@.name) == name@)
                    && (e matches Error::EntryNotFound { name: n } && n@ == name@),
            },
    {
        match self.position_of(name) {
            Some(i) => Ok(self.entries[i].data.clone()),
            None => Err(Error::EntryNotFound { name: String::from_str(name) }),
        }
    }

    /// The entry names, in archive order.
    pub fn file_names(&self) -> (r: Vec<String>)
        ensures
            r@.len() == self.entries@.len(),
            forall|i: int| 0 <= i < r@.len() ==> r@[i]@ == self.entries@[i]@.name,
    {
        let mut out: Vec<String> = Vec::new();
        let mut i: usize = 0;
        while i < self.entries.len()
            invariant
                i <= self.entries@.len(),
                out@.len() == i,
                forall|j: int| 0 <= j < i ==> out@[j]@ == self.entries@[j]@.name,
            decreases self.entries@.len() - i,
        {
            out.push(self.entries[i].name.clone());
            i = i + 1;
        }
        out
    }

    /// Lists all entries without extracting, with their attributes.
    pub fn list_entries(&self) -> (r: Vec<ZipEntryInfo>)
        ensures
            r@.len() == self.entries@.len(),
            forall|i: int| 0 <= i < r@.len() ==> #[trigger] zip_info_matches(
                r@[i],
                self.entries@[i]@,
            ),
    {
        let mut out: Vec<ZipEntryInfo> = Vec::new();
        let mut i: usize = 0;
        while i < self.entries.len()
            invariant
                i <= self.entries@.len(),
                out@.len() == i,
                forall|j: int| 0 <= j < i ==> #[trigger] zip_info_matches(
                    out@[j],
                    self.entries@[j]@,
                ),
            decreases self.entries@.len() - i,
        {
            let e: &ZipEntry = &self.entries[i];
            out.push(
                ZipEntryInfo {
                    name: e.name.clone(),
                    size: e.size,
                    compressed_size: e.compressed_size,
                    compression_method: e.method,
                    is_dir: e.is_dir,
                    is_file: !e.is_dir,
                    unix_mode: e.unix_mode,
                    last_modified: e.last_modified,
                    crc32: e.crc32,
                    extra_data: e.extra_data.clone(),
                    comment: e.comment.clone(),
                },
            );
            i = i + 1;
        }
        out
    }

    /// The actions that extract this archive, as [`zip_ops`] describes
    /// them.
    pub fn extract_ops(&self) -> (r: Vec<ExtractOp>)
        ensures
            op_models(r@) == zip_ops(zip_models(self.entries@)),
    {
        zip_extract_ops(&self.entries)
    }

    /// The position of the first entry with the given name.
    fn position_of(&self, name: &str) -> (r: Option<usize>)
        ensures
            match r {
                Some(i) => i < self.entries@.len() && self.entries@[i as int]@.name == name@,
                None => !(exists|i: int|
                    0 <= i < self.entries@.len() && (#[trigger] self.entries@[i]@.name) == name@),
            },
    {
        let mut i: usize = 0;
        while i < self.entries.len()
            invariant
                i <= self.entries@.len(),
                forall|j: int| 0 <= j < i ==> (#[trigger] self.entries@[j]@.name) != name@,
            decreases self.entries@.len() - i,
        {
            if str_eq(self.entries[i].name.as_str(), name) {
                return Some(i);
            }
            i = i + 1;
        }
        None
    }
}

/// The directory-entry name the ZIP builder uses: the name as given when it
/// already ends with `/`, with `/` appended otherwise.
pub open spec fn spec_dir_name(name: Seq<char>) -> Seq<char> {
    if name.len() > 0 && name.last() == '/' {
        name
    } else {
        name + "/"@
    }
}

/// Builder for ZIP archives, assembled in memory item by item.
pub struct ZipArchiveBuilder {
    /// Archive type; always ZIP.
    pub archive_type: ArchiveType,
    /// The items added so far, in order.
    pub items: Vec<ZipBuildItem>,
    /// The archive comment to write.
    pub comment: String,
}

impl ZipArchiveBuilder {
    /// Creates an empty in-memory ZIP builder.
    pub fn new() -> (r: ZipArchiveBuilder)
        ensures
            r.archive_type == ArchiveType::Zip,
            r.items@.len() == 0,
            r.comment@.len() == 0,
    {
        ZipArchiveBuilder {
            archive_type: ArchiveType::Zip,
            items: Vec::new(),
            comment: String::new(),
        }
    }

    /// Creates an empty in-memory ZIP builder.
    pub fn new_in_memory() -> (r: ZipArchiveBuilder)
        ensures
            r.archive_type == ArchiveType::Zip,
            r.items@.len() == 0,
            r.comment@.len() == 0,
    {
        ZipArchiveBuilder::new()
    }

    /// Creates a ZIP builder for packing a directory.
    pub fn for_directory() -> (r: ZipArchiveBuilder)
        ensures
            r.archive_type == ArchiveType::Zip,
            r.items@.len() == 0,
            r.comment@.len() == 0,
    {
        ZipArchiveBuilder::new()
    }

    /// The archive type.
    pub fn archive_type(&self) -> (r: ArchiveType)
        ensures
            r == self.archive_type,
    {
        self.archive_type
    }

    /// Sets the comment for the archive.
    pub fn set_comment(&mut self, comment: String)
        ensures
            final(self).comment == comment,
            final(self).items == old(self).items,
            final(self).archive_type == old(self).archive_type,
    {
        self.comment = comment;
    }

    /// Starts a new (empty) file entry in the archive.
    pub fn start_file(&mut self, name: &str)
        ensures
            final(self).archive_type == old(self).archive_type,
            final(self).comment == old(self).comment,
            final(self).items@.len() == old(self).items@.len() + 1,
            final(self).items@.last()@ == (ZipItemModel::File {
                name: name@,
                data: Seq::empty(),
            }),
            forall|i: int| 0 <= i < old(self).items@.len() ==> final(self).items@[i] == old(
                self,
            ).items@[i],
    {
        self.items.push(ZipBuildItem::File { name: String::from_str(name), data: Vec::new() });
        proof {
            assert(self.items@.last()@ == (ZipItemModel::File {
                name: name@,
                data: Seq::<u8>::empty(),
            }));
        }
    }

    /// Appends bytes to the most recently started file; fails when no file
    /// entry has been started or the last item is a directory.
    pub fn write_all(&mut self, data: &[u8]) -> (r: Result<(), Error>)
        ensures
            match r {
                Ok(_) => {
                    &&& old(self).items@.len() > 0
                    &&& old(self).items@.last() is File
                    &&& final(self).items@.len() == old(self).items@.len()
                    &&& final(self).items@.last() matches ZipBuildItem::File { name, data: d } && (
                    old(self).items@.last() matches ZipBuildItem::File { name: n0, data: d0 }
                        && name@ == n0@ && d@ == d0@ + data@)
                    &&& forall|i: int|
                        0 <= i < old(self).items@.len() - 1 ==> final(self).items@[i] == old(
                            self,
                        ).items@[i]
                    &&& final(self).archive_type == old(self).archive_type
                    &&& final(self).comment == old(self).comment
                },
                Err(e) => {
                    &&& !(old(self).items@.len() > 0 && old(self).items@.last() is File)
                    &&& final(self).items@ == old(self).items@
                    &&& final(self).archive_type == old(self).archive_type
                    &&& final(self).comment == old(self).comment
                    &&& e matches Error::Other { message } && message@ == "No file started"@
                },
            },
    {
        let n: usize = self.items.len();
        if n == 0 {
            return Err(Error::Other { message: String::from_str("No file started") });
        }
        let last: ZipBuildItem = self.items.pop().unwrap();
        let ghost l0 = last;
        match last {
            ZipBuildItem::File { name, data: mut d } => {
                let ghost nv = name@;
                let mut k: usize = 0;
                let ghost d0 = d@;
                proof {
                    assert(l0 == old(self).items@.last());
                    assert(l0 matches ZipBuildItem::File { name: n0, data: dd0 } && n0@ == nv
                        && dd0@ == d0);
                }
                while k < data.len()
                    invariant
                        k <= data@.len(),
                        d@ == d0 + data@.take(k as int),
                    decreases data@.len() - k,
                {
                    d.push(data[k]);
                    proof {
                        assert(d@ =~= d0 + data@.take(k + 1));
                    }
                    k = k + 1;
                }
                proof {
                    assert(d0 + data@.take(data@.len() as int) =~= d0 + data@);
                }
                self.items.push(ZipBuildItem::File { name, data: d });
                proof {
                    assert(self.items@.last() matches ZipBuildItem::File { name: nn, data: dd }
                        && nn@ == nv && dd@ == d0 + data@);
                    assert(self.items@.len() == old(self).items@.len());
                    assert forall|i: int| 0 <= i < old(self).items@.len() - 1 implies
                        self.items@[i] == old(self).items@[i] by {
                        assert(self.items@[i] == old(self).items@.drop_last()[i]);
                    }
                }
                Ok(())
            },
            ZipBuildItem::Dir { name } => {
                self.items.push(ZipBuildItem::Dir { name });
                proof {
                    assert(self.items@ =~= old(self).items@);
                }
                Err(Error::Other { message: String::from_str("No file started") })
            },
        }
    }

    /// Adds a complete file entry from memory.
    pub fn add_file_from_memory(&mut self, name: &str, data: &[u8])
        ensures
            final(self).archive_type == old(self).archive_type,
            final(self).comment == old(self).comment,
            final(self).items@.len() == old(self).items@.len() + 1,
            final(self).items@.last()@ == (ZipItemModel::File { name: name@, data: data@ }),
            forall|i: int| 0 <= i < old(self).items@.len() ==> final(self).items@[i] == old(
                self,
            ).items@[i],
    {
        let mut d: Vec<u8> = Vec::new();
        let mut k: usize = 0;
        while k < data.len()
            invariant
                k <= data@.len(),
                d@ == data@.take(k as int),
            decreases data@.len() - k,
        {
            d.push(data[k]);
            proof {
                assert(d@ =~= data@.take(k + 1));
            }
            k = k + 1;
        }
        proof {
            assert(data@.take(data@.len() as int) =~= data@);
        }
        self.items.push(ZipBuildItem::File { name: String::from_str(name), data: d });
    }

    /// Adds a directory entry; a trailing `/` is appended when the name
    /// lacks one.
    pub fn add_directory(&mut self, name: &str)
        ensures
            final(self).archive_type == old(self).archive_type,
            final(self).comment == old(self).comment,
            final(self).items@.len() == old(self).items@.len() + 1,
            final(self).items@.last()@ == (ZipItemModel::Dir { name: spec_dir_name(name@) }),
            forall|i: int| 0 <= i < old(self).items@.len() ==> final(self).items@[i] == old(
                self,
            ).items@[i],
    {
        let len: usize = name.unicode_len();
        let dir_name: String = if len > 0 && name.get_char(len - 1) == '/' {
            String::from_str(name)
        } else {
            let mut s: String = String::from_str(name);
            s.append("/");
            s
        };
        self.items.push(ZipBuildItem::Dir { name: dir_name });
    }

    /// Finishes the archive: the ZIP bytes of the added items, with the
    /// comment, succeeding exactly when the named writer call does.
    pub fn finish(self) -> (r: Result<Vec<u8>, Error>)
        ensures
            r is Ok <==> crate::codec::zip_write_ok(zip_item_models(self.items@), self.comment@),
            r matches Ok(v) ==> v@ == zip_archive_bytes(zip_item_models(self.items@),
                self.comment@),
            r matches Err(e) ==> e is Codec,
    {
        match zip_build(&self.items, self.comment.as_str()) {
            Ok(v) => Ok(v),
            Err(m) => Err(Error::Codec { message: m }),
        }
    }
}

} // verus!
