//! Trusted boundary to the codec crates: decompression and compression of
//! single streams, and parsing and building of the two container formats,
//! all over in-memory bytes. Each result that depends on the input alone is
//! given a name, and the verified extraction and packing logic speaks of
//! those names.

use vstd::prelude::*;

use zip::write::SimpleFileOptions;
use zip::CompressionMethod;

use crate::entry::{
    file_models, tar_models, zip_item_models, zip_models, EntryKind, FileEntry, TarEntry,
    ZipBuildItem, ZipEntry,
};
use crate::entry::{FileEntryModel, TarEntryModel, ZipEntryModel, ZipItemModel};

verus! {

/// What a complete gzip stream inflates to, or nothing when the stream is
/// not a well-formed gzip stream.
pub uninterp spec fn gzip_inflate(data: Seq<u8>) -> Option<Seq<u8>>;

/// The gzip stream that the default compression level produces for the
/// given bytes.
pub uninterp spec fn gzip_deflate(data: Seq<u8>) -> Seq<u8>;

/// Whether gzip compression of the given bytes succeeds; like the stream
/// itself, this depends on the bytes alone.
pub uninterp spec fn gzip_deflate_ok(data: Seq<u8>) -> bool;

/// What a complete bzip2 stream decompresses to, or nothing when the stream
/// is not a well-formed bzip2 stream.
pub uninterp spec fn bzip2_inflate(data: Seq<u8>) -> Option<Seq<u8>>;

/// The bzip2 stream that the default compression level produces for the
/// given bytes.
pub uninterp spec fn bzip2_deflate(data: Seq<u8>) -> Seq<u8>;

/// Whether bzip2 compression of the given bytes succeeds; this depends on
/// the bytes alone.
pub uninterp spec fn bzip2_deflate_ok(data: Seq<u8>) -> bool;

/// What a complete xz stream decompresses to, or nothing when the stream is
/// not a well-formed xz stream.
pub uninterp spec fn xz_inflate(data: Seq<u8>) -> Option<Seq<u8>>;

/// The xz stream that compression preset 6 produces for the given bytes.
pub uninterp spec fn xz_deflate(data: Seq<u8>) -> Seq<u8>;

/// Whether xz compression of the given bytes succeeds; this depends on the
/// bytes alone.
pub uninterp spec fn xz_deflate_ok(data: Seq<u8>) -> bool;

/// The entry list of a TAR archive, fully buffered, or nothing when the
/// bytes are not a readable TAR archive.
pub uninterp spec fn tar_entry_list(data: Seq<u8>) -> Option<Seq<TarEntryModel>>;

/// The TAR archive holding the given files in order, each with a fresh
/// header (mode 644, zeroed times and owners).
pub uninterp spec fn tar_archive_bytes(entries: Seq<FileEntryModel>) -> Seq<u8>;

/// Whether building the TAR archive of the given files succeeds; this
/// depends on the files alone.
pub uninterp spec fn tar_build_ok(entries: Seq<FileEntryModel>) -> bool;

/// The entry list of a ZIP archive, fully decompressed, or nothing when the
/// bytes are not a readable ZIP archive.
pub uninterp spec fn zip_entry_list(data: Seq<u8>) -> Option<Seq<ZipEntryModel>>;

/// The archive comment of a readable ZIP archive.
pub uninterp spec fn zip_archive_comment(data: Seq<u8>) -> Seq<char>;

/// The ZIP archive holding the given items in order, deflate-compressed,
/// with a fixed (epoch) timestamp and the given archive comment.
pub uninterp spec fn zip_archive_bytes(items: Seq<ZipItemModel>, comment: Seq<char>) -> Seq<u8>;

/// Whether writing the ZIP archive of the given items and comment
/// succeeds; this depends on the items and the comment alone.
pub uninterp spec fn zip_write_ok(items: Seq<ZipItemModel>, comment: Seq<char>) -> bool;

/// Relies on flate2's `read::GzDecoder` with `Read::read_to_end`: inflates a
/// complete in-memory gzip stream; the outcome depends on the bytes alone.
#[verifier::external_body]
pub(crate) fn gzip_decompress(data: &[u8]) -> (r: Result<Vec<u8>, String>)
    ensures
        r is Ok <==> gzip_inflate(data@) is Some,
        r matches Ok(v) ==> Some(v@) == gzip_inflate(data@),
{
    let mut decoder = flate2::read::GzDecoder::new(data);
    let mut out = Vec::new();
    std::io::Read::read_to_end(&mut decoder, &mut out).map_err(|e| e.to_string())?;
    Ok(out)
}

/// Relies on flate2's `write::GzEncoder` at the default level with a zeroed
/// header time: the produced stream depends on the bytes alone.
#[verifier::external_body]
pub(crate) fn gzip_compress(data: &[u8]) -> (r: Result<Vec<u8>, String>)
    ensures
        r is Ok <==> gzip_deflate_ok(data@),
        r matches Ok(v) ==> v@ == gzip_deflate(data@),
{
    let mut encoder = flate2::write::GzEncoder::new(Vec::new(), flate2::Compression::default());
    std::io::Write::write_all(&mut encoder, data).map_err(|e| e.to_string())?;
    encoder.finish().map_err(|e| e.to_string())
}

/// Relies on bzip2's `read::BzDecoder` with `Read::read_to_end`: decompresses
/// a complete in-memory bzip2 stream; the outcome depends on the bytes alone.
#[verifier::external_body]
pub(crate) fn bzip2_decompress(data: &[u8]) -> (r: Result<Vec<u8>, String>)
    ensures
        r is Ok <==> bzip2_inflate(data@) is Some,
        r matches Ok(v) ==> Some(v@) == bzip2_inflate(data@),
{
    let mut decoder = bzip2::read::BzDecoder::new(data);
    let mut out = Vec::new();
    std::io::Read::read_to_end(&mut decoder, &mut out).map_err(|e| e.to_string())?;
    Ok(out)
}

/// Relies on bzip2's `write::BzEncoder` at the default level: the produced
/// stream depends on the bytes alone.
#[verifier::external_body]
pub(crate) fn bzip2_compress(data: &[u8]) -> (r: Result<Vec<u8>, String>)
    ensures
        r is Ok <==> bzip2_deflate_ok(data@),
        r matches Ok(v) ==> v@ == bzip2_deflate(data@),
{
    let mut encoder = bzip2::write::BzEncoder::new(Vec::new(), bzip2::Compression::default());
    std::io::Write::write_all(&mut encoder, data).map_err(|e| e.to_string())?;
    encoder.finish().map_err(|e| e.to_string())
}

/// Relies on xz2's `read::XzDecoder` with `Read::read_to_end`: decompresses
/// a complete in-memory xz stream; the outcome depends on the bytes alone.
#[verifier::external_body]
pub(crate) fn xz_decompress(data: &[u8]) -> (r: Result<Vec<u8>, String>)
    ensures
        r is Ok <==> xz_inflate(data@) is Some,
        r matches Ok(v) ==> Some(v@) == xz_inflate(data@),
{
    let mut decoder = xz2::read::XzDecoder::new(data);
    let mut out = Vec::new();
    std::io::Read::read_to_end(&mut decoder, &mut out).map_err(|e| e.to_string())?;
    Ok(out)
}

/// Relies on xz2's `write::XzEncoder` at preset 6, fed the whole buffer at
/// once: the produced stream depends on the bytes alone.
#[verifier::external_body]
pub(crate) fn xz_compress(data: &[u8]) -> (r: Result<Vec<u8>, String>)
    ensures
        r is Ok <==> xz_deflate_ok(data@),
        r matches Ok(v) ==> v@ == xz_deflate(data@),
{
    let mut encoder = xz2::write::XzEncoder::new(Vec::new(), 6);
    std::io::Write::write_all(&mut encoder, data).map_err(|e| e.to_string())?;
    encoder.finish().map_err(|e| e.to_string())
}

/// Relies on the tar crate's `Archive::entries` over an in-memory reader,
/// with each entry's path and bytes read out in order: the outcome depends
/// on the bytes alone. Reading the whole archive succeeds exactly when the
/// entry list exists.
#[verifier::external_body]
fn tar_contents(data: &[u8]) -> (r: Result<Vec<(String, Vec<u8>)>, String>)
    ensures
        r is Ok <==> tar_entry_list(data@) is Some,
        r matches Ok(v) ==> ({
            let list = tar_entry_list(data@)->0;
            &&& v@.len() == list.len()
            &&& forall|i: int| 0 <= i < v@.len() ==> (#[trigger] v@[i]).0@ == list[i].path
                && v@[i].1@ == list[i].data
        }),
{
    let mut archive = tar::Archive::new(std::io::Cursor::new(data));
    let mut out = Vec::new();
    for entry in archive.entries().map_err(|e| e.to_string())? {
        let mut e = entry.map_err(|e| e.to_string())?;
        let path = e.path().map_err(|e| e.to_string())?.to_string_lossy().into_owned();
        let mut buf = Vec::new();
        std::io::Read::read_to_end(&mut e, &mut buf).map_err(|e| e.to_string())?;
        out.push((path, buf));
    }
    Ok(out)
}

/// Relies on the tar crate's entry headers: each entry's type (told apart
/// variant by variant) and stored link name, in order. Succeeds whenever
/// the entry list exists.
#[verifier::external_body]
fn tar_kinds(data: &[u8]) -> (r: Result<Vec<(EntryKind, Option<String>)>, String>)
    ensures
        match r {
            Ok(v) => tar_entry_list(data@) is Some ==> ({
                let list = tar_entry_list(data@)->0;
                &&& v@.len() == list.len()
                &&& forall|i: int| 0 <= i < v@.len() ==> (#[trigger] v@[i]).0 == list[i].kind
                    && (match (v@[i].1, list[i].link_target) {
                        (Some(s), Some(t)) => s@ == t,
                        (None, None) => true,
                        _ => false,
                    })
            }),
            Err(_) => tar_entry_list(data@) is None,
        },
{
    let mut archive = tar::Archive::new(std::io::Cursor::new(data));
    let mut out = Vec::new();
    for entry in archive.entries().map_err(|e| e.to_string())? {
        let e = entry.map_err(|e| e.to_string())?;
        let link = e.link_name().ok().flatten().map(|p| p.to_string_lossy().into_owned());
        let kind = match e.header().entry_type() {
            tar::EntryType::Regular => EntryKind::Regular,
            tar::EntryType::Directory => EntryKind::Directory,
            tar::EntryType::Symlink => EntryKind::Symlink,
            tar::EntryType::Link => EntryKind::HardLink,
            _ => EntryKind::Other,
        };
        out.push((kind, link));
    }
    Ok(out)
}

/// Relies on the tar crate's entry headers: each entry's size, mode, owner
/// ids and modification time, in order, with unreadable numeric fields read
/// as zero. Succeeds whenever the entry list exists.
#[verifier::external_body]
fn tar_attrs(data: &[u8]) -> (r: Result<Vec<(u64, u32, u64, u64, u64)>, String>)
    ensures
        match r {
            Ok(v) => tar_entry_list(data@) is Some ==> ({
                let list = tar_entry_list(data@)->0;
                &&& v@.len() == list.len()
                &&& forall|i: int| 0 <= i < v@.len() ==> (#[trigger] v@[i]).0 == list[i].size
                    && v@[i].1 == list[i].mode && v@[i].2 == list[i].uid && v@[i].3 == list[i].gid
                    && v@[i].4 == list[i].mtime
            }),
            Err(_) => tar_entry_list(data@) is None,
        },
{
    let mut archive = tar::Archive::new(std::io::Cursor::new(data));
    let mut out = Vec::new();
    for entry in archive.entries().map_err(|e| e.to_string())? {
        let e = entry.map_err(|e| e.to_string())?;
        let h = e.header();
        let ids = (h.uid().unwrap_or(0), h.gid().unwrap_or(0), h.mtime().unwrap_or(0));
        out.push((h.size().unwrap_or(0), h.mode().unwrap_or(0), ids.0, ids.1, ids.2));
    }
    Ok(out)
}

/// Reads a TAR archive's entries, fully buffered, by combining the
/// contents, kinds and attributes that the header and content readers give
/// for the same bytes.
pub(crate) fn tar_parse(data: &[u8]) -> (r: Result<Vec<TarEntry>, String>)
    ensures
        r is Ok <==> tar_entry_list(data@) is Some,
        r matches Ok(v) ==> Some(tar_models(v@)) == tar_entry_list(data@),
{
    let contents: Vec<(String, Vec<u8>)> = match tar_contents(data) {
        Ok(c) => c,
        Err(m) => {
            return Err(m);
        },
    };
    let kinds: Vec<(EntryKind, Option<String>)> = match tar_kinds(data) {
        Ok(k) => k,
        Err(m) => {
            return Err(m);
        },
    };
    let attrs: Vec<(u64, u32, u64, u64, u64)> = match tar_attrs(data) {
        Ok(a) => a,
        Err(m) => {
            return Err(m);
        },
    };
    let ghost list = tar_entry_list(data@)->0;
    let mut out: Vec<TarEntry> = Vec::new();
    let mut i: usize = 0;
    while i < contents.len()
        invariant
            i <= contents@.len(),
            contents@.len() == list.len(),
            kinds@.len() == list.len(),
            attrs@.len() == list.len(),
            forall|j: int| 0 <= j < contents@.len() ==> (#[trigger] contents@[j]).0@
                == list[j].path && contents@[j].1@ == list[j].data,
            forall|j: int| 0 <= j < kinds@.len() ==> (#[trigger] kinds@[j]).0 == list[j].kind && (
            match (kinds@[j].1, list[j].link_target) {
                (Some(s), Some(t)) => s@ == t,
                (None, None) => true,
                _ => false,
            }),
            forall|j: int| 0 <= j < attrs@.len() ==> (#[trigger] attrs@[j]).0 == list[j].size
                && attrs@[j].1 == list[j].mode && attrs@[j].2 == list[j].uid && attrs@[j].3
                == list[j].gid && attrs@[j].4 == list[j].mtime,
            out@.len() == i,
            forall|j: int| 0 <= j < i ==> #[trigger] out@[j]@ == list[j],
        decreases contents@.len() - i,
    {
        let link: Option<String> = match &kinds[i].1 {
            Some(s) => Some(s.clone()),
            None => None,
        };
        out.push(
            TarEntry::new(
                contents[i].0.clone(),
                contents[i].1.clone(),
                kinds[i].0,
                link,
                attrs[i].0,
                attrs[i].1,
                attrs[i].2,
                attrs[i].3,
                attrs[i].4,
            ),
        );
        i = i + 1;
    }
    proof {
        assert(tar_models(out@) =~= list);
    }
    Ok(out)
}

/// Relies on the tar crate's `Builder::append_data` over an in-memory
/// writer, one fresh mode-644 GNU header (zeroed times and owners) per
/// file: the produced bytes depend on the files alone.
#[verifier::external_body]
pub(crate) fn tar_build(entries: &Vec<FileEntry>) -> (r: Result<Vec<u8>, String>)
    ensures
        r is Ok <==> tar_build_ok(file_models(entries@)),
        r matches Ok(v) ==> v@ == tar_archive_bytes(file_models(entries@)),
{
    let mut builder = tar::Builder::new(Vec::new());
    for e in entries.iter() {
        let mut header = tar::Header::new_gnu();
        header.set_size(e.data.len() as u64);
        header.set_mode(0o644);
        header.set_cksum();
        builder.append_data(&mut header, &e.path, &e.data[..]).map_err(|e| e.to_string())?;
    }
    builder.into_inner().map_err(|e| e.to_string())
}

/// Relies on the zip crate's `ZipArchive` over an in-memory reader, with
/// each entry's name, directory flag and decompressed bytes read out by
/// index: the outcome depends on the bytes alone. Reading the whole
/// archive succeeds exactly when the entry list exists.
#[verifier::external_body]
fn zip_contents(data: &[u8]) -> (r: Result<Vec<(String, Vec<u8>, bool)>, String>)
    ensures
        r is Ok <==> zip_entry_list(data@) is Some,
        r matches Ok(v) ==> ({
            let list = zip_entry_list(data@)->0;
            &&& v@.len() == list.len()
            &&& forall|i: int| 0 <= i < v@.len() ==> (#[trigger] v@[i]).0@ == list[i].name
                && v@[i].1@ == list[i].data && v@[i].2 == list[i].is_dir
        }),
{
    let mut archive = zip::ZipArchive::new(std::io::Cursor::new(data)).map_err(|e| e.to_string())?;
    let mut out = Vec::new();
    for i in 0..archive.len() {
        let mut f = archive.by_index(i).map_err(|e| e.to_string())?;
        let mut buf = Vec::new();
        std::io::Read::read_to_end(&mut f, &mut buf).map_err(|e| e.to_string())?;
        out.push((f.name().to_string(), buf, f.is_dir()));
    }
    Ok(out)
}

/// Relies on the zip crate's central-directory records: each entry's
/// sizes, compression method code, unix mode and checksum, in order.
/// Succeeds whenever the entry list exists, since it decompresses nothing.
#[verifier::external_body]
fn zip_attrs(data: &[u8]) -> (r: Result<Vec<(u64, u64, u16, Option<u32>, u32)>, String>)
    ensures
        match r {
            Ok(v) => zip_entry_list(data@) is Some ==> ({
                let list = zip_entry_list(data@)->0;
                &&& v@.len() == list.len()
                &&& forall|i: int| 0 <= i < v@.len() ==> (#[trigger] v@[i]).0 == list[i].size
                    && v@[i].1 == list[i].compressed_size && v@[i].2 == list[i].method && v@[i].3
                    == list[i].unix_mode && v@[i].4 == list[i].crc32
            }),
            Err(_) => zip_entry_list(data@) is None,
        },
{
    let mut archive = zip::ZipArchive::new(std::io::Cursor::new(data)).map_err(|e| e.to_string())?;
    let mut out = Vec::new();
    for i in 0..archive.len() {
        let f = archive.by_index(i).map_err(|e| e.to_string())?;
        #[allow(deprecated)]
        out.push((f.size(), f.compressed_size(), f.compression().to_u16(), f.unix_mode(),
            f.crc32()));
    }
    Ok(out)
}

/// Relies on the zip crate's central-directory records: each entry's
/// extra-field bytes, comment and last-modified time, in order. Succeeds
/// whenever the entry list exists, since it decompresses nothing.
#[verifier::external_body]
fn zip_extras(data: &[u8]) -> (r: Result<
    Vec<(Vec<u8>, String, Option<(u16, u8, u8, u8, u8, u8)>)>,
    String,
>)
    ensures
        match r {
            Ok(v) => zip_entry_list(data@) is Some ==> ({
                let list = zip_entry_list(data@)->0;
                &&& v@.len() == list.len()
                &&& forall|i: int| 0 <= i < v@.len() ==> (#[trigger] v@[i]).0@
                    == list[i].extra_data && v@[i].1@ == list[i].comment && v@[i].2
                    == list[i].last_modified
            }),
            Err(_) => zip_entry_list(data@) is None,
        },
{
    let mut archive = zip::ZipArchive::new(std::io::Cursor::new(data)).map_err(|e| e.to_string())?;
    let mut out = Vec::new();
    for i in 0..archive.len() {
        let f = archive.by_index(i).map_err(|e| e.to_string())?;
        let m = f.last_modified().map(|d| (d.year(), d.month(), d.day(), d.hour(), d.minute(),
            d.second()));
        out.push((f.extra_data().unwrap_or(&[]).to_vec(), f.comment().to_string(), m));
    }
    Ok(out)
}

/// Reads a ZIP archive's entries, fully decompressed, by combining the
/// contents and record attributes that the readers give for the same
/// bytes.
pub(crate) fn zip_parse(data: &[u8]) -> (r: Result<Vec<ZipEntry>, String>)
    ensures
        r is Ok <==> zip_entry_list(data@) is Some,
        r matches Ok(v) ==> Some(zip_models(v@)) == zip_entry_list(data@),
{
    let contents: Vec<(String, Vec<u8>, bool)> = match zip_contents(data) {
        Ok(c) => c,
        Err(m) => {
            return Err(m);
        },
    };
    let attrs: Vec<(u64, u64, u16, Option<u32>, u32)> = match zip_attrs(data) {
        Ok(a) => a,
        Err(m) => {
            return Err(m);
        },
    };
    let extras: Vec<(Vec<u8>, String, Option<(u16, u8, u8, u8, u8, u8)>)> = match zip_extras(
        data,
    ) {
        Ok(x) => x,
        Err(m) => {
            return Err(m);
        },
    };
    let ghost list = zip_entry_list(data@)->0;
    let mut out: Vec<ZipEntry> = Vec::new();
    let mut i: usize = 0;
    while i < contents.len()
        invariant
            i <= contents@.len(),
            contents@.len() == list.len(),
            attrs@.len() == list.len(),
            extras@.len() == list.len(),
            forall|j: int| 0 <= j < contents@.len() ==> (#[trigger] contents@[j]).0@
                == list[j].name && contents@[j].1@ == list[j].data && contents@[j].2
                == list[j].is_dir,
            forall|j: int| 0 <= j < attrs@.len() ==> (#[trigger] attrs@[j]).0 == list[j].size
                && attrs@[j].1 == list[j].compressed_size && attrs@[j].2 == list[j].method
                && attrs@[j].3 == list[j].unix_mode && attrs@[j].4 == list[j].crc32,
            forall|j: int| 0 <= j < extras@.len() ==> (#[trigger] extras@[j]).0@
                == list[j].extra_data && extras@[j].1@ == list[j].comment && extras@[j].2
                == list[j].last_modified,
            out@.len() == i,
            forall|j: int| 0 <= j < i ==> #[trigger] out@[j]@ == list[j],
        decreases contents@.len() - i,
    {
        out.push(
            ZipEntry::new(
                contents[i].0.clone(),
                contents[i].1.clone(),
                contents[i].2,
                attrs[i].0,
                attrs[i].1,
                attrs[i].2,
                attrs[i].3,
                attrs[i].4,
                extras[i].0.clone(),
                extras[i].1.clone(),
                extras[i].2,
            ),
        );
        i = i + 1;
    }
    proof {
        assert(zip_models(out@) =~= list);
    }
    Ok(out)
}

/// Relies on the zip crate's `ZipArchive::comment`: the comment of a
/// readable archive depends on the bytes alone. Opening reads only the
/// central directory, so it can succeed on an archive whose entry bytes
/// cannot be read; the comment is tied to the bytes only where the entry
/// list exists.
#[verifier::external_body]
pub(crate) fn zip_read_comment(data: &[u8]) -> (r: Result<String, String>)
    ensures
        match r {
            Ok(c) => zip_entry_list(data@) is Some ==> c@ == zip_archive_comment(data@),
            Err(_) => zip_entry_list(data@) is None,
        },
{
    let archive = zip::ZipArchive::new(std::io::Cursor::new(data)).map_err(|e| e.to_string())?;
    Ok(String::from_utf8_lossy(archive.comment()).into_owned())
}

/// The builder items a flattened list stands for: a directory item for a
/// row flagged as one, a file item with the row's bytes otherwise.
pub open spec fn flat_zip_items(f: Seq<(String, Vec<u8>, bool)>) -> Seq<ZipItemModel> {
    f.map_values(
        |t: (String, Vec<u8>, bool)|
            if t.2 {
                ZipItemModel::Dir { name: t.0@ }
            } else {
                ZipItemModel::File { name: t.0@, data: t.1@ }
            },
    )
}

/// Relies on the zip crate's `ZipWriter`: each row is written with
/// `start_file`, directories stored uncompressed and files
/// deflate-compressed, all at the fixed epoch timestamp, and the comment is
/// set on the archive: the produced bytes depend on the rows alone.
/// Directory rows must carry no bytes.
#[verifier::external_body]
fn zip_write(rows: &Vec<(String, Vec<u8>, bool)>, comment: &str) -> (r: Result<Vec<u8>, String>)
    requires
        forall|i: int| 0 <= i < rows@.len() && (#[trigger] rows@[i]).2 ==> rows@[i].1@.len() == 0,
    ensures
        r is Ok <==> zip_write_ok(flat_zip_items(rows@), comment@),
        r matches Ok(v) ==> v@ == zip_archive_bytes(flat_zip_items(rows@), comment@),
{
    let mut w = zip::ZipWriter::new(std::io::Cursor::new(Vec::new()));
    w.set_comment(comment).map_err(|e| e.to_string())?;
    for (name, data, is_dir) in rows.iter() {
        let method = if *is_dir { CompressionMethod::Stored } else { CompressionMethod::Deflated };
        let opts = SimpleFileOptions::default().compression_method(method)
            .last_modified_time(zip::DateTime::default());
        w.start_file(name.as_str(), opts).map_err(|e| e.to_string())?;
        std::io::Write::write_all(&mut w, data).map_err(|e| e.to_string())?;
    }
    Ok(w.finish().map_err(|e| e.to_string())?.into_inner())
}

/// True when a flattened row stands for exactly the given builder item.
pub open spec fn row_matches(row: (String, Vec<u8>, bool), item: ZipItemModel) -> bool {
    if row.2 {
        item == (ZipItemModel::Dir { name: row.0@ }) && row.1@.len() == 0
    } else {
        item == (ZipItemModel::File { name: row.0@, data: row.1@ })
    }
}

/// Builds a ZIP archive from the given items and comment, by flattening
/// the items into the rows the writer takes.
pub(crate) fn zip_build(items: &Vec<ZipBuildItem>, comment: &str) -> (r: Result<Vec<u8>, String>)
    ensures
        r is Ok <==> zip_write_ok(zip_item_models(items@), comment@),
        r matches Ok(v) ==> v@ == zip_archive_bytes(zip_item_models(items@), comment@),
{
    let mut rows: Vec<(String, Vec<u8>, bool)> = Vec::new();
    let mut i: usize = 0;
    while i < items.len()
        invariant
            i <= items@.len(),
            rows@.len() == i,
            forall|j: int| 0 <= j < i ==> row_matches(#[trigger] rows@[j], items@[j]@),
        decreases items@.len() - i,
    {
        match &items[i] {
            ZipBuildItem::File { name, data } => {
                rows.push((name.clone(), data.clone(), false));
            },
            ZipBuildItem::Dir { name } => {
                rows.push((name.clone(), Vec::new(), true));
            },
        }
        i = i + 1;
    }
    proof {
        assert forall|j: int| 0 <= j < rows@.len() implies (#[trigger] rows@[j]).2
            ==> rows@[j].1@.len() == 0 by {
            assert(row_matches(rows@[j], items@[j]@));
        }
        assert(flat_zip_items(rows@) =~= zip_item_models(items@)) by {
            assert forall|j: int| 0 <= j < rows@.len() implies #[trigger] flat_zip_items(
                rows@,
            )[j] == zip_item_models(items@)[j] by {
                assert(row_matches(rows@[j], items@[j]@));
            }
        }
    }
    match zip_write(&rows, comment) {
        Ok(v) => Ok(v),
        Err(m) => Err(m),
    }
}

} // verus!
