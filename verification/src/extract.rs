//! Extraction: turning an archive's bytes into the list of filesystem
//! actions that reproduce its contents under a target directory, with the
//! per-entry dispatch for every entry kind.

use vstd::prelude::*;

use crate::archive_type::ArchiveType;
use crate::codec::{
    bzip2_decompress, bzip2_inflate, gzip_decompress, gzip_inflate, tar_entry_list, tar_parse,
    xz_decompress, xz_inflate, zip_entry_list, zip_parse,
};
use crate::entry::{
    tar_models, zip_models, EntryKind, TarEntry, TarEntryModel, ZipEntry, ZipEntryModel,
};
use crate::error::Error;
use crate::session::str_eq;
use crate::text::last_index_of;

verus! {

/// The mathematical view of one extraction action.
pub ghost enum OpModel {
    /// Create a directory (and its parents).
    MakeDir { path: Seq<char> },
    /// Write a file with the given bytes, creating parent directories,
    /// and apply the stored unix mode when one is carried.
    WriteFile { path: Seq<char>, data: Seq<u8>, mode: Option<u32> },
    /// Create a symbolic link pointing at the stored target.
    MakeSymlink { path: Seq<char>, target: Seq<char> },
}

/// One extraction action, with paths relative to the target directory.
#[derive(Debug)]
pub enum ExtractOp {
    /// Create a directory (and its parents).
    MakeDir { path: String },
    /// Write a file with the given bytes, creating parent directories,
    /// and apply the stored unix mode when one is carried.
    WriteFile { path: String, data: Vec<u8>, mode: Option<u32> },
    /// Create a symbolic link pointing at the stored target.
    MakeSymlink { path: String, target: String },
}

impl View for ExtractOp {
    type V = OpModel;

    open spec fn view(&self) -> OpModel {
        match self {
            ExtractOp::MakeDir { path } => OpModel::MakeDir { path: path@ },
            ExtractOp::WriteFile { path, data, mode } => OpModel::WriteFile {
                path: path@,
                data: data@,
                mode: *mode,
            },
            ExtractOp::MakeSymlink { path, target } => OpModel::MakeSymlink {
                path: path@,
                target: target@,
            },
        }
    }
}

/// The views of a list of extraction actions.
pub open spec fn op_models(s: Seq<ExtractOp>) -> Seq<OpModel> {
    s.map_values(|o: ExtractOp| o@)
}

/// The bytes and mode most recently written at `path` by the actions so
/// far, if any: what a hard-link copy of `path` reproduces.
pub open spec fn last_write_data(ops: Seq<OpModel>, path: Seq<char>) -> Option<
    (Seq<u8>, Option<u32>),
>
    decreases ops.len(),
{
    if ops.len() == 0 {
        None
    } else {
        match ops.last() {
            OpModel::WriteFile { path: p, data, mode } => if p == path {
                Some((data, mode))
            } else {
                last_write_data(ops.drop_last(), path)
            },
            _ => last_write_data(ops.drop_last(), path),
        }
    }
}

/// The actions one TAR entry adds, given the actions taken before it:
/// regular files are written, directories created, symbolic links recreated,
/// hard links resolved by copying the bytes already written at the link
/// target (skipped silently when nothing was), and any other kind skipped.
pub open spec fn tar_entry_ops(e: TarEntryModel, prev: Seq<OpModel>) -> Seq<OpModel> {
    match e.kind {
        EntryKind::Regular => seq![
            OpModel::WriteFile { path: e.path, data: e.data, mode: None },
        ],
        EntryKind::Directory => seq![OpModel::MakeDir { path: e.path }],
        EntryKind::Symlink => match e.link_target {
            Some(t) => seq![OpModel::MakeSymlink { path: e.path, target: t }],
            None => seq![],
        },
        EntryKind::HardLink => match e.link_target {
            Some(t) => match last_write_data(prev, t) {
                Some(d) => seq![
                    OpModel::WriteFile { path: e.path, data: d.0, mode: d.1 },
                ],
                None => seq![],
            },
            None => seq![],
        },
        EntryKind::Other => seq![],
    }
}

/// The actions that extract a TAR entry list, in order.
pub open spec fn tar_ops(entries: Seq<TarEntryModel>) -> Seq<OpModel>
    decreases entries.len(),
{
    if entries.len() == 0 {
        seq![]
    } else {
        let prev = tar_ops(entries.drop_last());
        prev + tar_entry_ops(entries.last(), prev)
    }
}

/// The actions that extract a ZIP entry list, in order: directory entries
/// become directories, every other entry is written as a file.
pub open spec fn zip_ops(entries: Seq<ZipEntryModel>) -> Seq<OpModel>
    decreases entries.len(),
{
    if entries.len() == 0 {
        seq![]
    } else {
        zip_ops(entries.drop_last()) + (if entries.last().is_dir {
            seq![OpModel::MakeDir { path: entries.last().name }]
        } else {
            seq![
                OpModel::WriteFile {
                    path: entries.last().name,
                    data: entries.last().data,
                    mode: entries.last().unix_mode,
                },
            ]
        })
    }
}

/// The file paths that a list of actions writes, in order: the paths that a
/// session tracks. Directories and symbolic links are not tracked.
pub open spec fn written_paths(ops: Seq<OpModel>) -> Seq<Seq<char>>
    decreases ops.len(),
{
    if ops.len() == 0 {
        seq![]
    } else {
        written_paths(ops.drop_last()) + (match ops.last() {
            OpModel::WriteFile { path, .. } => seq![path],
            _ => seq![],
        })
    }
}

/// An archive with no entries extracts to no actions at all, and no
/// actions write no files: unpacking an empty archive yields an empty
/// session.
pub proof fn lemma_empty_archive_extracts_nothing()
    ensures
        tar_ops(Seq::<TarEntryModel>::empty()) == Seq::<OpModel>::empty(),
        zip_ops(Seq::<ZipEntryModel>::empty()) == Seq::<OpModel>::empty(),
        written_paths(Seq::<OpModel>::empty()) == Seq::<Seq<char>>::empty(),
{
}

/// A symbolic-link entry is reproduced as a symbolic link pointing at the
/// stored target: extracting up to and including it adds exactly that one
/// action.
pub proof fn lemma_symlink_reproduced(entries: Seq<TarEntryModel>)
    requires
        entries.len() > 0,
        entries.last().kind == EntryKind::Symlink,
        entries.last().link_target is Some,
    ensures
        tar_ops(entries) == tar_ops(entries.drop_last()) + seq![
            OpModel::MakeSymlink {
                path: entries.last().path,
                target: entries.last().link_target->0,
            },
        ],
{
}

/// A hard-link entry whose target was already written is reproduced as a
/// file with the bytes most recently written at the target; one whose
/// target was not yet written is skipped without an error, adding no
/// action.
pub proof fn lemma_hardlink_resolution(entries: Seq<TarEntryModel>)
    requires
        entries.len() > 0,
        entries.last().kind == EntryKind::HardLink,
    ensures
        ({
            let prev = tar_ops(entries.drop_last());
            match entries.last().link_target {
                Some(t) => match last_write_data(prev, t) {
                    Some(d) => tar_ops(entries) == prev + seq![
                        OpModel::WriteFile {
                            path: entries.last().path,
                            data: d.0,
                            mode: d.1,
                        },
                    ],
                    None => tar_ops(entries) =~= prev,
                },
                None => tar_ops(entries) =~= prev,
            }
        }),
{
    let prev = tar_ops(entries.drop_last());
    match entries.last().link_target {
        Some(t) => {
            match last_write_data(prev, t) {
                Some(d) => {},
                None => {
                    assert(tar_ops(entries) =~= prev + seq![]);
                },
            }
        },
        None => {
            assert(tar_ops(entries) =~= prev + seq![]);
        },
    }
}

/// Computes the actions that extract the given TAR entries, as
/// [`tar_ops`] describes them.
pub fn tar_extract_ops(entries: &Vec<TarEntry>) -> (r: Vec<ExtractOp>)
    ensures
        op_models(r@) == tar_ops(tar_models(entries@)),
{
    let models: Ghost<Seq<TarEntryModel>> = Ghost(tar_models(entries@));
    let mut out: Vec<ExtractOp> = Vec::new();
    let mut i: usize = 0;
    while i < entries.len()
        invariant
            i <= entries@.len(),
            models@ == tar_models(entries@),
            op_models(out@) == tar_ops(models@.take(i as int)),
        decreases entries@.len() - i,
    {
        let ghost prefix = models@.take(i as int);
        let ghost prev = tar_ops(prefix);
        proof {
            assert(models@.take(i + 1).drop_last() =~= prefix);
            assert(models@.take(i + 1).last() == models@[i as int]);
            assert(models@[i as int] == entries@[i as int]@);
        }
        let ghost before = out@;
        let e: &TarEntry = &entries[i];
        match e.kind {
            EntryKind::Regular => {
                out.push(
                    ExtractOp::WriteFile {
                        path: e.path.clone(),
                        data: e.data.clone(),
                        mode: None,
                    },
                );
            },
            EntryKind::Directory => {
                out.push(ExtractOp::MakeDir { path: e.path.clone() });
            },
            EntryKind::Symlink => {
                match &e.link_target {
                    Some(t) => {
                        out.push(
                            ExtractOp::MakeSymlink { path: e.path.clone(), target: t.clone() },
                        );
                    },
                    None => {},
                }
            },
            EntryKind::HardLink => {
                match &e.link_target {
                    Some(t) => {
                        let found: Option<(Vec<u8>, Option<u32>)> = find_last_write(
                            &out,
                            t.as_str(),
                        );
                        match found {
                            Some(d) => {
                                out.push(
                                    ExtractOp::WriteFile {
                                        path: e.path.clone(),
                                        data: d.0,
                                        mode: d.1,
                                    },
                                );
                            },
                            None => {},
                        }
                    },
                    None => {},
                }
            },
            EntryKind::Other => {},
        }
        proof {
            assert(op_models(out@) =~= op_models(before) + tar_entry_ops(
                models@[i as int],
                prev,
            ));
            assert(op_models(out@) == tar_ops(models@.take(i + 1)));
        }
        i = i + 1;
    }
    proof {
        assert(models@.take(models@.len() as int) =~= models@);
    }
    out
}

/// Finds the bytes and mode most recently written at `target` by the
/// actions so far, as [`last_write_data`] describes them.
fn find_last_write(ops: &Vec<ExtractOp>, target: &str) -> (r: Option<(Vec<u8>, Option<u32>)>)
    ensures
        match r {
            Some(d) => last_write_data(op_models(ops@), target@) == Some((d.0@, d.1)),
            None => last_write_data(op_models(ops@), target@) is None,
        },
{
    let n: usize = ops.len();
    proof {
        assert(op_models(ops@.take(n as int)) =~= op_models(ops@));
    }
    find_last_write_before(ops, n, target)
}

fn find_last_write_before(ops: &Vec<ExtractOp>, end: usize, target: &str) -> (r: Option<
    (Vec<u8>, Option<u32>),
>)
    requires
        end <= ops@.len(),
    ensures
        match r {
            Some(d) => last_write_data(op_models(ops@.take(end as int)), target@) == Some(
                (d.0@, d.1),
            ),
            None => last_write_data(op_models(ops@.take(end as int)), target@) is None,
        },
    decreases end,
{
    if end == 0 {
        return None;
    }
    let ghost cur = op_models(ops@.take(end as int));
    proof {
        assert(cur.last() == ops@[end - 1]@);
        assert(cur.drop_last() =~= op_models(ops@.take(end - 1)));
    }
    match &ops[end - 1] {
        ExtractOp::WriteFile { path, data, mode } => {
            if str_eq(path.as_str(), target) {
                Some((data.clone(), *mode))
            } else {
                find_last_write_before(ops, end - 1, target)
            }
        },
        _ => find_last_write_before(ops, end - 1, target),
    }
}

/// Computes the actions that extract the given ZIP entries, as
/// [`zip_ops`] describes them.
pub fn zip_extract_ops(entries: &Vec<ZipEntry>) -> (r: Vec<ExtractOp>)
    ensures
        op_models(r@) == zip_ops(zip_models(entries@)),
{
    let models: Ghost<Seq<ZipEntryModel>> = Ghost(zip_models(entries@));
    let mut out: Vec<ExtractOp> = Vec::new();
    let mut i: usize = 0;
    while i < entries.len()
        invariant
            i <= entries@.len(),
            models@ == zip_models(entries@),
            op_models(out@) == zip_ops(models@.take(i as int)),
        decreases entries@.len() - i,
    {
        proof {
            assert(models@.take(i + 1).drop_last() =~= models@.take(i as int));
            assert(models@.take(i + 1).last() == models@[i as int]);
            assert(models@[i as int] == entries@[i as int]@);
        }
        let ghost before = out@;
        let e: &ZipEntry = &entries[i];
        if e.is_dir {
            out.push(ExtractOp::MakeDir { path: e.name.clone() });
        } else {
            out.push(
                ExtractOp::WriteFile {
                    path: e.name.clone(),
                    data: e.data.clone(),
                    mode: e.unix_mode,
                },
            );
        }
        proof {
            assert(op_models(out@) =~= zip_ops(models@.take(i + 1)));
        }
        i = i + 1;
    }
    proof {
        assert(models@.take(models@.len() as int) =~= models@);
    }
    out
}

/// The stem of a path's final component: the part before its last dot, or
/// the whole component when it has none or starts with its only dot.
pub open spec fn spec_stem_of(p: Seq<char>) -> Option<Seq<char>> {
    let f = crate::archive_type::spec_file_name(p);
    if f.len() == 0 || (f.len() == 2 && f[0] == '.' && f[1] == '.') {
        None
    } else {
        match last_index_of(f, '.') {
            Some(i) => if i == 0 {
                Some(f)
            } else {
                Some(f.take(i))
            },
            None => Some(f),
        }
    }
}

/// The output file name of a single-stream extraction: the source file
/// name's stem when one is known, a fixed placeholder otherwise.
pub open spec fn spec_single_name(source: Option<Seq<char>>) -> Seq<char> {
    match source {
        Some(p) => match spec_stem_of(p) {
            Some(s) => s,
            None => "extracted"@,
        },
        None => "extracted"@,
    }
}

/// Computes the stem of a path's final component, as [`spec_stem_of`]
/// describes it.
pub fn stem_of(p: &str) -> (r: Option<String>)
    ensures
        match r {
            Some(s) => spec_stem_of(p@) == Some(s@),
            None => spec_stem_of(p@) is None,
        },
{
    let len: usize = p.unicode_len();
    let fstart: usize = match crate::text::last_index_of_exec(p, '/') {
        Some(i) => i + 1,
        None => 0,
    };
    let fname: &str = p.substring_char(fstart, len);
    proof {
        if fstart > 0 {
            assert(fname@ =~= p@.skip(fstart as int));
        } else {
            assert(fname@ =~= p@);
        }
    }
    let flen: usize = fname.unicode_len();
    if flen == 0 {
        return None;
    }
    if flen == 2 && fname.get_char(0) == '.' && fname.get_char(1) == '.' {
        return None;
    }
    match crate::text::last_index_of_exec(fname, '.') {
        Some(i) => {
            if i == 0 {
                Some(String::from_str(fname))
            } else {
                let stem: &str = fname.substring_char(0, i);
                assert(stem@ =~= fname@.take(i as int));
                Some(String::from_str(stem))
            }
        },
        None => Some(String::from_str(fname)),
    }
}

/// The single action of a single-stream extraction: one file, named after
/// the source's stem or the placeholder, holding the decompressed bytes.
fn single_stream_ops(content: Vec<u8>, source_path: Option<&str>) -> (r: Vec<ExtractOp>)
    ensures
        op_models(r@) == seq![
            OpModel::WriteFile {
                path: spec_single_name(
                    match source_path {
                        Some(p) => Some(p@),
                        None => None,
                    },
                ),
                data: content@,
                mode: None,
            },
        ],
{
    let name: String = match source_path {
        Some(p) => match stem_of(p) {
            Some(s) => s,
            None => String::from_str("extracted"),
        },
        None => String::from_str("extracted"),
    };
    let mut out: Vec<ExtractOp> = Vec::new();
    out.push(ExtractOp::WriteFile { path: name, data: content, mode: None });
    proof {
        assert(op_models(out@) =~= seq![out@[0]@]);
    }
    out
}

/// Whether extraction succeeds for a tag on given bytes, as the codec
/// results determine it.
pub open spec fn spec_extract_ok(tag: ArchiveType, data: Seq<u8>) -> bool {
    match tag {
        ArchiveType::Zip => zip_entry_list(data) is Some,
        ArchiveType::Tar => tar_entry_list(data) is Some,
        ArchiveType::TarGz => gzip_inflate(data) is Some && tar_entry_list(
            gzip_inflate(data)->0,
        ) is Some,
        ArchiveType::TarBz2 => bzip2_inflate(data) is Some && tar_entry_list(
            bzip2_inflate(data)->0,
        ) is Some,
        ArchiveType::TarXz => xz_inflate(data) is Some && tar_entry_list(
            xz_inflate(data)->0,
        ) is Some,
        ArchiveType::Gz => gzip_inflate(data) is Some,
        ArchiveType::Bz2 => bzip2_inflate(data) is Some,
        ArchiveType::Xz => xz_inflate(data) is Some,
    }
}

/// The actions of a successful extraction: the per-format action lists over
/// the codec results, with the compressed TAR variants first decompressed
/// and then extracted exactly as a plain TAR archive is.
pub open spec fn spec_extract_ops(tag: ArchiveType, data: Seq<u8>, source: Option<Seq<char>>)
    -> Seq<OpModel> {
    match tag {
        ArchiveType::Zip => zip_ops(zip_entry_list(data)->0),
        ArchiveType::Tar => tar_ops(tar_entry_list(data)->0),
        ArchiveType::TarGz => tar_ops(tar_entry_list(gzip_inflate(data)->0)->0),
        ArchiveType::TarBz2 => tar_ops(tar_entry_list(bzip2_inflate(data)->0)->0),
        ArchiveType::TarXz => tar_ops(tar_entry_list(xz_inflate(data)->0)->0),
        ArchiveType::Gz => seq![
            OpModel::WriteFile {
                path: spec_single_name(source),
                data: gzip_inflate(data)->0,
                mode: None,
            },
        ],
        ArchiveType::Bz2 => seq![
            OpModel::WriteFile {
                path: spec_single_name(source),
                data: bzip2_inflate(data)->0,
                mode: None,
            },
        ],
        ArchiveType::Xz => seq![
            OpModel::WriteFile {
                path: spec_single_name(source),
                data: xz_inflate(data)->0,
                mode: None,
            },
        ],
    }
}

/// Extracts an archive held in memory into the list of actions that
/// reproduce its contents, dispatching on the tag. Succeeds exactly when
/// the codecs accept the bytes; every failure is a codec error.
pub fn extract_archive(tag: ArchiveType, data: &[u8], source_path: Option<&str>) -> (r: Result<
    Vec<ExtractOp>,
    Error,
>)
    ensures
        r is Ok <==> spec_extract_ok(tag, data@),
        r matches Ok(ops) ==> op_models(ops@) == spec_extract_ops(
            tag,
            data@,
            match source_path {
                Some(p) => Some(p@),
                None => None,
            },
        ),
        r matches Err(e) ==> e is Codec,
{
    match tag {
        ArchiveType::Zip => {
            match zip_parse(data) {
                Ok(entries) => Ok(zip_extract_ops(&entries)),
                Err(m) => Err(Error::Codec { message: m }),
            }
        },
        ArchiveType::Tar => {
            match tar_parse(data) {
                Ok(entries) => Ok(tar_extract_ops(&entries)),
                Err(m) => Err(Error::Codec { message: m }),
            }
        },
        ArchiveType::TarGz => {
            match gzip_decompress(data) {
                Ok(plain) => match tar_parse(plain.as_slice()) {
                    Ok(entries) => Ok(tar_extract_ops(&entries)),
                    Err(m) => Err(Error::Codec { message: m }),
                },
                Err(m) => Err(Error::Codec { message: m }),
            }
        },
        ArchiveType::TarBz2 => {
            match bzip2_decompress(data) {
                Ok(plain) => match tar_parse(plain.as_slice()) {
                    Ok(entries) => Ok(tar_extract_ops(&entries)),
                    Err(m) => Err(Error::Codec { message: m }),
                },
                Err(m) => Err(Error::Codec { message: m }),
            }
        },
        ArchiveType::TarXz => {
            match xz_decompress(data) {
                Ok(plain) => match tar_parse(plain.as_slice()) {
                    Ok(entries) => Ok(tar_extract_ops(&entries)),
                    Err(m) => Err(Error::Codec { message: m }),
                },
                Err(m) => Err(Error::Codec { message: m }),
            }
        },
        ArchiveType::Gz => {
            match gzip_decompress(data) {
                Ok(content) => Ok(single_stream_ops(content, source_path)),
                Err(m) => Err(Error::Codec { message: m }),
            }
        },
        ArchiveType::Bz2 => {
            match bzip2_decompress(data) {
                Ok(content) => Ok(single_stream_ops(content, source_path)),
                Err(m) => Err(Error::Codec { message: m }),
            }
        },
        ArchiveType::Xz => {
            match xz_decompress(data) {
                Ok(content) => Ok(single_stream_ops(content, source_path)),
                Err(m) => Err(Error::Codec { message: m }),
            }
        },
    }
}

/// Computes the relative file paths that a list of actions writes, as
/// [`written_paths`] describes them: what the session tracks after the
/// actions are performed.
pub fn written_file_paths(ops: &Vec<ExtractOp>) -> (r: Vec<String>)
    ensures
        r@.len() == written_paths(op_models(ops@)).len(),
        forall|i: int| 0 <= i < r@.len() ==> r@[i]@ == written_paths(op_models(ops@))[i],
{
    let mut out: Vec<String> = Vec::new();
    let mut i: usize = 0;
    while i < ops.len()
        invariant
            i <= ops@.len(),
            out@.len() == written_paths(op_models(ops@.take(i as int))).len(),
            forall|j: int| 0 <= j < out@.len() ==> out@[j]@ == written_paths(
                op_models(ops@.take(i as int)),
            )[j],
        decreases ops@.len() - i,
    {
        let ghost cur = op_models(ops@.take(i + 1));
        proof {
            assert(cur.drop_last() =~= op_models(ops@.take(i as int)));
            assert(cur.last() == ops@[i as int]@);
        }
        match &ops[i] {
            ExtractOp::WriteFile { path, .. } => {
                out.push(path.clone());
            },
            _ => {},
        }
        i = i + 1;
    }
    proof {
        assert(op_models(ops@.take(ops@.len() as int)) =~= op_models(ops@));
    }
    out
}

} // verus!
