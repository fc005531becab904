//! Packing: re-deriving the target archive type from the destination name,
//! ordering a directory tree's files deterministically, and building the
//! archive bytes for every container format.

use vstd::prelude::*;

use crate::archive_type::{spec_tag_for_name, ArchiveType};
use crate::codec::{
    bzip2_compress, bzip2_deflate, bzip2_deflate_ok, gzip_compress, gzip_deflate,
    gzip_deflate_ok, tar_archive_bytes, tar_build, tar_build_ok, xz_compress, xz_deflate,
    xz_deflate_ok, zip_archive_bytes, zip_build, zip_write_ok,
};
use crate::entry::{file_models, FileEntry, FileEntryModel, ZipBuildItem, ZipItemModel};
use crate::error::Error;
use crate::session::{spec_strip_prefix, strip_prefix_exec};
use crate::text::{chars_lt, lemma_chars_lt_connected, lemma_chars_lt_trans};

verus! {

/// A builder file list is sorted by path and free of duplicate paths.
pub open spec fn pack_sorted(s: Seq<FileEntry>) -> bool {
    forall|i: int, j: int| 0 <= i < j < s.len() ==> chars_lt(s[i].path@, s[j].path@)
}

/// True when some entry carries the path `p`.
pub open spec fn has_path_entry(s: Seq<FileEntry>, p: Seq<char>) -> bool {
    exists|i: int| 0 <= i < s.len() && s[i].path@ == p
}

/// True when some entry carries the path `p` with the bytes `d`.
pub open spec fn has_pair(s: Seq<FileEntry>, p: Seq<char>, d: Seq<u8>) -> bool {
    exists|i: int| 0 <= i < s.len() && s[i].path@ == p && s[i].data@ == d
}

/// Inserts a file into a list sorted by path, keeping it sorted; a path
/// already present is not inserted again.
fn insert_entry(v: &mut Vec<FileEntry>, x: FileEntry)
    requires
        pack_sorted(old(v)@),
    ensures
        pack_sorted(final(v)@),
        forall|p: Seq<char>| #[trigger] has_path_entry(final(v)@, p) <==> has_path_entry(
            old(v)@,
            p,
        ) || p == x.path@,
        forall|p: Seq<char>, d: Seq<u8>| #[trigger] has_pair(final(v)@, p, d) <==> has_pair(
            old(v)@,
            p,
            d,
        ) || (!has_path_entry(old(v)@, x.path@) && p == x.path@ && d == x.data@),
{
    let ghost orig = v@;
    let mut i: usize = 0;
    while i < v.len() && crate::text::str_lt(v[i].path.as_str(), x.path.as_str())
        invariant
            i <= v@.len(),
            v@ == orig,
            pack_sorted(v@),
            forall|j: int| 0 <= j < i ==> chars_lt(v@[j].path@, x.path@),
        decreases v@.len() - i,
    {
        i = i + 1;
    }
    if i < v.len() && crate::session::str_eq(v[i].path.as_str(), x.path.as_str()) {
        proof {
            assert(v@[i as int].path@ == x.path@);
            assert(has_path_entry(v@, x.path@));
            assert forall|p: Seq<char>| #[trigger] has_path_entry(v@, p) <==> has_path_entry(
                orig,
                p,
            ) || p == x.path@ by {
                if p == x.path@ {
                    assert(has_path_entry(v@, p));
                }
            }
        }
        return ;
    }
    proof {
        if i < v@.len() {
            lemma_chars_lt_connected(v@[i as int].path@, x.path@);
        }
        assert(!has_path_entry(orig, x.path@)) by {
            if has_path_entry(orig, x.path@) {
                let k = choose|k: int| 0 <= k < orig.len() && orig[k].path@ == x.path@;
                if k < i {
                    crate::text::lemma_chars_lt_irrefl(x.path@);
                } else if k > i {
                    assert(chars_lt(orig[i as int].path@, orig[k].path@));
                    assert(chars_lt(x.path@, orig[k].path@)) by {
                        lemma_chars_lt_trans(x.path@, orig[i as int].path@, orig[k].path@);
                    }
                    crate::text::lemma_chars_lt_irrefl(x.path@);
                }
            }
        }
    }
    let ghost mid = i as int;
    let ghost xp = x.path@;
    let ghost xd = x.data@;
    v.insert(i, x);
    proof {
        assert(v@ == orig.insert(mid, x));
        assert(forall|j: int| 0 <= j < mid ==> v@[j] == orig[j]);
        assert(v@[mid] == x);
        assert(forall|j: int| mid < j < v@.len() ==> v@[j] == orig[j - 1]);
        assert forall|a: int, b: int| 0 <= a < b < v@.len() implies chars_lt(
            v@[a].path@,
            v@[b].path@,
        ) by {
            if b < mid {
            } else if a < mid && b == mid {
            } else if a < mid && b > mid {
                if b - 1 == a {
                } else {
                    assert(chars_lt(orig[a].path@, orig[b - 1].path@));
                }
            } else if a == mid {
                assert(chars_lt(xp, orig[mid].path@));
                if b - 1 > mid {
                    lemma_chars_lt_trans(xp, orig[mid].path@, orig[b - 1].path@);
                }
            } else {
            }
        }
        assert forall|p: Seq<char>| #[trigger] has_path_entry(v@, p) implies has_path_entry(
            orig,
            p,
        ) || p == xp by {
            let k = choose|k: int| 0 <= k < v@.len() && v@[k].path@ == p;
            if k < mid {
                assert(orig[k].path@ == p);
            } else if k > mid {
                assert(orig[k - 1].path@ == p);
            }
        }
        assert forall|p: Seq<char>| has_path_entry(orig, p) || p == xp implies #[trigger]
        has_path_entry(v@, p) by {
            if p == xp {
                assert(v@[mid].path@ == p);
            } else {
                let k = choose|k: int| 0 <= k < orig.len() && orig[k].path@ == p;
                if k < mid {
                    assert(v@[k].path@ == p);
                } else {
                    assert(v@[k + 1].path@ == p);
                }
            }
        }
        assert forall|p: Seq<char>, d: Seq<u8>| #[trigger] has_pair(v@, p, d) implies has_pair(
            orig,
            p,
            d,
        ) || (p == xp && d == xd) by {
            let k = choose|k: int| 0 <= k < v@.len() && v@[k].path@ == p && v@[k].data@ == d;
            if k < mid {
                assert(orig[k].path@ == p && orig[k].data@ == d);
            } else if k > mid {
                assert(orig[k - 1].path@ == p && orig[k - 1].data@ == d);
            }
        }
        assert forall|p: Seq<char>, d: Seq<u8>|
            has_pair(orig, p, d) || (p == xp && d == xd) implies #[trigger] has_pair(
            v@,
            p,
            d,
        ) by {
            if p == xp && d == xd {
                assert(v@[mid].path@ == p && v@[mid].data@ == d);
            } else {
                let k = choose|k: int| 0 <= k < orig.len() && orig[k].path@ == p && orig[k].data@
                    == d;
                if k < mid {
                    assert(v@[k].path@ == p && v@[k].data@ == d);
                } else {
                    assert(v@[k + 1].path@ == p && v@[k + 1].data@ == d);
                }
            }
        }
    }
}

/// The archive type a destination name resolves to: the name's own
/// resolution when it has one, the session's original tag otherwise.
pub open spec fn spec_resolve_pack_type(target: Seq<char>, fallback: ArchiveType) -> ArchiveType {
    match spec_tag_for_name(target) {
        Some(t) => t,
        None => fallback,
    }
}

/// Resolves the target archive type from the destination file name, falling
/// back to the given tag when the name resolves to none.
pub fn resolve_pack_type(target_path: &str, fallback: ArchiveType) -> (r: ArchiveType)
    ensures
        r == spec_resolve_pack_type(target_path@, fallback),
{
    match ArchiveType::from_file_name(target_path) {
        Some(t) => t,
        None => fallback,
    }
}

/// The ZIP builder items of a file list: one file item per entry, in order.
pub open spec fn file_items(entries: Seq<FileEntryModel>) -> Seq<ZipItemModel> {
    entries.map_values(|e: FileEntryModel| ZipItemModel::File { name: e.path, data: e.data })
}

/// The bytes a successful build produces for a container tag: the named
/// builder result, with the compressed TAR variants produced by compressing
/// the plain TAR bytes.
pub open spec fn spec_build_bytes(tag: ArchiveType, entries: Seq<FileEntryModel>) -> Seq<u8> {
    match tag {
        ArchiveType::Zip => zip_archive_bytes(file_items(entries), Seq::empty()),
        ArchiveType::Tar => tar_archive_bytes(entries),
        ArchiveType::TarGz => gzip_deflate(tar_archive_bytes(entries)),
        ArchiveType::TarBz2 => bzip2_deflate(tar_archive_bytes(entries)),
        ArchiveType::TarXz => xz_deflate(tar_archive_bytes(entries)),
        _ => Seq::empty(),
    }
}

/// Whether the build of a file list succeeds for a tag: the tag is a
/// container and the named builder (and, for the compressed TAR variants,
/// the named compression of the TAR bytes) succeeds. Never true for a
/// single-stream tag.
pub open spec fn spec_build_ok(tag: ArchiveType, entries: Seq<FileEntryModel>) -> bool {
    match tag {
        ArchiveType::Zip => zip_write_ok(file_items(entries), Seq::empty()),
        ArchiveType::Tar => tar_build_ok(entries),
        ArchiveType::TarGz => tar_build_ok(entries) && gzip_deflate_ok(tar_archive_bytes(entries)),
        ArchiveType::TarBz2 => tar_build_ok(entries) && bzip2_deflate_ok(
            tar_archive_bytes(entries),
        ),
        ArchiveType::TarXz => tar_build_ok(entries) && xz_deflate_ok(tar_archive_bytes(entries)),
        _ => false,
    }
}

/// Builds an archive of the given files for a container tag: succeeds
/// exactly when the named builder calls do. A single-stream tag is refused
/// with `UnsupportedFormat`: those formats cannot hold more than one
/// logical file. Every other failure comes from the codecs and is a codec
/// error.
pub fn build_archive(tag: ArchiveType, entries: &Vec<FileEntry>) -> (r: Result<Vec<u8>, Error>)
    ensures
        r is Ok <==> spec_build_ok(tag, file_models(entries@)),
        r matches Ok(v) ==> v@ == spec_build_bytes(tag, file_models(entries@)),
        r matches Err(e) ==> (if tag == ArchiveType::Gz || tag == ArchiveType::Bz2 || tag
            == ArchiveType::Xz {
            e matches Error::UnsupportedFormat { format } && format@
                == "Packing format not supported: "@ + crate::archive_type::spec_display_name(tag)
        } else {
            e is Codec
        }),
{
    if !tag.supports_multiple_files() {
        let mut m: String = String::from_str("Packing format not supported: ");
        let name: String = tag.display_name();
        m.append(name.as_str());
        return Err(Error::UnsupportedFormat { format: m });
    }
    match tag {
        ArchiveType::Zip => {
            let mut items: Vec<ZipBuildItem> = Vec::new();
            let mut i: usize = 0;
            while i < entries.len()
                invariant
                    i <= entries@.len(),
                    items@.len() == i,
                    forall|j: int| 0 <= j < i ==> #[trigger] items@[j]@ == (ZipItemModel::File {
                        name: entries@[j].path@,
                        data: entries@[j].data@,
                    }),
                decreases entries@.len() - i,
            {
                items.push(
                    ZipBuildItem::File {
                        name: entries[i].path.clone(),
                        data: entries[i].data.clone(),
                    },
                );
                i = i + 1;
            }
            proof {
                assert(zip_item_models_of(items@) =~= file_items(file_models(entries@)));
            }
            let empty: String = String::new();
            match zip_build(&items, empty.as_str()) {
                Ok(v) => Ok(v),
                Err(m) => Err(Error::Codec { message: m }),
            }
        },
        ArchiveType::TarGz => {
            match tar_build(entries) {
                Ok(plain) => match gzip_compress(plain.as_slice()) {
                    Ok(v) => Ok(v),
                    Err(m) => Err(Error::Codec { message: m }),
                },
                Err(m) => Err(Error::Codec { message: m }),
            }
        },
        ArchiveType::TarBz2 => {
            match tar_build(entries) {
                Ok(plain) => match bzip2_compress(plain.as_slice()) {
                    Ok(v) => Ok(v),
                    Err(m) => Err(Error::Codec { message: m }),
                },
                Err(m) => Err(Error::Codec { message: m }),
            }
        },
        ArchiveType::TarXz => {
            match tar_build(entries) {
                Ok(plain) => match xz_compress(plain.as_slice()) {
                    Ok(v) => Ok(v),
                    Err(m) => Err(Error::Codec { message: m }),
                },
                Err(m) => Err(Error::Codec { message: m }),
            }
        },
        _ => {
            match tar_build(entries) {
                Ok(v) => Ok(v),
                Err(m) => Err(Error::Codec { message: m }),
            }
        },
    }
}

/// The views of a list of ZIP builder items (shared with the codec layer).
pub open spec fn zip_item_models_of(s: Seq<ZipBuildItem>) -> Seq<ZipItemModel> {
    crate::entry::zip_item_models(s)
}

/// A finished pack plan: the resolved container tag, the files in their
/// deterministic order, and the archive bytes built from them.
#[derive(Debug)]
pub struct PackPlan {
    /// The resolved target archive type.
    pub target_type: ArchiveType,
    /// The files packed, sorted by relative path.
    pub entries: Vec<FileEntry>,
    /// The archive bytes to write at the destination.
    pub bytes: Vec<u8>,
}

/// The relation a pack plan's file list keeps to the walked files: sorted
/// by path, free of duplicate paths, every entry taken from some walked
/// file by stripping the base prefix, and every walked file's stripped path
/// present.
pub open spec fn packs_walked(
    entries: Seq<FileEntry>,
    walked: Seq<FileEntry>,
    base: Seq<char>,
) -> bool {
    &&& pack_sorted(entries)
    &&& forall|p: Seq<char>, d: Seq<u8>| #[trigger] has_pair(entries, p, d) ==> (exists|j: int|
        0 <= j < walked.len() && spec_strip_prefix(walked[j].path@, base) == Some(p)
            && walked[j].data@ == d)
    &&& forall|j: int|
        0 <= j < walked.len() ==> spec_strip_prefix(#[trigger] walked[j].path@, base) is Some
            && has_path_entry(entries, spec_strip_prefix(walked[j].path@, base)->0)
}

/// Plans a pack: resolves the target tag from the destination name (falling
/// back to the session's tag), refuses a single-stream target, strips the
/// temporary-directory prefix from every walked file, orders the files by
/// relative path, and builds the archive bytes. Succeeds exactly when the
/// tag is a container, every walked file lies under the root, and the named
/// build of the ordered files succeeds; each error kind names its cause.
pub fn plan_pack(
    session_type: ArchiveType,
    temp_path: &str,
    target_path: &str,
    walked: &Vec<FileEntry>,
) -> (r: Result<PackPlan, Error>)
    ensures
        ({
            let tag = spec_resolve_pack_type(target_path@, session_type);
            let container = tag == ArchiveType::Zip || tag == ArchiveType::Tar || tag
                == ArchiveType::TarGz || tag == ArchiveType::TarBz2 || tag == ArchiveType::TarXz;
            match r {
                Ok(plan) => {
                    &&& plan.target_type == tag
                    &&& container
                    &&& packs_walked(plan.entries@, walked@, temp_path@)
                    &&& spec_build_ok(tag, file_models(plan.entries@))
                    &&& plan.bytes@ == spec_build_bytes(tag, file_models(plan.entries@))
                },
                Err(e) => match e {
                    Error::UnsupportedFormat { format } => !container && format@
                        == "Packing format not supported: "@
                        + crate::archive_type::spec_display_name(tag),
                    Error::Io { message } => container && message@ == "Invalid file path"@ && (
                    exists|j: int|
                        0 <= j < walked@.len() && spec_strip_prefix(
                            walked@[j].path@,
                            temp_path@,
                        ) is None),
                    Error::Codec { .. } => container && (forall|j: int|
                        0 <= j < walked@.len() ==> spec_strip_prefix(
                            #[trigger] walked@[j].path@,
                            temp_path@,
                        ) is Some) && (exists|es: Seq<FileEntry>|
                        packs_walked(es, walked@, temp_path@) && !spec_build_ok(
                            tag,
                            file_models(es),
                        )),
                    _ => false,
                },
            }
        }),
{
    let tag: ArchiveType = resolve_pack_type(target_path, session_type);
    if !tag.supports_multiple_files() {
        let mut m: String = String::from_str("Packing format not supported: ");
        let name: String = tag.display_name();
        m.append(name.as_str());
        return Err(Error::UnsupportedFormat { format: m });
    }
    let mut sorted: Vec<FileEntry> = Vec::new();
    let mut i: usize = 0;
    while i < walked.len()
        invariant
            i <= walked@.len(),
            tag == spec_resolve_pack_type(target_path@, session_type),
            tag == ArchiveType::Zip || tag == ArchiveType::Tar || tag == ArchiveType::TarGz || tag
                == ArchiveType::TarBz2 || tag == ArchiveType::TarXz,
            pack_sorted(sorted@),
            forall|p: Seq<char>, d: Seq<u8>| #[trigger] has_pair(sorted@, p, d) ==> (exists|j: int|
                0 <= j < i && spec_strip_prefix(walked@[j].path@, temp_path@) == Some(p)
                    && walked@[j].data@ == d),
            forall|j: int|
                0 <= j < i ==> spec_strip_prefix(#[trigger] walked@[j].path@, temp_path@) is Some
                    && has_path_entry(
                    sorted@,
                    spec_strip_prefix(walked@[j].path@, temp_path@)->0,
                ),
        decreases walked@.len() - i,
    {
        match strip_prefix_exec(walked[i].path.as_str(), temp_path) {
            Some(rel) => {
                let entry: FileEntry = FileEntry {
                    path: String::from_str(rel),
                    data: walked[i].data.clone(),
                };
                insert_entry(&mut sorted, entry);
            },
            None => {
                proof {
                    assert(spec_strip_prefix(walked@[i as int].path@, temp_path@) is None);
                    assert(exists|j: int|
                        0 <= j < walked@.len() && spec_strip_prefix(
                            #[trigger] walked@[j].path@,
                            temp_path@,
                        ) is None);
                }
                return Err(Error::Io { message: String::from_str("Invalid file path") });
            },
        }
        i = i + 1;
    }
    proof {
        assert(packs_walked(sorted@, walked@, temp_path@));
    }
    match build_archive(tag, &sorted) {
        Ok(bytes) => Ok(PackPlan { target_type: tag, entries: sorted, bytes }),
        Err(e) => {
            proof {
                assert(packs_walked(sorted@, walked@, temp_path@) && !spec_build_ok(
                    tag,
                    file_models(sorted@),
                ));
            }
            Err(e)
        },
    }
}

} // verus!
