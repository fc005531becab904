//! Archive format tags and the extension registry: mapping file extensions
//! (simple and compound, without regard to ASCII case) to a tag and back.

use vstd::prelude::*;

use crate::text::{ci_eq, ci_str_eq, find_ci, find_ci_exec, last_index_of, last_index_of_exec};

verus! {

/// The closed set of supported archive formats.
#[derive(Debug, Clone, Copy, PartialEq, Eq, Hash, Structural)]
pub enum ArchiveType {
    /// ZIP archive format
    Zip,
    /// TAR archive format (uncompressed)
    Tar,
    /// GZIP compressed TAR archive
    TarGz,
    /// BZIP2 compressed TAR archive
    TarBz2,
    /// XZ compressed TAR archive
    TarXz,
    /// GZIP compression (single file)
    Gz,
    /// BZIP2 compression (single file)
    Bz2,
    /// XZ compression (single file)
    Xz,
}

/// The recognized extensions of each tag, canonical (primary) extension
/// first.
pub open spec fn spec_extensions(t: ArchiveType) -> Seq<Seq<char>> {
    match t {
        ArchiveType::Zip => seq!["zip"@],
        ArchiveType::Tar => seq!["tar"@],
        ArchiveType::TarGz => seq!["tar.gz"@, "tgz"@],
        ArchiveType::TarBz2 => seq!["tar.bz2"@, "tbz2"@, "tb2"@],
        ArchiveType::TarXz => seq!["tar.xz"@, "txz"@],
        ArchiveType::Gz => seq!["gz"@, "gzip"@],
        ArchiveType::Bz2 => seq!["bz2"@, "bzip2"@],
        ArchiveType::Xz => seq!["xz"@],
    }
}

/// The tag whose recognized extension equals `e` up to ASCII case, if any.
pub open spec fn spec_tag_for_extension(e: Seq<char>) -> Option<ArchiveType> {
    if ci_eq(e, "zip"@) {
        Some(ArchiveType::Zip)
    } else if ci_eq(e, "tar"@) {
        Some(ArchiveType::Tar)
    } else if ci_eq(e, "tar.gz"@) || ci_eq(e, "tgz"@) {
        Some(ArchiveType::TarGz)
    } else if ci_eq(e, "tar.bz2"@) || ci_eq(e, "tbz2"@) || ci_eq(e, "tb2"@) {
        Some(ArchiveType::TarBz2)
    } else if ci_eq(e, "tar.xz"@) || ci_eq(e, "txz"@) {
        Some(ArchiveType::TarXz)
    } else if ci_eq(e, "gz"@) || ci_eq(e, "gzip"@) {
        Some(ArchiveType::Gz)
    } else if ci_eq(e, "bz2"@) || ci_eq(e, "bzip2"@) {
        Some(ArchiveType::Bz2)
    } else if ci_eq(e, "xz"@) {
        Some(ArchiveType::Xz)
    } else {
        None
    }
}

/// The final path component: everything after the last `/`, or the whole
/// path when it has none. Unlike std's `Path`, which ignores trailing
/// separators, a path ending in `/` has an empty final component here.
pub open spec fn spec_file_name(p: Seq<char>) -> Seq<char> {
    match last_index_of(p, '/') {
        Some(i) => p.skip(i + 1),
        None => p,
    }
}

/// The extension of the final path component: the part after its last dot.
/// A component without a dot, a leading-dot-only name, and the
/// parent-directory name `..` have none; so does a path ending in `/`,
/// whose final component is empty.
pub open spec fn spec_extension_of(p: Seq<char>) -> Option<Seq<char>> {
    let f = spec_file_name(p);
    if f.len() == 2 && f[0] == '.' && f[1] == '.' {
        None
    } else {
        match last_index_of(f, '.') {
            Some(i) => if i == 0 {
                None
            } else {
                Some(f.skip(i + 1))
            },
            None => None,
        }
    }
}

/// The tag a file name resolves to: the longest compound extension starting
/// at the first `.tar.` of the final component is tried first, then the
/// trailing simple extension.
pub open spec fn spec_tag_for_name(p: Seq<char>) -> Option<ArchiveType> {
    let f = spec_file_name(p);
    let compound = match find_ci(f, ".tar."@, 0) {
        Some(i) => spec_tag_for_extension(f.skip(i + 1)),
        None => None,
    };
    match compound {
        Some(t) => Some(t),
        None => match spec_extension_of(p) {
            Some(e) => spec_tag_for_extension(e),
            None => None,
        },
    }
}

impl ArchiveType {
    /// Determines the archive type from a file extension (without the dot),
    /// matching without regard to ASCII case. Returns `None` exactly for the
    /// strings that are no recognized extension of any tag.
    pub fn from_file_extension(extension: &str) -> (r: Option<ArchiveType>)
        ensures
            r == spec_tag_for_extension(extension@),
    {
        if ci_str_eq(extension, "zip") {
            Some(ArchiveType::Zip)
        } else if ci_str_eq(extension, "tar") {
            Some(ArchiveType::Tar)
        } else if ci_str_eq(extension, "tar.gz") || ci_str_eq(extension, "tgz") {
            Some(ArchiveType::TarGz)
        } else if ci_str_eq(extension, "tar.bz2") || ci_str_eq(extension, "tbz2") || ci_str_eq(
            extension,
            "tb2",
        ) {
            Some(ArchiveType::TarBz2)
        } else if ci_str_eq(extension, "tar.xz") || ci_str_eq(extension, "txz") {
            Some(ArchiveType::TarXz)
        } else if ci_str_eq(extension, "gz") || ci_str_eq(extension, "gzip") {
            Some(ArchiveType::Gz)
        } else if ci_str_eq(extension, "bz2") || ci_str_eq(extension, "bzip2") {
            Some(ArchiveType::Bz2)
        } else if ci_str_eq(extension, "xz") {
            Some(ArchiveType::Xz)
        } else {
            None
        }
    }

    /// Determines the archive type from a file name or path, trying the
    /// compound extension that starts at the first `.tar.` of the final
    /// component before the trailing simple extension.
    pub fn from_file_name(name: &str) -> (r: Option<ArchiveType>)
        ensures
            r == spec_tag_for_name(name@),
    {
        let len: usize = name.unicode_len();
        let fstart: usize = match last_index_of_exec(name, '/') {
            Some(i) => i + 1,
            None => 0,
        };
        let fname: &str = name.substring_char(fstart, len);
        proof {
            if fstart > 0 {
                assert(fname@ =~= name@.skip(fstart as int));
            } else {
                assert(fname@ =~= name@);
            }
        }
        let compound: Option<ArchiveType> = match find_ci_exec(fname, ".tar.", 0) {
            Some(i) => {
                proof {
                    reveal_strlit(".tar.");
                }
                let ext: &str = fname.substring_char(i + 1, fname.unicode_len());
                assert(ext@ =~= fname@.skip(i + 1));
                ArchiveType::from_file_extension(ext)
            },
            None => None,
        };
        match compound {
            Some(t) => Some(t),
            None => {
                match Self::extension_of_path(name) {
                    Some(e) => ArchiveType::from_file_extension(e),
                    None => None,
                }
            },
        }
    }

    /// Returns the extension of a path's final component, as
    /// [`spec_extension_of`] describes it.
    pub fn extension_of_path(p: &str) -> (r: Option<&str>)
        ensures
            match r {
                Some(e) => spec_extension_of(p@) == Some(e@),
                None => spec_extension_of(p@) is None,
            },
    {
        let len: usize = p.unicode_len();
        let fstart: usize = match last_index_of_exec(p, '/') {
            Some(i) => i + 1,
            None => 0,
        };
        let fname: &str = p.substring_char(fstart, len);
        proof {
            if fstart > 0 {
                assert(fname@ =~= p@.skip(fstart as int));
            } else {
                assert(fname@ =~= p@);
            }
        }
        let flen: usize = fname.unicode_len();
        if flen == 2 && fname.get_char(0) == '.' && fname.get_char(1) == '.' {
            return None;
        }
        match last_index_of_exec(fname, '.') {
            Some(i) => {
                if i == 0 {
                    None
                } else {
                    let ext: &str = fname.substring_char(i + 1, flen);
                    assert(ext@ =~= fname@.skip(i + 1));
                    Some(ext)
                }
            },
            None => None,
        }
    }

    /// The recognized file extensions of this archive type, canonical one
    /// first. The list is never empty.
    pub fn file_extensions(&self) -> (r: Vec<&'static str>)
        ensures
            r@.len() == spec_extensions(*self).len(),
            forall|i: int| 0 <= i < r@.len() ==> r@[i]@ == spec_extensions(*self)[i],
            r@.len() > 0,
    {
        let mut v: Vec<&'static str> = Vec::new();
        match self {
            ArchiveType::Zip => {
                v.push("zip");
            },
            ArchiveType::Tar => {
                v.push("tar");
            },
            ArchiveType::TarGz => {
                v.push("tar.gz");
                v.push("tgz");
            },
            ArchiveType::TarBz2 => {
                v.push("tar.bz2");
                v.push("tbz2");
                v.push("tb2");
            },
            ArchiveType::TarXz => {
                v.push("tar.xz");
                v.push("txz");
            },
            ArchiveType::Gz => {
                v.push("gz");
                v.push("gzip");
            },
            ArchiveType::Bz2 => {
                v.push("bz2");
                v.push("bzip2");
            },
            ArchiveType::Xz => {
                v.push("xz");
            },
        }
        v
    }

    /// The canonical (primary) extension of this archive type: the first of
    /// its recognized extensions.
    pub fn primary_extension(&self) -> (r: &'static str)
        ensures
            r@ == spec_extensions(*self)[0],
    {
        match self {
            ArchiveType::Zip => "zip",
            ArchiveType::Tar => "tar",
            ArchiveType::TarGz => "tar.gz",
            ArchiveType::TarBz2 => "tar.bz2",
            ArchiveType::TarXz => "tar.xz",
            ArchiveType::Gz => "gz",
            ArchiveType::Bz2 => "bz2",
            ArchiveType::Xz => "xz",
        }
    }

    /// True for the TAR container and its compressed variants.
    pub fn is_tar_variant(&self) -> (r: bool)
        ensures
            r <==> (*self == ArchiveType::Tar || *self == ArchiveType::TarGz || *self
                == ArchiveType::TarBz2 || *self == ArchiveType::TarXz),
    {
        matches!(
            self,
            ArchiveType::Tar | ArchiveType::TarGz | ArchiveType::TarBz2 | ArchiveType::TarXz
        )
    }

    /// True for container formats, which can hold many files; false for the
    /// single-stream compression formats.
    pub fn supports_multiple_files(&self) -> (r: bool)
        ensures
            r <==> (*self == ArchiveType::Zip || *self == ArchiveType::Tar || *self
                == ArchiveType::TarGz || *self == ArchiveType::TarBz2 || *self
                == ArchiveType::TarXz),
    {
        matches!(
            self,
            ArchiveType::Zip | ArchiveType::Tar | ArchiveType::TarGz | ArchiveType::TarBz2
                | ArchiveType::TarXz
        )
    }

    /// The display name of the format.
    pub fn display_name(&self) -> (r: String)
        ensures
            r@ == spec_display_name(*self),
    {
        match self {
            ArchiveType::Zip => String::from_str("ZIP"),
            ArchiveType::Tar => String::from_str("TAR"),
            ArchiveType::TarGz => String::from_str("TAR.GZ"),
            ArchiveType::TarBz2 => String::from_str("TAR.BZ2"),
            ArchiveType::TarXz => String::from_str("TAR.XZ"),
            ArchiveType::Gz => String::from_str("GZIP"),
            ArchiveType::Bz2 => String::from_str("BZIP2"),
            ArchiveType::Xz => String::from_str("XZ"),
        }
    }
}

/// The extension lookup and the per-tag extension lists agree: a string
/// resolves to a tag exactly when it equals one of that tag's recognized
/// extensions up to ASCII case. In particular every supported extension, in
/// any case variation, resolves to its tag, and no other string resolves to
/// any.
pub proof fn lemma_lookup_matches_registry(t: ArchiveType, e: Seq<char>)
    ensures
        spec_tag_for_extension(e) == Some(t) <==> (exists|i: int|
            0 <= i < spec_extensions(t).len() && ci_eq(e, #[trigger] spec_extensions(t)[i])),
{
    reveal_strlit("zip");
    reveal_strlit("tar");
    reveal_strlit("tar.gz");
    reveal_strlit("tgz");
    reveal_strlit("tar.bz2");
    reveal_strlit("tbz2");
    reveal_strlit("tb2");
    reveal_strlit("tar.xz");
    reveal_strlit("txz");
    reveal_strlit("gz");
    reveal_strlit("gzip");
    reveal_strlit("bz2");
    reveal_strlit("bzip2");
    reveal_strlit("xz");
    if spec_tag_for_extension(e) == Some(t) {
        match t {
            ArchiveType::Zip => {
                assert(ci_eq(e, spec_extensions(t)[0]));
            },
            ArchiveType::Tar => {
                assert(ci_eq(e, spec_extensions(t)[0]));
            },
            ArchiveType::TarGz => {
                assert(ci_eq(e, spec_extensions(t)[0]) || ci_eq(e, spec_extensions(t)[1]));
            },
            ArchiveType::TarBz2 => {
                assert(ci_eq(e, spec_extensions(t)[0]) || ci_eq(e, spec_extensions(t)[1]) || ci_eq(
                    e,
                    spec_extensions(t)[2],
                ));
            },
            ArchiveType::TarXz => {
                assert(ci_eq(e, spec_extensions(t)[0]) || ci_eq(e, spec_extensions(t)[1]));
            },
            ArchiveType::Gz => {
                assert(ci_eq(e, spec_extensions(t)[0]) || ci_eq(e, spec_extensions(t)[1]));
            },
            ArchiveType::Bz2 => {
                assert(ci_eq(e, spec_extensions(t)[0]) || ci_eq(e, spec_extensions(t)[1]));
            },
            ArchiveType::Xz => {
                assert(ci_eq(e, spec_extensions(t)[0]));
            },
        }
    }
    if exists|i: int|
        0 <= i < spec_extensions(t).len() && ci_eq(e, #[trigger] spec_extensions(t)[i]) {
        let i = choose|i: int|
            0 <= i < spec_extensions(t).len() && ci_eq(e, #[trigger] spec_extensions(t)[i]);
        let p = spec_extensions(t)[i];
        assert(crate::text::all_lower("zip"@));
        assert(crate::text::all_lower("tar"@));
        assert(crate::text::all_lower("tar.gz"@));
        assert(crate::text::all_lower("tgz"@));
        assert(crate::text::all_lower("tar.bz2"@));
        assert(crate::text::all_lower("tbz2"@));
        assert(crate::text::all_lower("tb2"@));
        assert(crate::text::all_lower("tar.xz"@));
        assert(crate::text::all_lower("txz"@));
        assert(crate::text::all_lower("gz"@));
        assert(crate::text::all_lower("gzip"@));
        assert(crate::text::all_lower("bz2"@));
        assert(crate::text::all_lower("bzip2"@));
        assert(crate::text::all_lower("xz"@));
        match t {
            ArchiveType::Zip => {
                assert(p == "zip"@);
            },
            ArchiveType::Tar => {
                assert(p == "tar"@);
            },
            ArchiveType::TarGz => {
                assert(p == "tar.gz"@ || p == "tgz"@);
            },
            ArchiveType::TarBz2 => {
                assert(p == "tar.bz2"@ || p == "tbz2"@ || p == "tb2"@);
            },
            ArchiveType::TarXz => {
                assert(p == "tar.xz"@ || p == "txz"@);
            },
            ArchiveType::Gz => {
                assert(p == "gz"@ || p == "gzip"@);
            },
            ArchiveType::Bz2 => {
                assert(p == "bz2"@ || p == "bzip2"@);
            },
            ArchiveType::Xz => {
                assert(p == "xz"@);
            },
        }
        assert(crate::text::all_lower(p));
        assert(ci_eq(e, "zip"@) ==> "zip"@ == p) by {
            if ci_eq(e, "zip"@) {
                crate::text::lemma_ci_eq_unique(e, "zip"@, p);
            }
        }
        assert(ci_eq(e, "tar"@) ==> "tar"@ == p) by {
            if ci_eq(e, "tar"@) {
                crate::text::lemma_ci_eq_unique(e, "tar"@, p);
            }
        }
        assert(ci_eq(e, "tar.gz"@) ==> "tar.gz"@ == p) by {
            if ci_eq(e, "tar.gz"@) {
                crate::text::lemma_ci_eq_unique(e, "tar.gz"@, p);
            }
        }
        assert(ci_eq(e, "tgz"@) ==> "tgz"@ == p) by {
            if ci_eq(e, "tgz"@) {
                crate::text::lemma_ci_eq_unique(e, "tgz"@, p);
            }
        }
        assert(ci_eq(e, "tar.bz2"@) ==> "tar.bz2"@ == p) by {
            if ci_eq(e, "tar.bz2"@) {
                crate::text::lemma_ci_eq_unique(e, "tar.bz2"@, p);
            }
        }
        assert(ci_eq(e, "tbz2"@) ==> "tbz2"@ == p) by {
            if ci_eq(e, "tbz2"@) {
                crate::text::lemma_ci_eq_unique(e, "tbz2"@, p);
            }
        }
        assert(ci_eq(e, "tb2"@) ==> "tb2"@ == p) by {
            if ci_eq(e, "tb2"@) {
                crate::text::lemma_ci_eq_unique(e, "tb2"@, p);
            }
        }
        assert(ci_eq(e, "tar.xz"@) ==> "tar.xz"@ == p) by {
            if ci_eq(e, "tar.xz"@) {
                crate::text::lemma_ci_eq_unique(e, "tar.xz"@, p);
            }
        }
        assert(ci_eq(e, "txz"@) ==> "txz"@ == p) by {
            if ci_eq(e, "txz"@) {
                crate::text::lemma_ci_eq_unique(e, "txz"@, p);
            }
        }
        assert(ci_eq(e, "gz"@) ==> "gz"@ == p) by {
            if ci_eq(e, "gz"@) {
                crate::text::lemma_ci_eq_unique(e, "gz"@, p);
            }
        }
        assert(ci_eq(e, "gzip"@) ==> "gzip"@ == p) by {
            if ci_eq(e, "gzip"@) {
                crate::text::lemma_ci_eq_unique(e, "gzip"@, p);
            }
        }
        assert(ci_eq(e, "bz2"@) ==> "bz2"@ == p) by {
            if ci_eq(e, "bz2"@) {
                crate::text::lemma_ci_eq_unique(e, "bz2"@, p);
            }
        }
        assert(ci_eq(e, "bzip2"@) ==> "bzip2"@ == p) by {
            if ci_eq(e, "bzip2"@) {
                crate::text::lemma_ci_eq_unique(e, "bzip2"@, p);
            }
        }
        assert(ci_eq(e, "xz"@) ==> "xz"@ == p) by {
            if ci_eq(e, "xz"@) {
                crate::text::lemma_ci_eq_unique(e, "xz"@, p);
            }
        }
        assert("gz"@ != "xz"@) by {
            assert("gz"@[0] == 'g' && "xz"@[0] == 'x');
        }
        assert("zip"@ != "tar"@ && "zip"@ != "tgz"@ && "zip"@ != "txz"@ && "zip"@ != "tb2"@
            && "zip"@ != "bz2"@) by {
            assert("zip"@[0] == 'z' && "tar"@[0] == 't' && "tgz"@[0] == 't' && "txz"@[0] == 't'
                && "tb2"@[0] == 't' && "bz2"@[0] == 'b');
        }
        assert("tar"@ != "tgz"@ && "tar"@ != "txz"@ && "tar"@ != "tb2"@ && "tar"@ != "bz2"@) by {
            assert("tar"@[1] == 'a' && "tgz"@[1] == 'g' && "txz"@[1] == 'x' && "tb2"@[1] == 'b');
            assert("tar"@[0] == 't' && "bz2"@[0] == 'b');
        }
        assert("tgz"@ != "txz"@ && "tgz"@ != "tb2"@ && "tgz"@ != "bz2"@) by {
            assert("tgz"@[1] == 'g' && "txz"@[1] == 'x' && "tb2"@[1] == 'b');
            assert("tgz"@[0] == 't' && "bz2"@[0] == 'b');
        }
        assert("txz"@ != "tb2"@ && "txz"@ != "bz2"@) by {
            assert("txz"@[1] == 'x' && "tb2"@[1] == 'b');
            assert("txz"@[0] == 't' && "bz2"@[0] == 'b');
        }
        assert("tb2"@ != "bz2"@) by {
            assert("tb2"@[0] == 't' && "bz2"@[0] == 'b');
        }
        assert("tbz2"@ != "gzip"@) by {
            assert("tbz2"@[0] == 't' && "gzip"@[0] == 'g');
        }
        assert("tar.gz"@ != "tar.xz"@) by {
            assert("tar.gz"@[4] == 'g' && "tar.xz"@[4] == 'x');
        }
        assert(spec_tag_for_extension(e) == Some(t));
    }
}

/// The display name of each tag.
pub open spec fn spec_display_name(t: ArchiveType) -> Seq<char> {
    match t {
        ArchiveType::Zip => "ZIP"@,
        ArchiveType::Tar => "TAR"@,
        ArchiveType::TarGz => "TAR.GZ"@,
        ArchiveType::TarBz2 => "TAR.BZ2"@,
        ArchiveType::TarXz => "TAR.XZ"@,
        ArchiveType::Gz => "GZIP"@,
        ArchiveType::Bz2 => "BZIP2"@,
        ArchiveType::Xz => "XZ"@,
    }
}

} // verus!
