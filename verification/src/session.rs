//! The live view of an extracted archive: the tag, the original path, the
//! temporary directory root, and the sorted, deduplicated list of extracted
//! file paths, with the query and mutation operations over that list.

use vstd::prelude::*;

use crate::archive_type::{spec_extension_of, ArchiveType};
use crate::error::Error;
use crate::text::{
    chars_lt, ci_eq, ci_str_eq, lemma_chars_lt_connected, lemma_chars_lt_trans, str_lt,
};

verus! {

/// True when every element of `out` is an element of `files` on which the
/// predicate returned true.
pub open spec fn chosen_from<F: Fn(&String) -> bool>(
    files: Seq<String>,
    out: Seq<String>,
    predicate: F,
) -> bool {
    forall|j: int|
        #![trigger out[j]]
        0 <= j < out.len() ==> exists|k: int|
            0 <= k < files.len() && out[j] == files[k] && call_ensures(
                predicate,
                (&files[k],),
                true,
            )
}

/// A file list is sorted and free of duplicates: strictly increasing in the
/// lexicographic order.
pub open spec fn sorted_unique(s: Seq<String>) -> bool {
    forall|i: int, j: int| 0 <= i < j < s.len() ==> chars_lt(s[i]@, s[j]@)
}

/// True when some element of `s` reads `x`.
pub open spec fn has_str(s: Seq<String>, x: Seq<char>) -> bool {
    exists|i: int| 0 <= i < s.len() && s[i]@ == x
}

/// A string found in a prefix of a list is found in the list.
pub proof fn lemma_has_str_extend(prefix: Seq<String>, s: Seq<String>, y: Seq<char>)
    requires
        has_str(prefix, y),
        prefix.len() <= s.len(),
        forall|i: int| 0 <= i < prefix.len() ==> s[i] == prefix[i],
    ensures
        has_str(s, y),
{
    let m = choose|m: int| 0 <= m < prefix.len() && prefix[m]@ == y;
    assert(s[m]@ == y);
}

/// A base path joined to a relative path with `/`.
pub open spec fn spec_join(base: Seq<char>, rel: Seq<char>) -> Seq<char> {
    base + "/"@ + rel
}

/// Joins a base path and a relative path with `/`.
pub fn join_path(base: &str, rel: &str) -> (r: String)
    ensures
        r@ == spec_join(base@, rel@),
{
    let mut s: String = String::from_str(base);
    s.append("/");
    s.append(rel);
    s
}

/// Compares two strings for character-for-character equality.
pub fn str_eq(a: &str, b: &str) -> (r: bool)
    ensures
        r == (a@ == b@),
{
    let alen: usize = a.unicode_len();
    let blen: usize = b.unicode_len();
    if alen != blen {
        return false;
    }
    let mut i: usize = 0;
    while i < alen
        invariant
            i <= alen,
            alen == a@.len(),
            alen == b@.len(),
            forall|j: int| 0 <= j < i ==> a@[j] == b@[j],
        decreases alen - i,
    {
        if a.get_char(i) != b.get_char(i) {
            return false;
        }
        i = i + 1;
    }
    proof {
        assert(a@ =~= b@);
    }
    true
}

/// What remains of `p` after `base`: empty when they are equal, the part
/// after the separator when `p` lies under `base`, nothing otherwise.
pub open spec fn spec_strip_prefix(p: Seq<char>, base: Seq<char>) -> Option<Seq<char>> {
    if p == base {
        Some(Seq::empty())
    } else if p.len() > base.len() && p.take(base.len() as int) == base && p[base.len() as int]
        == '/' {
        Some(p.skip(base.len() as int + 1))
    } else {
        None
    }
}

/// Strips `base` (and the separator after it) from the front of `p`.
pub fn strip_prefix_exec<'a>(p: &'a str, base: &str) -> (r: Option<&'a str>)
    ensures
        match r {
            Some(s) => spec_strip_prefix(p@, base@) == Some(s@),
            None => spec_strip_prefix(p@, base@) is None,
        },
{
    let plen: usize = p.unicode_len();
    let blen: usize = base.unicode_len();
    if plen < blen {
        return None;
    }
    let mut i: usize = 0;
    while i < blen
        invariant
            i <= blen,
            blen <= plen,
            plen == p@.len(),
            blen == base@.len(),
            forall|j: int| 0 <= j < i ==> p@[j] == base@[j],
        decreases blen - i,
    {
        if p.get_char(i) != base.get_char(i) {
            proof {
                assert(p@ != base@);
                assert(p@.take(blen as int)[i as int] == p@[i as int]);
            }
            return None;
        }
        i = i + 1;
    }
    if plen == blen {
        proof {
            assert(p@ =~= base@);
        }
        let empty: &str = p.substring_char(plen, plen);
        proof {
            assert(empty@ =~= Seq::<char>::empty());
        }
        return Some(empty);
    }
    proof {
        assert(p@.take(blen as int) =~= base@);
        assert(p@ != base@) by {
            assert(p@.len() != base@.len());
        }
    }
    if p.get_char(blen) == '/' {
        let rest: &str = p.substring_char(blen + 1, plen);
        proof {
            assert(rest@ =~= p@.skip(blen + 1));
        }
        Some(rest)
    } else {
        None
    }
}

/// Inserts `x` into a sorted, duplicate-free list, keeping it so; a string
/// already present is not inserted again.
pub fn insert_unique(v: &mut Vec<String>, x: String)
    requires
        sorted_unique(old(v)@),
    ensures
        sorted_unique(final(v)@),
        forall|y: Seq<char>| #[trigger] has_str(final(v)@, y) <==> has_str(old(v)@, y) || y == x@,
{
    let ghost orig = v@;
    let mut i: usize = 0;
    while i < v.len() && str_lt(v[i].as_str(), x.as_str())
        invariant
            i <= v@.len(),
            v@ == orig,
            sorted_unique(v@),
            forall|j: int| 0 <= j < i ==> chars_lt(v@[j]@, x@),
        decreases v@.len() - i,
    {
        i = i + 1;
    }
    if i < v.len() && v[i].eq(&x) {
        proof {
            assert(v@[i as int]@ == x@);
            assert(has_str(v@, x@));
            assert forall|y: Seq<char>| #[trigger] has_str(v@, y) <==> has_str(orig, y) || y
                == x@ by {
                if y == x@ {
                    assert(has_str(v@, y));
                }
            }
        }
        return ;
    }
    proof {
        if i < v@.len() {
            lemma_chars_lt_connected(v@[i as int]@, x@);
        }
    }
    let ghost mid = i as int;
    v.insert(i, x);
    proof {
        assert(v@ == orig.insert(mid, x));
        assert(v@.len() == orig.len() + 1);
        assert(forall|j: int| 0 <= j < mid ==> v@[j] == orig[j]);
        assert(v@[mid] == x);
        assert(forall|j: int| mid < j < v@.len() ==> v@[j] == orig[j - 1]);
        assert forall|a: int, b: int| 0 <= a < b < v@.len() implies chars_lt(v@[a]@, v@[b]@) by {
            if b < mid {
            } else if a < mid && b == mid {
            } else if a < mid && b > mid {
                if b - 1 == a {
                } else {
                    assert(chars_lt(orig[a]@, x@));
                    if mid < orig.len() {
                    }
                    assert(chars_lt(orig[a]@, orig[b - 1]@));
                }
            } else if a == mid {
                assert(chars_lt(x@, orig[mid]@));
                if b - 1 > mid {
                    lemma_chars_lt_trans(x@, orig[mid]@, orig[b - 1]@);
                }
            } else {
            }
        }
        assert forall|y: Seq<char>| #[trigger] has_str(v@, y) implies has_str(orig, y) || y
            == x@ by {
            let k = choose|k: int| 0 <= k < v@.len() && v@[k]@ == y;
            if k < mid {
                assert(orig[k]@ == y);
            } else if k > mid {
                assert(orig[k - 1]@ == y);
            }
        }
        assert forall|y: Seq<char>| has_str(orig, y) || y == x@ implies #[trigger] has_str(
            v@,
            y,
        ) by {
            if y == x@ {
                assert(v@[mid]@ == y);
            } else {
                let k = choose|k: int| 0 <= k < orig.len() && orig[k]@ == y;
                if k < mid {
                    assert(v@[k]@ == y);
                } else {
                    assert(v@[k + 1]@ == y);
                }
            }
        }
    }
}

/// Sorts a path list and removes duplicates: the result is sorted, free of
/// duplicates, and holds exactly the strings of the input.
pub fn normalize_paths(list: Vec<String>) -> (r: Vec<String>)
    ensures
        sorted_unique(r@),
        forall|y: Seq<char>| #[trigger] has_str(r@, y) <==> has_str(list@, y),
{
    let mut out: Vec<String> = Vec::new();
    let mut idx: usize = 0;
    while idx < list.len()
        invariant
            idx <= list@.len(),
            sorted_unique(out@),
            forall|y: Seq<char>| #[trigger] has_str(out@, y) <==> has_str(
                list@.take(idx as int),
                y,
            ),
        decreases list@.len() - idx,
    {
        let ghost before = out@;
        insert_unique(&mut out, list[idx].clone());
        proof {
            let t1 = list@.take(idx as int);
            let t2 = list@.take(idx + 1);
            assert(t2.len() == idx + 1 && t2[idx as int] == list@[idx as int]);
            assert(forall|j: int| 0 <= j < idx ==> t2[j] == t1[j]);
            assert forall|y: Seq<char>| #[trigger] has_str(out@, y) implies has_str(t2, y) by {
                if has_str(before, y) {
                    let k = choose|k: int| 0 <= k < t1.len() && t1[k]@ == y;
                    assert(t2[k]@ == y);
                } else {
                    assert(t2[idx as int]@ == y);
                }
            }
            assert forall|y: Seq<char>| has_str(t2, y) implies #[trigger] has_str(out@, y) by {
                let k = choose|k: int| 0 <= k < t2.len() && t2[k]@ == y;
                if k < idx {
                    assert(t1[k]@ == y);
                    assert(has_str(before, y));
                }
            }
        }
        idx = idx + 1;
    }
    proof {
        assert(list@.take(list@.len() as int) =~= list@);
    }
    out
}

/// Handler for unpacked archive contents: owns the temporary-directory path
/// and the sorted, duplicate-free list of extracted file paths, and answers
/// queries and records mutations over that list.
#[derive(Debug)]
pub struct ArchiveHandler {
    /// Type of the original archive.
    pub archive_type: ArchiveType,
    /// Original archive file path, when the archive was loaded from a file.
    pub original_path: Option<String>,
    /// Path of the directory holding the extracted files.
    pub temp_path: String,
    /// The extracted files, sorted and without duplicates.
    pub files: Vec<String>,
}

impl ArchiveHandler {
    /// The session's file-list invariant.
    pub open spec fn wf(&self) -> bool {
        sorted_unique(self.files@)
    }

    /// Creates a handler over a directory and a list of file paths; the list
    /// is sorted and deduplicated.
    pub fn new(
        archive_type: ArchiveType,
        original_path: Option<String>,
        temp_path: String,
        files: Vec<String>,
    ) -> (r: ArchiveHandler)
        ensures
            r.wf(),
            r.archive_type == archive_type,
            r.original_path == original_path,
            r.temp_path@ == temp_path@,
            forall|y: Seq<char>| #[trigger] has_str(r.files@, y) <==> has_str(files@, y),
    {
        let files = normalize_paths(files);
        ArchiveHandler { archive_type, original_path, temp_path, files }
    }

    /// The path of the temporary directory holding the extracted files.
    pub fn temp_path(&self) -> (r: &String)
        ensures
            r == &self.temp_path,
    {
        &self.temp_path
    }

    /// The number of files in the archive.
    pub fn file_count(&self) -> (r: usize)
        ensures
            r == self.files@.len(),
    {
        self.files.len()
    }

    /// True when the archive holds no files.
    pub fn is_empty(&self) -> (r: bool)
        ensures
            r == (self.files@.len() == 0),
    {
        self.files.len() == 0
    }

    /// The tracked file paths, in sorted order.
    pub fn file_paths(&self) -> (r: &Vec<String>)
        ensures
            r == &self.files,
    {
        &self.files
    }

    /// Consumes the session's list, yielding the paths in sorted order.
    pub fn into_files(self) -> (r: Vec<String>)
        ensures
            r == self.files,
    {
        self.files
    }

    /// The tracked files whose extension equals `extension` up to ASCII
    /// case.
    pub fn find_files_by_extension(&self, extension: &str) -> (r: Vec<String>)
        ensures
            r@.len() == filter_by_ext(self.files@, extension@).len(),
            forall|i: int| 0 <= i < r@.len() ==> r@[i]@ == filter_by_ext(
                self.files@,
                extension@,
            )[i]@,
    {
        let mut out: Vec<String> = Vec::new();
        let mut i: usize = 0;
        while i < self.files.len()
            invariant
                i <= self.files@.len(),
                out@.len() == filter_by_ext(self.files@.take(i as int), extension@).len(),
                forall|j: int| 0 <= j < out@.len() ==> out@[j]@ == filter_by_ext(
                    self.files@.take(i as int),
                    extension@,
                )[j]@,
            decreases self.files@.len() - i,
        {
            let ghost t1 = self.files@.take(i as int);
            let ghost t2 = self.files@.take(i + 1);
            proof {
                assert(t2.drop_last() =~= t1);
                assert(t2.last() == self.files@[i as int]);
            }
            let matched: bool = match crate::archive_type::ArchiveType::extension_of_path(
                self.files[i].as_str(),
            ) {
                Some(e) => ci_str_eq(e, extension),
                None => false,
            };
            if matched {
                out.push(self.files[i].clone());
            }
            i = i + 1;
        }
        proof {
            assert(self.files@.take(self.files@.len() as int) =~= self.files@);
        }
        out
    }

    /// The tracked files the predicate accepts, in list order. Every
    /// returned path is a tracked path on which the predicate returned
    /// true, and a tracked path is left out only when the predicate
    /// returned false on it.
    pub fn find_files<F: Fn(&String) -> bool>(&self, predicate: F) -> (r: Vec<String>)
        requires
            forall|p: &String| #[trigger] call_requires(predicate, (p,)),
        ensures
            r@.len() <= self.files@.len(),
            chosen_from(self.files@, r@, predicate),
            forall|i: int|
                0 <= i < self.files@.len() ==> has_str(r@, #[trigger] self.files@[i]@)
                    || call_ensures(predicate, (&self.files@[i],), false),
    {
        let mut out: Vec<String> = Vec::new();
        let mut i: usize = 0;
        while i < self.files.len()
            invariant
                i <= self.files@.len(),
                out@.len() <= i,
                forall|p: &String| #[trigger] call_requires(predicate, (p,)),
                chosen_from(self.files@, out@, predicate),
                forall|k: int|
                    0 <= k < i ==> has_str(out@, #[trigger] self.files@[k]@) || call_ensures(
                        predicate,
                        (&self.files@[k],),
                        false,
                    ),
            decreases self.files@.len() - i,
        {
            let ghost before = out@;
            let accepted: bool = predicate(&self.files[i]);
            if accepted {
                out.push(self.files[i].clone());
                proof {
                    assert(out@.last() == self.files@[i as int]);
                    assert forall|j: int|
                        #![trigger out@[j]]
                        0 <= j < out@.len() implies exists|k: int|
                            0 <= k < self.files@.len() && out@[j] == self.files@[k]
                                && call_ensures(predicate, (&self.files@[k],), true) by {
                        if j < before.len() {
                            assert(out@[j] == before[j]);
                        } else {
                            assert(out@[j] == self.files@[i as int] && call_ensures(
                                predicate,
                                (&self.files@[i as int],),
                                true,
                            ));
                        }
                    }
                    assert(has_str(out@, self.files@[i as int]@)) by {
                        assert(out@.last()@ == self.files@[i as int]@);
                    }
                }
            }
            proof {
                assert forall|k: int|
                    0 <= k < i + 1 implies has_str(out@, #[trigger] self.files@[k]@)
                    || call_ensures(predicate, (&self.files@[k],), false) by {
                    if k < i {
                        if has_str(before, self.files@[k]@) {
                            lemma_has_str_extend(before, out@, self.files@[k]@);
                        }
                    } else {
                        if accepted {
                            assert(has_str(out@, self.files@[k]@));
                        } else {
                            assert(call_ensures(predicate, (&self.files@[k],), false));
                        }
                    }
                }
            }
            i = i + 1;
        }
        out
    }

    /// Replaces the tracked list with a fresh directory scan, sorted and
    /// deduplicated. Scanning the same unchanged tree twice yields the same
    /// list both times ([`lemma_sorted_unique_canonical`]).
    pub fn refresh_file_list(&mut self, scanned: Vec<String>)
        ensures
            final(self).wf(),
            final(self).archive_type == old(self).archive_type,
            final(self).original_path == old(self).original_path,
            final(self).temp_path == old(self).temp_path,
            forall|y: Seq<char>| #[trigger] has_str(final(self).files@, y) <==> has_str(
                scanned@,
                y,
            ),
    {
        self.files = normalize_paths(scanned);
    }

    /// The tracked paths with the temporary-directory prefix stripped; fails
    /// with an `Other` error when some tracked path does not lie under the
    /// temporary directory.
    pub fn relative_file_paths(&self) -> (r: Result<Vec<String>, Error>)
        ensures
            match r {
                Ok(v) => {
                    &&& v@.len() == self.files@.len()
                    &&& forall|i: int| 0 <= i < v@.len() ==> spec_strip_prefix(
                        self.files@[i]@,
                        self.temp_path@,
                    ) == Some(v@[i]@)
                },
                Err(e) => {
                    &&& (exists|i: int|
                        0 <= i < self.files@.len() && spec_strip_prefix(
                            self.files@[i]@,
                            self.temp_path@,
                        ) is None)
                    &&& e matches Error::Other { message } && message@ == "Invalid file path"@
                },
            },
    {
        let mut out: Vec<String> = Vec::new();
        let mut i: usize = 0;
        while i < self.files.len()
            invariant
                i <= self.files@.len(),
                out@.len() == i,
                forall|j: int| 0 <= j < i ==> spec_strip_prefix(self.files@[j]@, self.temp_path@)
                    == Some(out@[j]@),
            decreases self.files@.len() - i,
        {
            match strip_prefix_exec(self.files[i].as_str(), self.temp_path.as_str()) {
                Some(rel) => {
                    out.push(String::from_str(rel));
                },
                None => {
                    return Err(Error::other(String::from_str("Invalid file path")));
                },
            }
            i = i + 1;
        }
        Ok(out)
    }

    /// True when the file at `relative_path` under the temporary directory
    /// is tracked.
    pub fn contains_file(&self, relative_path: &str) -> (r: bool)
        ensures
            r == has_str(self.files@, spec_join(self.temp_path@, relative_path@)),
    {
        let target: String = join_path(self.temp_path.as_str(), relative_path);
        self.position_of(&target).is_some()
    }

    /// The absolute path to read for `relative_path`: the joined path when
    /// it is tracked, and an `EntryNotFound` error naming that path when it
    /// is not.
    pub fn read_file_path(&self, relative_path: &str) -> (r: Result<String, Error>)
        ensures
            ({
                let joined = spec_join(self.temp_path@, relative_path@);
                match r {
                    Ok(p) => has_str(self.files@, joined) && p@ == joined,
                    Err(e) => !has_str(self.files@, joined) && (e matches Error::EntryNotFound {
                        name,
                    } && name@ == joined),
                }
            }),
    {
        let target: String = join_path(self.temp_path.as_str(), relative_path);
        match self.position_of(&target) {
            Some(_) => Ok(target),
            None => Err(Error::entry_not_found(target)),
        }
    }

    /// Records a file written at `relative_path` under the temporary
    /// directory: the joined path is inserted into the tracked list, which
    /// stays sorted and duplicate-free. Returns the joined path.
    pub fn record_file(&mut self, relative_path: &str) -> (r: String)
        requires
            old(self).wf(),
        ensures
            final(self).wf(),
            r@ == spec_join(old(self).temp_path@, relative_path@),
            final(self).archive_type == old(self).archive_type,
            final(self).original_path == old(self).original_path,
            final(self).temp_path == old(self).temp_path,
            forall|y: Seq<char>| #[trigger] has_str(final(self).files@, y) <==> has_str(
                old(self).files@,
                y,
            ) || y == spec_join(old(self).temp_path@, relative_path@),
    {
        let target: String = join_path(self.temp_path.as_str(), relative_path);
        let copy: String = target.clone();
        insert_unique(&mut self.files, copy);
        target
    }

    /// The position of `x` in the tracked list, when present.
    fn position_of(&self, x: &String) -> (r: Option<usize>)
        ensures
            match r {
                Some(i) => i < self.files@.len() && self.files@[i as int]@ == x@,
                None => !has_str(self.files@, x@),
            },
    {
        let mut i: usize = 0;
        while i < self.files.len()
            invariant
                i <= self.files@.len(),
                forall|j: int| 0 <= j < i ==> self.files@[j]@ != x@,
            decreases self.files@.len() - i,
        {
            if self.files[i].eq(x) {
                return Some(i);
            }
            i = i + 1;
        }
        None
    }
}

/// The tracked paths whose final component carries the given extension, up
/// to ASCII case, in list order.
pub open spec fn filter_by_ext(s: Seq<String>, ext: Seq<char>) -> Seq<String>
    decreases s.len(),
{
    if s.len() == 0 {
        Seq::empty()
    } else {
        filter_by_ext(s.drop_last(), ext) + (if ext_matches(s.last()@, ext) {
            seq![s.last()]
        } else {
            Seq::empty()
        })
    }
}

/// True when the path's final component has an extension equal to `ext` up
/// to ASCII case.
pub open spec fn ext_matches(p: Seq<char>, ext: Seq<char>) -> bool {
    match spec_extension_of(p) {
        Some(e) => ci_eq(e, ext),
        None => false,
    }
}

/// Re-scanning an unchanged tree is idempotent: two sessions whose lists
/// were refreshed from scans holding the same paths carry the same sorted
/// list, path for path. Refreshing twice without intervening filesystem
/// changes therefore yields the same list both times.
pub proof fn lemma_refresh_idempotent(a: ArchiveHandler, b: ArchiveHandler, scan: Seq<String>)
    requires
        a.wf(),
        b.wf(),
        forall|y: Seq<char>| #[trigger] has_str(a.files@, y) <==> has_str(scan, y),
        forall|y: Seq<char>| #[trigger] has_str(b.files@, y) <==> has_str(scan, y),
    ensures
        a.files@.len() == b.files@.len(),
        forall|i: int| 0 <= i < a.files@.len() ==> a.files@[i]@ == b.files@[i]@,
{
    assert(forall|y: Seq<char>| has_str(a.files@, y) <==> has_str(b.files@, y));
    lemma_sorted_unique_canonical(a.files@, b.files@);
}

/// Two sorted, duplicate-free lists that hold the same strings are the same
/// list. This is why a session's file list is a canonical form: re-scanning
/// the same tree twice yields the same list both times.
pub proof fn lemma_sorted_unique_canonical(a: Seq<String>, b: Seq<String>)
    requires
        sorted_unique(a),
        sorted_unique(b),
        forall|y: Seq<char>| has_str(a, y) <==> has_str(b, y),
    ensures
        a.len() == b.len(),
        forall|i: int| 0 <= i < a.len() ==> a[i]@ == b[i]@,
    decreases a.len(),
{
    if a.len() == 0 {
        if b.len() > 0 {
            assert(b[0]@ == b[0]@);
            assert(has_str(b, b[0]@));
            assert(has_str(a, b[0]@));
        }
    } else if b.len() == 0 {
        assert(a[0]@ == a[0]@);
        assert(has_str(a, a[0]@));
        assert(has_str(b, a[0]@));
    } else {
        assert(has_str(a, a[0]@)) by {
            assert(a[0]@ == a[0]@);
        }
        assert(has_str(b, b[0]@)) by {
            assert(b[0]@ == b[0]@);
        }
        let ka = choose|k: int| 0 <= k < b.len() && b[k]@ == a[0]@;
        let kb = choose|k: int| 0 <= k < a.len() && a[k]@ == b[0]@;
        lemma_chars_lt_connected(a[0]@, b[0]@);
        if chars_lt(a[0]@, b[0]@) {
            if kb > 0 {
                assert(chars_lt(a[0]@, a[kb]@));
                lemma_chars_lt_connected(a[0]@, a[kb]@);
            }
            assert(chars_lt(b[ka]@, b[ka]@)) by {
                if ka > 0 {
                    assert(chars_lt(b[0]@, b[ka]@));
                    lemma_chars_lt_trans(b[ka]@, b[0]@, b[ka]@);
                } else {
                    assert(b[0]@ == a[0]@);
                }
            }
            crate::text::lemma_chars_lt_irrefl(b[ka]@);
        } else if chars_lt(b[0]@, a[0]@) {
            if ka > 0 {
                assert(chars_lt(b[0]@, b[ka]@));
                lemma_chars_lt_connected(b[0]@, b[ka]@);
            }
            assert(chars_lt(a[kb]@, a[kb]@)) by {
                if kb > 0 {
                    assert(chars_lt(a[0]@, a[kb]@));
                    lemma_chars_lt_trans(a[kb]@, a[0]@, a[kb]@);
                } else {
                    assert(a[0]@ == b[0]@);
                }
            }
            crate::text::lemma_chars_lt_irrefl(a[kb]@);
        }
        assert(a[0]@ == b[0]@);
        let ta = a.drop_first();
        let tb = b.drop_first();
        assert forall|y: Seq<char>| has_str(ta, y) implies has_str(tb, y) by {
            let k = choose|k: int| 0 <= k < ta.len() && ta[k]@ == y;
            assert(a[k + 1]@ == y);
            assert(has_str(a, y));
            let m = choose|m: int| 0 <= m < b.len() && b[m]@ == y;
            if m == 0 {
                assert(chars_lt(a[0]@, a[k + 1]@));
                crate::text::lemma_chars_lt_irrefl(a[0]@);
            } else {
                assert(tb[m - 1]@ == y);
            }
        }
        assert forall|y: Seq<char>| has_str(tb, y) implies has_str(ta, y) by {
            let k = choose|k: int| 0 <= k < tb.len() && tb[k]@ == y;
            assert(b[k + 1]@ == y);
            assert(has_str(b, y));
            let m = choose|m: int| 0 <= m < a.len() && a[m]@ == y;
            if m == 0 {
                assert(chars_lt(b[0]@, b[k + 1]@));
                crate::text::lemma_chars_lt_irrefl(b[0]@);
            } else {
                assert(ta[m - 1]@ == y);
            }
        }
        assert(sorted_unique(ta)) by {
            assert(forall|i: int, j: int|
                0 <= i < j < ta.len() ==> ta[i]@ == a[i + 1]@ && ta[j]@ == a[j + 1]@);
        }
        assert(sorted_unique(tb)) by {
            assert(forall|i: int, j: int|
                0 <= i < j < tb.len() ==> tb[i]@ == b[i + 1]@ && tb[j]@ == b[j + 1]@);
        }
        lemma_sorted_unique_canonical(ta, tb);
        assert forall|i: int| 0 <= i < a.len() implies a[i]@ == b[i]@ by {
            if i > 0 {
                assert(ta[i - 1]@ == tb[i - 1]@);
                assert(a[i]@ == ta[i - 1]@);
                assert(b[i]@ == tb[i - 1]@);
            }
        }
    }
}

} // verus!
