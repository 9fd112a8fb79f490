//! Choosing documents out of a directory snapshot: exact-name lookup and the
//! batch-file filter with its numeric-suffix ordering.
//!
//! The directory itself is read by the surrounding binary; the library works
//! on the listing it is handed — pairs of file name and file contents — so
//! that everything decided here is verified.

use vstd::prelude::*;
use crate::error::{AppError, ErrModel};
use crate::strutil::{
    has_prefix, has_suffix, json_suffix, file_key_spec, str_eq_str, str_starts_with, str_ends_with,
    str_contains_char, file_sort_key,
};

verus! {

/// One file of the input directory: its bare name and its contents.
#[derive(Debug, PartialEq, Eq)]
pub struct FileEntry {
    pub name: String,
    pub contents: String,
}

impl FileEntry {
    /// An equal copy.
    pub fn duplicate(&self) -> (r: FileEntry)
        ensures
            r == *self,
    {
        FileEntry { name: self.name.clone(), contents: self.contents.clone() }
    }
}

/// Whether a file name is the wanted document: the target name itself, or
/// the target name with a `.json` ending.
pub open spec fn wanted_name(name: Seq<char>, target: Seq<char>) -> bool {
    name == target + json_suffix() || name == target
}

/// The contents of the first file whose name is the wanted document.
pub open spec fn find_file(files: Seq<FileEntry>, target: Seq<char>, i: int) -> Option<String>
    decreases files.len() - i,
{
    if i < 0 || i >= files.len() {
        None
    } else if wanted_name(files[i].name@, target) {
        Some(files[i].contents)
    } else {
        find_file(files, target, i + 1)
    }
}

/// Picks the document named `prefix` + `suffix` (with or without a `.json`
/// ending) out of the listing and hands its contents back.
///
/// Fails with `MissingFile`, naming the logical file, exactly when no entry
/// carries either name.
pub fn find_and_read_json_file(files: &Vec<FileEntry>, prefix: &str, suffix: &str) -> (r: Result<
    String,
    AppError,
>)
    ensures
        match r {
            Ok(s) => find_file(files@, prefix@ + suffix@, 0) == Some(s),
            Err(e) => find_file(files@, prefix@ + suffix@, 0) is None && (e@ matches
                ErrModel::MissingFile(m) && m == suffix@ + " file not found"@),
        },
{
    let target: String = String::from_str(prefix).concat(suffix);
    let target_json: String = target.clone().concat(".json");
    proof {
        reveal_strlit(".json");
        assert(".json"@ =~= json_suffix());
        assert(target_json@ == (prefix@ + suffix@) + json_suffix());
    }
    let mut i: usize = 0;
    while i < files.len()
        invariant
            i <= files@.len(),
            target@ == prefix@ + suffix@,
            target_json@ == (prefix@ + suffix@) + json_suffix(),
            find_file(files@, prefix@ + suffix@, 0) == find_file(
                files@,
                prefix@ + suffix@,
                i as int,
            ),
        decreases files@.len() - i,
    {
        let entry = &files[i];
        if str_eq_str(entry.name.as_str(), target_json.as_str()) || str_eq_str(
            entry.name.as_str(),
            target.as_str(),
        ) {
            return Ok(entry.contents.clone());
        }
        i = i + 1;
    }
    Err(AppError::MissingFile(suffix.to_owned().concat(" file not found")))
}

/// Whether a file name belongs to the batch with the given full prefix: it
/// starts with the prefix and either ends in `.json` or has no dot at all.
pub open spec fn batch_name_matches(name: Seq<char>, fileprefix: Seq<char>) -> bool {
    (has_prefix(name, fileprefix) && has_suffix(name, json_suffix())) || (has_prefix(
        name,
        fileprefix,
    ) && !name.contains('.'))
}

/// The batch entries of the listing, from position `i` on, in listing order.
pub open spec fn batch_entries(files: Seq<FileEntry>, fileprefix: Seq<char>, i: int) -> Seq<
    FileEntry,
>
    decreases files.len() - i,
{
    if i < 0 || i >= files.len() {
        Seq::empty()
    } else if batch_name_matches(files[i].name@, fileprefix) {
        seq![files[i]] + batch_entries(files, fileprefix, i + 1)
    } else {
        batch_entries(files, fileprefix, i + 1)
    }
}

/// The numeric suffix that orders a batch entry.
pub open spec fn entry_key(fe: FileEntry) -> u32 {
    file_key_spec(fe.name@)
}

/// `e` inserted into `s` after every entry with a key at most `e`'s: the
/// insertion step of a stable sort.
pub open spec fn insert_entry(s: Seq<FileEntry>, e: FileEntry) -> Seq<FileEntry>
    decreases s.len(),
{
    if s.len() == 0 {
        seq![e]
    } else if entry_key(s.last()) > entry_key(e) {
        insert_entry(s.drop_last(), e).push(s.last())
    } else {
        s.push(e)
    }
}

/// The batch entries sorted by key, entries of equal key keeping their
/// listing order: insertion sort, left to right.
pub open spec fn sort_entries(s: Seq<FileEntry>) -> Seq<FileEntry>
    decreases s.len(),
{
    if s.len() == 0 {
        s
    } else {
        insert_entry(sort_entries(s.drop_last()), s.last())
    }
}

/// The batch contents in ascending numeric-suffix order.
pub open spec fn batch_contents(files: Seq<FileEntry>, fileprefix: Seq<char>) -> Seq<String> {
    sort_entries(batch_entries(files, fileprefix, 0)).map_values(|fe: FileEntry| fe.contents)
}

proof fn lemma_insert_entry_at(s: Seq<FileEntry>, e: FileEntry, pos: int)
    requires
        0 <= pos <= s.len(),
        forall|idx: int| pos <= idx < s.len() ==> entry_key(#[trigger] s[idx]) > entry_key(e),
        pos > 0 ==> entry_key(s[pos - 1]) <= entry_key(e),
    ensures
        insert_entry(s, e) == s.insert(pos, e),
    decreases s.len(),
{
    if s.len() == 0 {
        assert(insert_entry(s, e) =~= s.insert(0, e));
    } else if entry_key(s.last()) > entry_key(e) {
        assert(pos < s.len());
        lemma_insert_entry_at(s.drop_last(), e, pos);
        assert(s.drop_last().insert(pos, e).push(s.last()) =~= s.insert(pos, e));
    } else {
        assert(pos == s.len());
        assert(s.push(e) =~= s.insert(pos, e));
    }
}

/// Collects the contents of every batch file named `prefix` + `suffix` +
/// a numeric tail, in ascending numeric order; files with equal or missing
/// numbers keep their listing order.
pub fn find_and_read_json_files(files: &Vec<FileEntry>, prefix: &str, suffix: &str) -> (r: Result<
    Vec<String>,
    AppError,
>)
    ensures
        r matches Ok(v) && v@ == batch_contents(files@, prefix@ + suffix@),
{
    let fileprefix: String = String::from_str(prefix).concat(suffix);
    let mut filtered: Vec<FileEntry> = Vec::new();
    let mut i: usize = 0;
    while i < files.len()
        invariant
            i <= files@.len(),
            fileprefix@ == prefix@ + suffix@,
            filtered@ + batch_entries(files@, fileprefix@, i as int) == batch_entries(
                files@,
                fileprefix@,
                0,
            ),
        decreases files@.len() - i,
    {
        let entry = &files[i];
        let is_match = if str_starts_with(entry.name.as_str(), fileprefix.as_str()) {
            if str_ends_with(entry.name.as_str(), ".json") {
                proof {
                    reveal_strlit(".json");
                    assert(".json"@ =~= json_suffix());
                }
                true
            } else {
                !str_contains_char(entry.name.as_str(), '.')
            }
        } else {
            false
        };
        proof {
            reveal_strlit(".json");
            assert(".json"@ =~= json_suffix());
            assert(is_match == batch_name_matches(files@[i as int].name@, fileprefix@));
        }
        if is_match {
            proof {
                assert((filtered@.push(files@[i as int])) + batch_entries(
                    files@,
                    fileprefix@,
                    i as int + 1,
                ) =~= filtered@ + (seq![files@[i as int]] + batch_entries(
                    files@,
                    fileprefix@,
                    i as int + 1,
                )));
            }
            filtered.push(entry.duplicate());
        }
        i = i + 1;
    }
    proof {
        assert(filtered@ + Seq::<FileEntry>::empty() =~= filtered@);
    }
    // Insertion sort, stable over the listing order.
    let mut sorted: Vec<FileEntry> = Vec::new();
    let mut k: usize = 0;
    while k < filtered.len()
        invariant
            k <= filtered@.len(),
            sorted@ == sort_entries(filtered@.take(k as int)),
        decreases filtered@.len() - k,
    {
        let e = filtered[k].duplicate();
        let key = file_sort_key(e.name.as_str());
        let mut pos: usize = sorted.len();
        while pos > 0 && file_sort_key(sorted[pos - 1].name.as_str()) > key
            invariant
                pos <= sorted@.len(),
                key == entry_key(e),
                forall|idx: int|
                    pos <= idx < sorted@.len() ==> entry_key(#[trigger] sorted@[idx]) > entry_key(
                        e,
                    ),
            decreases pos,
        {
            pos = pos - 1;
        }
        proof {
            lemma_insert_entry_at(sorted@, e, pos as int);
            assert(filtered@.take(k as int + 1).drop_last() =~= filtered@.take(k as int));
            assert(filtered@.take(k as int + 1).last() == filtered@[k as int]);
        }
        sorted.insert(pos, e);
        k = k + 1;
    }
    proof {
        assert(filtered@.take(filtered@.len() as int) =~= filtered@);
    }
    // Hand out the contents, in sorted order.
    let mut out: Vec<String> = Vec::new();
    let mut j: usize = 0;
    while j < sorted.len()
        invariant
            j <= sorted@.len(),
            out@.len() == j,
            forall|idx: int| 0 <= idx < j ==> out@[idx] == #[trigger] sorted@[idx].contents,
        decreases sorted@.len() - j,
    {
        out.push(sorted[j].contents.clone());
        j = j + 1;
    }
    proof {
        assert(out@ =~= sorted@.map_values(|fe: FileEntry| fe.contents));
    }
    Ok(out)
}

} // verus!
