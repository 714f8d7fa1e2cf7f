use vstd::prelude::*;
use vstd::string::*;

use crate::exclusion::{spec_matches, views};

verus! {

/// Whether a walked entry is a regular file or a directory.
#[derive(Debug, Clone, Copy, PartialEq, Eq)]
pub enum EntryKind {
    File,
    Directory,
}

/// An entry found under the data directory.
pub struct SourceEntry {
    /// The path relative to the data directory.
    pub relative_path: String,
    /// The absolute path of the entry.
    pub source_path: String,
    /// The last component of the path.
    pub file_name: String,
    pub kind: EntryKind,
}

/// An entry to be copied into the workspace, under its relative path.
pub struct StagedEntry {
    pub relative_path: String,
    pub source_path: String,
    pub kind: EntryKind,
}

/// What staging copies, in walk order, and which files it leaves out.
pub struct StagePlan {
    pub staged: Vec<StagedEntry>,
    /// The source paths of the excluded files, one diagnostic each.
    pub skipped: Vec<String>,
}

/// A file whose name matches an exclusion; directories are never matched.
pub open spec fn is_skipped(e: SourceEntry, exclusions: Seq<Seq<char>>) -> bool {
    e.kind == EntryKind::File && spec_matches(e.file_name@, exclusions)
}

pub open spec fn to_staged(e: SourceEntry) -> StagedEntry {
    StagedEntry { relative_path: e.relative_path, source_path: e.source_path, kind: e.kind }
}

/// The entries that staging copies, in the order of `entries`.
pub open spec fn spec_staged(entries: Seq<SourceEntry>, exclusions: Seq<Seq<char>>) -> Seq<StagedEntry>
    decreases entries.len(),
{
    if entries.len() == 0 {
        Seq::empty()
    } else {
        let rest = spec_staged(entries.drop_last(), exclusions);
        if is_skipped(entries.last(), exclusions) {
            rest
        } else {
            rest.push(to_staged(entries.last()))
        }
    }
}

/// The source paths of the files that staging leaves out, in the order of `entries`.
pub open spec fn spec_skipped(entries: Seq<SourceEntry>, exclusions: Seq<Seq<char>>) -> Seq<Seq<char>>
    decreases entries.len(),
{
    if entries.len() == 0 {
        Seq::empty()
    } else {
        let rest = spec_skipped(entries.drop_last(), exclusions);
        if is_skipped(entries.last(), exclusions) {
            rest.push(entries.last().source_path@)
        } else {
            rest
        }
    }
}

/// Decides, for each walked entry of the data directory, whether it is copied into
/// the workspace: a file is left out when its name matches the exclusions (or holds
/// the database marker); a directory is always kept.
pub fn stage(entries: &Vec<SourceEntry>, exclusions: &Vec<String>) -> (r: StagePlan)
    ensures
        r.staged@ == spec_staged(entries@, views(exclusions@)),
        views(r.skipped@) == spec_skipped(entries@, views(exclusions@)),
{
    let ghost ex = views(exclusions@);
    let mut staged: Vec<StagedEntry> = Vec::new();
    let mut skipped: Vec<String> = Vec::new();
    let mut i: usize = 0;
    while i < entries.len()
        invariant
            i <= entries@.len(),
            ex == views(exclusions@),
            staged@ == spec_staged(entries@.subrange(0, i as int), ex),
            views(skipped@) == spec_skipped(entries@.subrange(0, i as int), ex),
        decreases entries@.len() - i,
    {
        let e = &entries[i];
        let ghost prefix = entries@.subrange(0, i + 1);
        assert(prefix.drop_last() =~= entries@.subrange(0, i as int));
        assert(prefix.last() == *e);
        let is_file = match e.kind {
            EntryKind::File => true,
            EntryKind::Directory => false,
        };
        if is_file && crate::exclusion::matches(e.file_name.as_str(), exclusions) {
            skipped.push(e.source_path.clone());
            assert(views(skipped@) =~= spec_skipped(prefix, ex));
        } else {
            staged.push(
                StagedEntry {
                    relative_path: e.relative_path.clone(),
                    source_path: e.source_path.clone(),
                    kind: e.kind,
                },
            );
        }
        i = i + 1;
    }
    assert(entries@.subrange(0, entries@.len() as int) =~= entries@);
    StagePlan { staged, skipped }
}

/// The diagnostic line that names a file left out of the backup.
pub fn skipped_message(path: &str) -> (r: String)
    ensures
        r@ == "The backup process has excluded the following files: "@ + path@,
{
    let mut r = String::from_str("The backup process has excluded the following files: ");
    r.append(path);
    r
}

} // verus!
