use vstd::prelude::*;
use vstd::string::*;

use crate::error::BackupError;
use crate::staging::EntryKind;

verus! {

/// Permission bits of every archived entry: read and execute for all, write for
/// the owner, no special bits; the archive is a portable artifact, not a snapshot
/// of the source permissions.
pub const ENTRY_PERMISSIONS: u32 = 0o755;

/// An entry met while walking the workspace, the workspace root included.
pub struct WalkEntry {
    pub path: String,
    pub is_file: bool,
}

/// An entry to be written into the encrypted zip, named relative to the workspace.
pub struct ZipEntry {
    pub name: String,
    pub source_path: String,
    pub kind: EntryKind,
}

/// The part of `path` after `root`, when `root` is a prefix of it.
pub open spec fn spec_relative(path: Seq<char>, root: Seq<char>) -> Seq<char> {
    path.subrange(root.len() as int, path.len() as int)
}

/// Every walked path lies under `root`.
pub open spec fn all_under(walk: Seq<WalkEntry>, root: Seq<char>) -> bool {
    forall|i: int| 0 <= i < walk.len() ==> root.is_prefix_of(#[trigger] walk[i].path@)
}

/// The zip entry of one walked entry: files always, directories only when their
/// relative name is not empty (the workspace root is not recorded).
pub open spec fn spec_zip_entry(e: WalkEntry, root: Seq<char>) -> Seq<(Seq<char>, Seq<char>, EntryKind)> {
    let name = spec_relative(e.path@, root);
    if e.is_file {
        seq![(name, e.path@, EntryKind::File)]
    } else if name.len() > 0 {
        seq![(name, e.path@, EntryKind::Directory)]
    } else {
        Seq::empty()
    }
}

/// The zip entries of a walk, in walk order.
pub open spec fn spec_zip_entries(walk: Seq<WalkEntry>, root: Seq<char>) -> Seq<(Seq<char>, Seq<char>, EntryKind)>
    decreases walk.len(),
{
    if walk.len() == 0 {
        Seq::empty()
    } else {
        spec_zip_entries(walk.drop_last(), root) + spec_zip_entry(walk.last(), root)
    }
}

/// The views of a list of zip entries.
pub open spec fn zip_views(v: Seq<ZipEntry>) -> Seq<(Seq<char>, Seq<char>, EntryKind)> {
    v.map_values(|z: ZipEntry| (z.name@, z.source_path@, z.kind))
}

/// The name of `path` relative to `root`, or `None` when `root` is no prefix of it.
pub fn relative_name(path: &str, root: &str) -> (r: Option<String>)
    ensures
        r is Some <==> root@.is_prefix_of(path@),
        r matches Some(s) ==> s@ == spec_relative(path@, root@),
{
    let n = path.unicode_len();
    let m = root.unicode_len();
    if m > n {
        return None;
    }
    let mut i: usize = 0;
    while i < m
        invariant
            n == path@.len(),
            m == root@.len(),
            m <= n,
            i <= m,
            forall|t: int| 0 <= t < i ==> root@[t] == path@[t],
        decreases m - i,
    {
        if path.get_char(i) != root.get_char(i) {
            return None;
        }
        i = i + 1;
    }
    Some(String::from_str(path.substring_char(m, n)))
}

/// The entries of the encrypted zip for a walk of the workspace `root`, in walk
/// order: a file entry per file, a directory entry per directory other than the
/// root. Fails when a walked path does not lie under `root`.
pub fn zip_entries(walk: &Vec<WalkEntry>, root: &str) -> (r: Result<Vec<ZipEntry>, BackupError>)
    ensures
        r is Ok <==> all_under(walk@, root@),
        r matches Ok(v) ==> zip_views(v@) == spec_zip_entries(walk@, root@),
        r matches Err(e) ==> e is Archive,
{
    let mut out: Vec<ZipEntry> = Vec::new();
    let mut i: usize = 0;
    while i < walk.len()
        invariant
            i <= walk@.len(),
            all_under(walk@.subrange(0, i as int), root@),
            zip_views(out@) == spec_zip_entries(walk@.subrange(0, i as int), root@),
        decreases walk@.len() - i,
    {
        let e = &walk[i];
        let ghost prefix = walk@.subrange(0, i + 1);
        assert(prefix.drop_last() =~= walk@.subrange(0, i as int));
        assert(prefix.last() == *e);
        match relative_name(e.path.as_str(), root) {
            None => {
                assert(!all_under(walk@, root@)) by {
                    assert(walk@[i as int] == *e);
                }
                return Err(BackupError::Archive(String::from_str("an entry lies outside the workspace")));
            },
            Some(name) => {
                if e.is_file {
                    out.push(ZipEntry { name, source_path: e.path.clone(), kind: EntryKind::File });
                    assert(zip_views(out@) =~= spec_zip_entries(prefix, root@));
                } else if name.unicode_len() > 0 {
                    out.push(ZipEntry { name, source_path: e.path.clone(), kind: EntryKind::Directory });
                    assert(zip_views(out@) =~= spec_zip_entries(prefix, root@));
                } else {
                    assert(zip_views(out@) =~= spec_zip_entries(prefix, root@));
                }
                assert(all_under(prefix, root@)) by {
                    assert forall|k: int| 0 <= k < prefix.len() implies root@.is_prefix_of(
                        #[trigger] prefix[k].path@,
                    ) by {
                        if k < i {
                            assert(prefix[k] == walk@.subrange(0, i as int)[k]);
                        }
                    }
                }
            },
        }
        i = i + 1;
    }
    assert(walk@.subrange(0, walk@.len() as int) =~= walk@);
    Ok(out)
}

} // verus!
