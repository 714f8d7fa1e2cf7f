use vstd::prelude::*;
use vstd::string::*;

use crate::text::{contains, contains_str, trim_entry, trimmed};

verus! {

/// The marker of the live database file, excluded whatever the settings say:
/// the database reaches the backup through its dump, never as a raw copy.
pub open spec fn database_marker() -> Seq<char> {
    "sqlite3"@
}

/// Some needle is a literal substring of `filename`.
pub open spec fn contains_some(filename: Seq<char>, needles: Seq<Seq<char>>) -> bool {
    exists|i: int| 0 <= i < needles.len() && contains(filename, #[trigger] needles[i])
}

/// Some exclusion entry, trimmed of surrounding whitespace, is a literal substring
/// of `filename`, or the filename holds the database marker.
pub open spec fn spec_matches(filename: Seq<char>, exclusions: Seq<Seq<char>>) -> bool {
    contains(filename, database_marker()) || exists|i: int|
        0 <= i < exclusions.len() && contains(filename, trimmed(#[trigger] exclusions[i]))
}

/// The views of a list of strings.
pub open spec fn views(v: Seq<String>) -> Seq<Seq<char>> {
    v.map_values(|s: String| s@)
}

/// Whether some needle occurs literally in `filename`.
pub fn contains_any(filename: &str, needles: &Vec<String>) -> (r: bool)
    ensures
        r == contains_some(filename@, views(needles@)),
{
    let mut i: usize = 0;
    while i < needles.len()
        invariant
            i <= needles@.len(),
            forall|k: int| 0 <= k < i ==> !contains(filename@, #[trigger] needles@[k]@),
        decreases needles@.len() - i,
    {
        if contains_str(filename, needles[i].as_str()) {
            assert(views(needles@)[i as int] == needles@[i as int]@);
            return true;
        }
        i = i + 1;
    }
    proof {
        assert forall|k: int| 0 <= k < views(needles@).len() implies !contains(
            filename@,
            #[trigger] views(needles@)[k],
        ) by {
            assert(views(needles@)[k] == needles@[k]@);
        }
    }
    false
}

/// Whether a file of this name is left out of the backup: some exclusion entry,
/// trimmed, occurs literally in it (case-sensitive, no patterns), or it holds the
/// database marker.
pub fn matches(filename: &str, exclusions: &Vec<String>) -> (r: bool)
    ensures
        r == spec_matches(filename@, views(exclusions@)),
{
    if contains_str(filename, "sqlite3") {
        return true;
    }
    let mut i: usize = 0;
    while i < exclusions.len()
        invariant
            i <= exclusions@.len(),
            !contains(filename@, database_marker()),
            forall|k: int| 0 <= k < i ==> !contains(filename@, trimmed(#[trigger] exclusions@[k]@)),
        decreases exclusions@.len() - i,
    {
        let entry = trim_entry(exclusions[i].as_str());
        if contains_str(filename, entry) {
            assert(views(exclusions@)[i as int] == exclusions@[i as int]@);
            return true;
        }
        i = i + 1;
    }
    proof {
        assert forall|k: int| 0 <= k < views(exclusions@).len() implies !contains(
            filename@,
            trimmed(#[trigger] views(exclusions@)[k]),
        ) by {
            assert(views(exclusions@)[k] == exclusions@[k]@);
        }
    }
    false
}

/// A filename holding the database marker is excluded whatever the exclusions are,
/// and an exclusion entry that occurs trimmed in a filename excludes it.
pub proof fn lemma_marker_always_excluded(filename: Seq<char>, exclusions: Seq<Seq<char>>, i: int)
    ensures
        contains(filename, database_marker()) ==> spec_matches(filename, exclusions),
        0 <= i < exclusions.len() && contains(filename, trimmed(exclusions[i])) ==> spec_matches(
            filename,
            exclusions,
        ),
{
}

} // verus!
