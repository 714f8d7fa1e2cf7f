use vstd::prelude::*;
use vstd::string::*;

use crate::run_id::{lemma_run_identifier_injective, lemma_run_identifier_shape, spec_run_identifier, Timestamp};
use crate::text::{strip_trailing_slashes, trim_end_slashes};

verus! {

/// The workspace of a run: `destination/run/`, with one separator between the two.
pub open spec fn spec_temp_dir_path(destination: Seq<char>, run: Seq<char>) -> Seq<char> {
    if destination.len() > 0 && destination.last() == '/' {
        destination + run + "/"@
    } else {
        destination + "/"@ + run + "/"@
    }
}

/// The artifact made from a workspace: the workspace path without trailing
/// separators, with `.zip` when encrypted and `.tar.gz` otherwise.
pub open spec fn spec_artifact_path(workspace: Seq<char>, encrypted: bool) -> Seq<char> {
    strip_trailing_slashes(workspace) + if encrypted {
        ".zip"@
    } else {
        ".tar.gz"@
    }
}

/// The path of the workspace of run `run` under `destination`.
pub fn temp_dir_path(destination: &str, run: &str) -> (r: String)
    ensures
        r@ == spec_temp_dir_path(destination@, run@),
{
    let n = destination.unicode_len();
    let mut r = String::from_str(destination);
    if !(n > 0 && destination.get_char(n - 1) == '/') {
        r.append("/");
    }
    r.append(run);
    r.append("/");
    r
}

/// The path of the artifact made from `workspace`.
pub fn artifact_path(workspace: &str, encrypted: bool) -> (r: String)
    ensures
        r@ == spec_artifact_path(workspace@, encrypted),
{
    let mut r = trim_end_slashes(workspace);
    if encrypted {
        r.append(".zip");
    } else {
        r.append(".tar.gz");
    }
    r
}

proof fn lemma_strip_one_slash(s: Seq<char>)
    requires
        s.len() > 0,
        s.last() != '/',
    ensures
        strip_trailing_slashes(s + "/"@) == s,
{
    reveal_strlit("/");
    let t = s + "/"@;
    assert(t.last() == '/');
    assert(t.drop_last() =~= s);
    assert(strip_trailing_slashes(t) == strip_trailing_slashes(s));
    assert(strip_trailing_slashes(s) == s);
}

/// The workspace path holds the run identifier right after the destination and its separator.
proof fn lemma_temp_dir_suffix(destination: Seq<char>, run: Seq<char>)
    ensures
        ({
            let w = spec_temp_dir_path(destination, run);
            let k = w.len() - run.len() - 1;
            &&& w.subrange(k, w.len() - 1) == run
            &&& w.last() == '/'
            &&& w.drop_last().subrange(k, w.len() - 1) == run
            &&& w.drop_last() == w.subrange(0, k) + run
        }),
{
    reveal_strlit("/");
    let w = spec_temp_dir_path(destination, run);
    let k = w.len() - run.len() - 1;
    assert(w.subrange(k, w.len() - 1) =~= run);
    assert(w.drop_last().subrange(k, w.len() - 1) =~= run);
    assert(w.drop_last() =~= w.subrange(0, k) + run);
}

/// Two runs with different start times under one destination never share a
/// workspace, nor an artifact path of either kind.
pub proof fn lemma_distinct_runs_do_not_collide(
    destination: Seq<char>,
    t1: Timestamp,
    t2: Timestamp,
    encrypted1: bool,
    encrypted2: bool,
)
    requires
        t1.wf(),
        t2.wf(),
        t1 != t2,
    ensures
        spec_temp_dir_path(destination, spec_run_identifier(t1)) != spec_temp_dir_path(
            destination,
            spec_run_identifier(t2),
        ),
        spec_artifact_path(spec_temp_dir_path(destination, spec_run_identifier(t1)), encrypted1)
            != spec_artifact_path(
            spec_temp_dir_path(destination, spec_run_identifier(t2)),
            encrypted2,
        ),
{
    let r1 = spec_run_identifier(t1);
    let r2 = spec_run_identifier(t2);
    lemma_run_identifier_shape(t1);
    lemma_run_identifier_shape(t2);
    let w1 = spec_temp_dir_path(destination, r1);
    let w2 = spec_temp_dir_path(destination, r2);
    lemma_temp_dir_suffix(destination, r1);
    lemma_temp_dir_suffix(destination, r2);
    if r1 == r2 {
        lemma_run_identifier_injective(t1, t2);
    }
    assert(w1.len() == w2.len());
    if w1 == w2 {
        assert(r1 =~= r2);
        lemma_run_identifier_injective(t1, t2);
    }
    let head1 = w1.drop_last();
    let head2 = w2.drop_last();
    assert(w1 =~= head1 + "/"@) by { reveal_strlit("/"); }
    assert(w2 =~= head2 + "/"@) by { reveal_strlit("/"); }
    lemma_strip_one_slash(head1);
    lemma_strip_one_slash(head2);
    reveal_strlit(".zip");
    reveal_strlit(".tar.gz");
    let a1 = spec_artifact_path(w1, encrypted1);
    let a2 = spec_artifact_path(w2, encrypted2);
    if a1 == a2 {
        let k = w1.len() - 17;
        if encrypted1 == encrypted2 {
            assert(a1.subrange(k, k + 16) =~= r1);
            assert(a2.subrange(k, k + 16) =~= r2);
            lemma_run_identifier_injective(t1, t2);
        } else {
            // The two suffixes end in different characters.
            assert(a1.last() != a2.last());
        }
    }
}

} // verus!
