use vstd::prelude::*;
use vstd::string::*;

use crate::error::BackupError;
use crate::workspace::{artifact_path, spec_artifact_path, spec_temp_dir_path, temp_dir_path};

verus! {

/// Where a run stands: the stage it waits on, or how it ended.
#[derive(Debug, Clone, Copy, PartialEq, Eq)]
pub enum Stage {
    CreateWorkspace,
    Dump,
    StageFiles,
    Archive,
    DeleteWorkspace,
    Done,
    Failed,
}

/// What the caller performs next, and then reports back with its outcome.
#[derive(Debug, PartialEq, Eq)]
pub enum Action {
    /// Create the workspace directory, which must not exist yet.
    CreateWorkspace(String),
    /// Dump the database into the workspace.
    RunDump,
    /// Copy the filtered data directory into the workspace.
    StageFiles,
    /// Pack the workspace into the artifact at this path (a zip when encrypted).
    BuildArchive(String, bool),
    /// Remove the workspace directory; the artifact exists.
    DeleteWorkspace(String),
    /// The run succeeded; a failed workspace removal comes as a warning.
    Finish(Option<BackupError>),
    /// The run failed with this error; the workspace is left as it is.
    Abort(BackupError),
    /// The run is over; nothing is left to do.
    Idle,
}

/// The stage that follows `s` once its work succeeded (`ok`) or failed.
pub open spec fn spec_next(s: Stage, ok: bool) -> Stage {
    match s {
        Stage::CreateWorkspace => if ok { Stage::Dump } else { Stage::Failed },
        Stage::Dump => if ok { Stage::StageFiles } else { Stage::Failed },
        Stage::StageFiles => if ok { Stage::Archive } else { Stage::Failed },
        Stage::Archive => if ok { Stage::DeleteWorkspace } else { Stage::Failed },
        Stage::DeleteWorkspace => Stage::Done,
        Stage::Done => Stage::Done,
        Stage::Failed => Stage::Failed,
    }
}

/// The stage of a run after the outcomes `outs` were reported, in order.
pub open spec fn stage_after(outs: Seq<bool>) -> Stage
    decreases outs.len(),
{
    if outs.len() == 0 {
        Stage::CreateWorkspace
    } else {
        spec_next(stage_after(outs.drop_last()), outs.last())
    }
}

/// How many times the run asked for the workspace to be deleted.
pub open spec fn deletions(outs: Seq<bool>) -> nat
    decreases outs.len(),
{
    if outs.len() == 0 {
        0
    } else {
        deletions(outs.drop_last()) + if stage_after(outs.drop_last()) == Stage::Archive
            && outs.last() {
            1nat
        } else {
            0nat
        }
    }
}

/// Workspace creation, dump, staging and archiving all succeeded.
pub open spec fn archived(outs: Seq<bool>) -> bool {
    outs.len() >= 4 && outs[0] && outs[1] && outs[2] && outs[3]
}

/// The run has produced its artifact.
pub open spec fn past_archive(s: Stage) -> bool {
    s == Stage::DeleteWorkspace || s == Stage::Done
}

/// The number of stages that succeeded before a run reached `s`.
pub open spec fn progress(s: Stage) -> int {
    match s {
        Stage::CreateWorkspace => 0,
        Stage::Dump => 1,
        Stage::StageFiles => 2,
        _ => 3,
    }
}

proof fn lemma_trace(outs: Seq<bool>)
    ensures
        ({
            let s = stage_after(outs);
            &&& (s != Stage::Failed && !past_archive(s)) ==> (outs.len() == progress(s) && forall|
                j: int,
            | 0 <= j < outs.len() ==> #[trigger] outs[j])
            &&& ((forall|j: int| 0 <= j < outs.len() ==> #[trigger] outs[j]) && outs.len() <= 3)
                ==> (s != Stage::Failed && !past_archive(s))
            &&& past_archive(s) <==> archived(outs)
            &&& deletions(outs) == if past_archive(s) {
                1nat
            } else {
                0nat
            }
        }),
    decreases outs.len(),
{
    if outs.len() > 0 {
        let prev = outs.drop_last();
        lemma_trace(prev);
        assert forall|j: int| 0 <= j < prev.len() implies prev[j] == outs[j] by {}
        if outs.len() >= 5 {
            assert(archived(outs) == archived(prev));
        }
    }
}

/// A run asks for its workspace to be deleted at most once, and does so exactly
/// when the archive was built; a run that finishes successfully has asked for it.
pub proof fn lemma_delete_once_after_archive(outs: Seq<bool>)
    ensures
        deletions(outs) <= 1,
        deletions(outs) == 1 <==> archived(outs),
        stage_after(outs) == Stage::Done ==> deletions(outs) == 1,
{
    lemma_trace(outs);
}

/// A run whose staging or archiving failed never asks for its workspace to be
/// deleted, and never reports success: the workspace stays for inspection.
pub proof fn lemma_failure_preserves_workspace(outs: Seq<bool>, failed_at: int)
    requires
        2 <= failed_at <= 3,
        failed_at < outs.len(),
        !outs[failed_at],
    ensures
        deletions(outs) == 0,
        stage_after(outs) != Stage::Done,
{
    lemma_trace(outs);
}

/// A backup run in progress: its stage, workspace and artifact.
pub struct BackupRun {
    pub stage: Stage,
    pub workspace: String,
    pub artifact: String,
    pub encrypted: bool,
}

impl BackupRun {
    /// Starts a run under `destination` named `run`; the first action creates its workspace.
    pub fn new(destination: &str, run: &str, encrypted: bool) -> (r: (BackupRun, Action))
        ensures
            r.0.stage == Stage::CreateWorkspace,
            r.0.workspace@ == spec_temp_dir_path(destination@, run@),
            r.0.artifact@ == spec_artifact_path(r.0.workspace@, encrypted),
            r.0.encrypted == encrypted,
            r.1 == Action::CreateWorkspace(r.0.workspace),
    {
        let workspace = temp_dir_path(destination, run);
        let artifact = artifact_path(workspace.as_str(), encrypted);
        let action = Action::CreateWorkspace(workspace.clone());
        (BackupRun { stage: Stage::CreateWorkspace, workspace, artifact, encrypted }, action)
    }

    /// The action that follows the outcome of the current stage.
    pub open spec fn spec_action(self, outcome: Result<(), BackupError>) -> Action {
        match (self.stage, outcome) {
            (Stage::Done, _) => Action::Idle,
            (Stage::Failed, _) => Action::Idle,
            (Stage::DeleteWorkspace, Ok(())) => Action::Finish(None),
            (Stage::DeleteWorkspace, Err(e)) => Action::Finish(Some(e)),
            (_, Err(e)) => Action::Abort(e),
            (Stage::CreateWorkspace, Ok(())) => Action::RunDump,
            (Stage::Dump, Ok(())) => Action::StageFiles,
            (Stage::StageFiles, Ok(())) => Action::BuildArchive(self.artifact, self.encrypted),
            (Stage::Archive, Ok(())) => Action::DeleteWorkspace(self.workspace),
        }
    }

    /// The only action that deletes the workspace follows a successful archive: it
    /// is what `deletions` counts, step by step.
    pub proof fn lemma_delete_action_only_after_archive(self, outcome: Result<(), BackupError>)
        ensures
            self.spec_action(outcome) is DeleteWorkspace <==> (self.stage == Stage::Archive
                && outcome is Ok),
            self.spec_action(outcome) is DeleteWorkspace ==> spec_next(self.stage, outcome is Ok)
                == Stage::DeleteWorkspace,
    {
    }

    /// Takes the outcome of the current stage, moves to the next stage and returns
    /// what to do there: a failure aborts the run, except that of the workspace
    /// removal, which only warns.
    pub fn advance(&mut self, outcome: Result<(), BackupError>) -> (r: Action)
        ensures
            final(self).stage == spec_next(old(self).stage, outcome is Ok),
            final(self).workspace == old(self).workspace,
            final(self).artifact == old(self).artifact,
            final(self).encrypted == old(self).encrypted,
            r == old(self).spec_action(outcome),
    {
        match self.stage {
            Stage::Done => Action::Idle,
            Stage::Failed => Action::Idle,
            Stage::DeleteWorkspace => {
                self.stage = Stage::Done;
                match outcome {
                    Ok(()) => Action::Finish(None),
                    Err(e) => Action::Finish(Some(e)),
                }
            },
            Stage::CreateWorkspace => match outcome {
                Ok(()) => {
                    self.stage = Stage::Dump;
                    Action::RunDump
                },
                Err(e) => {
                    self.stage = Stage::Failed;
                    Action::Abort(e)
                },
            },
            Stage::Dump => match outcome {
                Ok(()) => {
                    self.stage = Stage::StageFiles;
                    Action::StageFiles
                },
                Err(e) => {
                    self.stage = Stage::Failed;
                    Action::Abort(e)
                },
            },
            Stage::StageFiles => match outcome {
                Ok(()) => {
                    self.stage = Stage::Archive;
                    Action::BuildArchive(self.artifact.clone(), self.encrypted)
                },
                Err(e) => {
                    self.stage = Stage::Failed;
                    Action::Abort(e)
                },
            },
            Stage::Archive => match outcome {
                Ok(()) => {
                    self.stage = Stage::DeleteWorkspace;
                    Action::DeleteWorkspace(self.workspace.clone())
                },
                Err(e) => {
                    self.stage = Stage::Failed;
                    Action::Abort(e)
                },
            },
        }
    }
}

} // verus!
