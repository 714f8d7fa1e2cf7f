use vault_backup::error::BackupError;
use vault_backup::pipeline::{Action, BackupRun, Stage};

#[test]
fn successful_run_deletes_workspace_once_after_archive() {
    let (mut run, first) = BackupRun::new("/backups", "07-03-2024_09-05", false);
    assert_eq!(first, Action::CreateWorkspace("/backups/07-03-2024_09-05/".to_string()));
    assert_eq!(run.advance(Ok(())), Action::RunDump);
    assert_eq!(run.advance(Ok(())), Action::StageFiles);
    assert_eq!(
        run.advance(Ok(())),
        Action::BuildArchive("/backups/07-03-2024_09-05.tar.gz".to_string(), false)
    );
    assert_eq!(run.advance(Ok(())), Action::DeleteWorkspace("/backups/07-03-2024_09-05/".to_string()));
    assert_eq!(run.advance(Ok(())), Action::Finish(None));
    assert_eq!(run.stage, Stage::Done);
    assert_eq!(run.advance(Ok(())), Action::Idle);
}

#[test]
fn encrypted_run_builds_zip() {
    let (mut run, _) = BackupRun::new("/backups/", "r", true);
    run.advance(Ok(()));
    run.advance(Ok(()));
    assert_eq!(run.advance(Ok(())), Action::BuildArchive("/backups/r.zip".to_string(), true));
}

#[test]
fn staging_failure_aborts_and_keeps_workspace() {
    let (mut run, _) = BackupRun::new("/backups", "r", false);
    run.advance(Ok(()));
    run.advance(Ok(()));
    let err = BackupError::Io("disk full".to_string());
    assert_eq!(run.advance(Err(BackupError::Io("disk full".to_string()))), Action::Abort(err));
    assert_eq!(run.stage, Stage::Failed);
    assert_eq!(run.advance(Ok(())), Action::Idle);
}

#[test]
fn archive_failure_aborts_without_delete() {
    let (mut run, _) = BackupRun::new("/backups", "r", true);
    run.advance(Ok(()));
    run.advance(Ok(()));
    run.advance(Ok(()));
    let a = run.advance(Err(BackupError::Archive("write failed".to_string())));
    assert_eq!(a, Action::Abort(BackupError::Archive("write failed".to_string())));
    assert_eq!(run.stage, Stage::Failed);
}

#[test]
fn dump_failure_aborts() {
    let (mut run, _) = BackupRun::new("/backups", "r", false);
    run.advance(Ok(()));
    assert_eq!(run.advance(Err(BackupError::UnsupportedDatabase)), Action::Abort(BackupError::UnsupportedDatabase));
}

#[test]
fn failed_workspace_removal_only_warns() {
    let (mut run, _) = BackupRun::new("/backups", "r", false);
    for _ in 0..4 {
        run.advance(Ok(()));
    }
    let a = run.advance(Err(BackupError::Io("busy".to_string())));
    assert_eq!(a, Action::Finish(Some(BackupError::Io("busy".to_string()))));
    assert_eq!(run.stage, Stage::Done);
}
