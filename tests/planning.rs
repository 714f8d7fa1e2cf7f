use vault_backup::archive::{relative_name, zip_entries, WalkEntry};
use vault_backup::config::{Config, Database};
use vault_backup::database::{check_dump_source, database_backup, dump_result, find_dump_util};
use vault_backup::error::BackupError;
use vault_backup::run_id::{dump_datetime, run_identifier, Timestamp};
use vault_backup::staging::{skipped_message, stage, EntryKind, SourceEntry};
use vault_backup::workspace::{artifact_path, temp_dir_path};

fn strings(v: &[&str]) -> Vec<String> {
    v.iter().map(|s| s.to_string()).collect()
}

fn database(db_type: &str, user: Option<&str>, password: Option<&str>, port: Option<i64>) -> Database {
    Database {
        db_type: db_type.to_string(),
        username: user.map(|s| s.to_string()),
        password: password.map(|s| s.to_string()),
        db_name: Some("vault".to_string()),
        host: Some("db.local".to_string()),
        port,
    }
}

fn config(db: Database) -> Config {
    Config {
        vaultwarden_data: "/srv/vw/".to_string(),
        backup_location: "/backups".to_string(),
        db,
        encrypt: false,
        encrypt_key: String::new(),
        exclude_files: Vec::new(),
    }
}

fn entry(name: &str, kind: EntryKind) -> SourceEntry {
    SourceEntry {
        relative_path: name.to_string(),
        source_path: format!("/srv/vw/{}", name),
        file_name: name.rsplit('/').next().unwrap().to_string(),
        kind,
    }
}

fn stamp(year: u32, month: u32, day: u32, hour: u32, minute: u32) -> Timestamp {
    Timestamp { year, month, day, hour, minute }
}

#[test]
fn run_identifier_is_day_month_year_hour_minute() {
    assert_eq!(run_identifier(stamp(2024, 3, 7, 9, 5)), "07-03-2024_09-05");
    assert_eq!(run_identifier(stamp(987, 12, 31, 23, 59)), "31-12-0987_23-59");
}

#[test]
fn dump_datetime_is_year_month_day_hour_minute() {
    assert_eq!(dump_datetime(stamp(2024, 3, 7, 9, 5)), "2024-03-07-09:05");
    assert_eq!(dump_datetime(stamp(2023, 11, 20, 14, 30)), "2023-11-20-14:30");
}

#[test]
fn workspace_path_has_one_separator() {
    assert_eq!(temp_dir_path("/backups", "07-03-2024_09-05"), "/backups/07-03-2024_09-05/");
    assert_eq!(temp_dir_path("/backups/", "07-03-2024_09-05"), "/backups/07-03-2024_09-05/");
    assert_eq!(temp_dir_path("", "r"), "/r/");
}

#[test]
fn artifact_path_by_mode() {
    assert_eq!(artifact_path("/backups/07-03-2024_09-05/", false), "/backups/07-03-2024_09-05.tar.gz");
    assert_eq!(artifact_path("/backups/07-03-2024_09-05//", true), "/backups/07-03-2024_09-05.zip");
    assert_eq!(artifact_path("/backups/run", true), "/backups/run.zip");
}

#[test]
fn distinct_runs_get_distinct_workspaces_and_artifacts() {
    let a = temp_dir_path("/backups", &run_identifier(stamp(2024, 3, 7, 9, 5)));
    let b = temp_dir_path("/backups", &run_identifier(stamp(2024, 3, 7, 9, 6)));
    assert_ne!(a, b);
    assert_ne!(artifact_path(&a, false), artifact_path(&b, false));
    assert_ne!(artifact_path(&a, true), artifact_path(&b, true));
}

#[test]
fn postgresql_connection_with_credentials() {
    let c = config(database("postgresql", Some("user"), Some("pw"), None));
    assert_eq!(c.validate(), Ok(()));
    assert_eq!(c.db_connection_string(), "postgresql://user:pw@db.local:5432/vault");
}

#[test]
fn postgresql_connection_without_credentials_and_custom_port() {
    let c = config(database("postgresql", Some("user"), None, Some(6543)));
    assert_eq!(c.db_connection_string(), "postgresql://db.local:6543/vault");
    let c = config(database("postgresql", None, None, Some(-1)));
    assert_eq!(c.db_connection_string(), "postgresql://db.local:-1/vault");
}

#[test]
fn mariadb_connection_options() {
    let c = config(database("mysql", Some("u"), Some("p"), None));
    assert_eq!(c.db_connection_string(), "--user=u --password=p --host=db.local --port=3306 vault");
    let c = config(database("mariadb", None, Some("p"), Some(3307)));
    assert_eq!(c.db_connection_string(), "--host=db.local --port=3307 vault");
}

#[test]
fn sqlite_and_unknown_connection() {
    let c = config(database("sqlite", None, None, None));
    assert_eq!(c.db_connection_string(), "/srv/vw/");
    let c = config(database("oracle", None, None, None));
    assert_eq!(c.db_connection_string(), "");
    assert_eq!(c.get_db_type(), "oracle");
}

#[test]
fn validation_reports_missing_fields() {
    let mut db = database("postgresql", None, None, None);
    db.host = None;
    assert_eq!(config(db).validate(), Err(BackupError::MissingHost));
    let mut db = database("mysql", None, None, None);
    db.db_name = None;
    assert_eq!(config(db).validate(), Err(BackupError::MissingDbName));
    let mut db = database("sqlite", None, None, None);
    db.host = None;
    db.db_name = None;
    assert_eq!(config(db).validate(), Ok(()));
}

#[test]
fn backup_location_requires_directory() {
    let c = config(database("sqlite", None, None, None));
    assert_eq!(c.get_backup_location(true), Ok(&"/backups".to_string()));
    assert_eq!(c.get_backup_location(false), Err(BackupError::BackupFolderMissing));
    assert_eq!(BackupError::BackupFolderMissing.message(), "Backup folder does not exist");
}

#[test]
fn settings_getters() {
    let mut c = config(database("sqlite", None, None, None));
    c.encrypt = true;
    c.encrypt_key = "secret".to_string();
    c.exclude_files = strings(&["log", "tmp"]);
    assert!(c.get_encrypt_status());
    assert_eq!(c.get_encrypt_key(), "secret");
    assert_eq!(c.get_exclude_files(), strings(&["log", "tmp"]));
}

#[test]
fn dump_utilities_by_engine() {
    assert_eq!(find_dump_util("postgresql"), Some("pg_dump".to_string()));
    assert_eq!(find_dump_util("mysql"), Some("mysqldump".to_string()));
    assert_eq!(find_dump_util("mariadb"), Some("mysqldump".to_string()));
    assert_eq!(find_dump_util("sqlite"), Some("sqlite3".to_string()));
    assert_eq!(find_dump_util("Sqlite"), None);
}

#[test]
fn unsupported_database_and_missing_utility() {
    assert_eq!(database_backup("oracle", "", "/b/", "dt", true).err(), Some(BackupError::UnsupportedDatabase));
    let e = database_backup("postgresql", "x", "/b/", "dt", false).err().unwrap();
    assert_eq!(e, BackupError::DumpUtilityMissing("pg_dump".to_string()));
    assert_eq!(e.message(), "pg_dump utility is not installed or not added to the environment variable");
}

#[test]
fn postgresql_dump_command() {
    let c = database_backup("postgresql", "postgresql://db.local:5432/vault", "/b/ws/", "2024-03-07-09:05", true)
        .unwrap();
    assert_eq!(c.program, "pg_dump");
    assert_eq!(
        c.args,
        strings(&[
            "--dbname=postgresql://db.local:5432/vault",
            "--format=custom",
            "--file=/b/ws/2024-03-07-09:05-db.dump"
        ])
    );
    assert_eq!(c.output_path, "/b/ws/2024-03-07-09:05-db.dump");
    assert_eq!(c.required_file, None);
    assert_eq!(check_dump_source(&c, false), Ok(()));
}

#[test]
fn mariadb_dump_command_splits_words() {
    let c = database_backup("mariadb", "--host=h  --port=3306\tvw", "/b/ws/", "dt", true).unwrap();
    assert_eq!(c.program, "mysqldump");
    assert_eq!(c.args, strings(&["--host=h", "--port=3306", "vw", "--result-file=/b/ws/dt-db.sql"]));
    assert_eq!(c.output_path, "/b/ws/dt-db.sql");
}

#[test]
fn sqlite_dump_command_needs_live_file() {
    let c = database_backup("sqlite", "/srv/vw/", "/b/ws/", "dt", true).unwrap();
    assert_eq!(c.program, "sqlite3");
    assert_eq!(c.args, strings(&["/srv/vw/db.sqlite3", ".backup /b/ws/dt-db.sqlite3"]));
    assert_eq!(c.required_file, Some("/srv/vw/db.sqlite3".to_string()));
    assert_eq!(check_dump_source(&c, false), Err(BackupError::DatabaseFileNotFound));
    assert_eq!(check_dump_source(&c, true), Ok(()));
}

#[test]
fn dump_verdict() {
    assert_eq!(dump_result(true, String::new()), Ok(()));
    let e = dump_result(false, "denied".to_string()).unwrap_err();
    assert_eq!(e, BackupError::DumpFailed("denied".to_string()));
    assert_eq!(e.message(), "Database backup not created. denied");
}

#[test]
fn staging_skips_excluded_files_only() {
    let entries = vec![
        entry("data.sqlite3", EntryKind::File),
        entry("app.log", EntryKind::File),
        entry("notes.txt", EntryKind::File),
    ];
    let plan = stage(&entries, &strings(&["log", "sqlite3"]));
    assert_eq!(plan.staged.len(), 1);
    assert_eq!(plan.staged[0].relative_path, "notes.txt");
    assert_eq!(plan.staged[0].source_path, "/srv/vw/notes.txt");
    assert_eq!(plan.staged[0].kind, EntryKind::File);
    assert_eq!(plan.skipped, strings(&["/srv/vw/data.sqlite3", "/srv/vw/app.log"]));
    assert_eq!(
        skipped_message(&plan.skipped[1]),
        "The backup process has excluded the following files: /srv/vw/app.log"
    );
}

#[test]
fn staging_keeps_directories_and_always_drops_database() {
    let entries = vec![
        entry("logs", EntryKind::Directory),
        entry("logs/today.log", EntryKind::File),
        entry("db.sqlite3-wal", EntryKind::File),
        entry("attachments/a.bin", EntryKind::File),
    ];
    let plan = stage(&entries, &Vec::new());
    let kept: Vec<&str> = plan.staged.iter().map(|e| e.relative_path.as_str()).collect();
    assert_eq!(kept, vec!["logs", "logs/today.log", "attachments/a.bin"]);
    let plan = stage(&entries, &strings(&[" log "]));
    let kept: Vec<&str> = plan.staged.iter().map(|e| e.relative_path.as_str()).collect();
    assert_eq!(kept, vec!["logs", "attachments/a.bin"]);
    assert_eq!(plan.skipped.len(), 2);
}

#[test]
fn zip_entries_of_workspace() {
    let walk = vec![
        WalkEntry { path: "/b/ws/".to_string(), is_file: false },
        WalkEntry { path: "/b/ws/a.txt".to_string(), is_file: true },
        WalkEntry { path: "/b/ws/sub".to_string(), is_file: false },
        WalkEntry { path: "/b/ws/sub/b.txt".to_string(), is_file: true },
    ];
    let entries = zip_entries(&walk, "/b/ws/").unwrap();
    let names: Vec<(&str, EntryKind)> = entries.iter().map(|e| (e.name.as_str(), e.kind)).collect();
    assert_eq!(
        names,
        vec![("a.txt", EntryKind::File), ("sub", EntryKind::Directory), ("sub/b.txt", EntryKind::File)]
    );
    assert_eq!(entries[2].source_path, "/b/ws/sub/b.txt");
}

#[test]
fn zip_entries_reject_paths_outside_workspace() {
    let walk = vec![WalkEntry { path: "/elsewhere/a.txt".to_string(), is_file: true }];
    assert!(std::matches!(zip_entries(&walk, "/b/ws/"), Err(BackupError::Archive(_))));
    assert_eq!(relative_name("/b/ws/x", "/b/ws/"), Some("x".to_string()));
    assert_eq!(relative_name("/b/w", "/b/ws/"), None);
    assert_eq!(relative_name("/b/ws/", "/b/ws/"), Some(String::new()));
}
