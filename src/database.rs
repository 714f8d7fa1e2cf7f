use vstd::prelude::*;
use vstd::string::*;

use crate::config::{is_mariadb, is_postgresql, is_sqlite};
use crate::error::BackupError;
use crate::exclusion::views;
use crate::text::{split_words, str_eq, words};

verus! {

/// An external dump utility invocation, with the file it must leave behind.
pub struct DumpCommand {
    /// The utility to run.
    pub program: String,
    /// Its arguments, one per element.
    pub args: Vec<String>,
    /// The dump file that the utility writes.
    pub output_path: String,
    /// A file that must exist before the utility runs (the live SQLite database).
    pub required_file: Option<String>,
}

/// The view of a dump command: program, arguments, output path, required file.
pub type CommandView = (Seq<char>, Seq<Seq<char>>, Seq<char>, Option<Seq<char>>);

pub open spec fn command_view(c: DumpCommand) -> CommandView {
    (
        c.program@,
        views(c.args@),
        c.output_path@,
        match c.required_file {
            Some(f) => Some(f@),
            None => None,
        },
    )
}

/// The dump utility of a database type, if the type is supported.
pub open spec fn spec_dump_util(db_type: Seq<char>) -> Option<Seq<char>> {
    if is_postgresql(db_type) {
        Some("pg_dump"@)
    } else if is_mariadb(db_type) {
        Some("mysqldump"@)
    } else if is_sqlite(db_type) {
        Some("sqlite3"@)
    } else {
        None
    }
}

pub open spec fn spec_postgresql_command(cs: Seq<char>, loc: Seq<char>, dt: Seq<char>) -> CommandView {
    let out = loc + dt + "-db.dump"@;
    ("pg_dump"@, seq!["--dbname="@ + cs, "--format=custom"@, "--file="@ + out], out, None)
}

pub open spec fn spec_mariadb_command(cs: Seq<char>, loc: Seq<char>, dt: Seq<char>) -> CommandView {
    let out = loc + dt + "-db.sql"@;
    ("mysqldump"@, words(cs + " --result-file="@ + out), out, None)
}

pub open spec fn spec_sqlite_command(cs: Seq<char>, loc: Seq<char>, dt: Seq<char>) -> CommandView {
    let out = loc + dt + "-db.sqlite3"@;
    let db_file = cs + "db.sqlite3"@;
    ("sqlite3"@, seq![db_file, ".backup "@ + out], out, Some(db_file))
}

/// The dump command of a database type, if the type is supported.
pub open spec fn spec_dump_command(db_type: Seq<char>, cs: Seq<char>, loc: Seq<char>, dt: Seq<char>) -> Option<CommandView> {
    if is_postgresql(db_type) {
        Some(spec_postgresql_command(cs, loc, dt))
    } else if is_mariadb(db_type) {
        Some(spec_mariadb_command(cs, loc, dt))
    } else if is_sqlite(db_type) {
        Some(spec_sqlite_command(cs, loc, dt))
    } else {
        None
    }
}

/// The name of the dump utility that a database type needs, for the caller to
/// look up once per run before the dump stage.
pub fn find_dump_util(db_type: &str) -> (r: Option<String>)
    ensures
        match r {
            Some(u) => spec_dump_util(db_type@) == Some(u@),
            None => spec_dump_util(db_type@) is None,
        },
{
    if str_eq(db_type, "postgresql") {
        Some(String::from_str("pg_dump"))
    } else if str_eq(db_type, "mysql") || str_eq(db_type, "mariadb") {
        Some(String::from_str("mysqldump"))
    } else if str_eq(db_type, "sqlite") {
        Some(String::from_str("sqlite3"))
    } else {
        None
    }
}

fn concat3(a: &str, b: &str, c: &str) -> (r: String)
    ensures
        r@ == a@ + b@ + c@,
{
    let mut r = String::from_str(a);
    r.append(b);
    r.append(c);
    r
}

/// `pg_dump` in its custom format, into `<location><datetime>-db.dump`.
pub fn postgresql_backup(connection_string: &str, backup_location: &str, datetime: &str) -> (r: DumpCommand)
    ensures
        command_view(r) == spec_postgresql_command(connection_string@, backup_location@, datetime@),
{
    let out = concat3(backup_location, datetime, "-db.dump");
    let mut args: Vec<String> = Vec::new();
    args.push(concat3("--dbname=", connection_string, ""));
    args.push(String::from_str("--format=custom"));
    args.push(concat3("--file=", out.as_str(), ""));
    let r = DumpCommand { program: String::from_str("pg_dump"), args, output_path: out, required_file: None };
    proof {
        reveal_strlit("");
        assert(views(r.args@) =~= spec_postgresql_command(connection_string@, backup_location@, datetime@).1);
    }
    r
}

/// `mysqldump` with the connection options split on whitespace, into
/// `<location><datetime>-db.sql`.
pub fn mariadb_backup(connection_string: &str, backup_location: &str, datetime: &str) -> (r: DumpCommand)
    ensures
        command_view(r) == spec_mariadb_command(connection_string@, backup_location@, datetime@),
{
    let out = concat3(backup_location, datetime, "-db.sql");
    let line = concat3(connection_string, " --result-file=", out.as_str());
    let args = split_words(line.as_str());
    DumpCommand { program: String::from_str("mysqldump"), args, output_path: out, required_file: None }
}

/// `sqlite3 .backup` of the live `db.sqlite3` under the data directory, into
/// `<location><datetime>-db.sqlite3`; the live file must exist.
pub fn sqlite_backup(connection_string: &str, backup_location: &str, datetime: &str) -> (r: DumpCommand)
    ensures
        command_view(r) == spec_sqlite_command(connection_string@, backup_location@, datetime@),
{
    let out = concat3(backup_location, datetime, "-db.sqlite3");
    let db_file = concat3(connection_string, "db.sqlite3", "");
    let mut args: Vec<String> = Vec::new();
    args.push(db_file.clone());
    args.push(concat3(".backup ", out.as_str(), ""));
    let r = DumpCommand {
        program: String::from_str("sqlite3"),
        args,
        output_path: out,
        required_file: Some(db_file),
    };
    proof {
        reveal_strlit("");
        assert(views(r.args@) =~= spec_sqlite_command(connection_string@, backup_location@, datetime@).1);
        assert(command_view(r).0 =~= spec_sqlite_command(connection_string@, backup_location@, datetime@).0);
    }
    r
}

/// Plans the dump of the configured database into the workspace. Fails when the
/// type is unsupported, or when its utility (see `find_dump_util`) is not installed.
pub fn database_backup(
    db_type: &str,
    connection_string: &str,
    backup_location: &str,
    datetime: &str,
    utility_installed: bool,
) -> (r: Result<DumpCommand, BackupError>)
    ensures
        spec_dump_util(db_type@) is None ==> r == Err::<DumpCommand, BackupError>(
            BackupError::UnsupportedDatabase,
        ),
        spec_dump_util(db_type@) is Some && !utility_installed ==> (r matches Err(
            BackupError::DumpUtilityMissing(u),
        ) && Some(u@) == spec_dump_util(db_type@)),
        r matches Ok(c) ==> utility_installed && spec_dump_command(
            db_type@,
            connection_string@,
            backup_location@,
            datetime@,
        ) == Some(command_view(c)),
        spec_dump_util(db_type@) is Some && utility_installed ==> r is Ok,
{
    let util = match find_dump_util(db_type) {
        Some(u) => u,
        None => return Err(BackupError::UnsupportedDatabase),
    };
    if !utility_installed {
        return Err(BackupError::DumpUtilityMissing(util));
    }
    if str_eq(db_type, "postgresql") {
        Ok(postgresql_backup(connection_string, backup_location, datetime))
    } else if str_eq(db_type, "mysql") || str_eq(db_type, "mariadb") {
        Ok(mariadb_backup(connection_string, backup_location, datetime))
    } else {
        Ok(sqlite_backup(connection_string, backup_location, datetime))
    }
}

/// Whether the dump may run: the file it reads, if any, was found by the caller.
pub fn check_dump_source(command: &DumpCommand, required_file_present: bool) -> (r: Result<(), BackupError>)
    ensures
        r is Ok <==> (command.required_file is None || required_file_present),
        r matches Err(e) ==> e is DatabaseFileNotFound,
{
    if command.required_file.is_some() && !required_file_present {
        Err(BackupError::DatabaseFileNotFound)
    } else {
        Ok(())
    }
}

/// The verdict on a finished dump: success when the utility exited with success,
/// otherwise a dump error that keeps its error stream.
pub fn dump_result(exit_success: bool, stderr: String) -> (r: Result<(), BackupError>)
    ensures
        exit_success ==> r is Ok,
        !exit_success ==> r == Err::<(), BackupError>(BackupError::DumpFailed(stderr)),
{
    if exit_success {
        Ok(())
    } else {
        Err(BackupError::DumpFailed(stderr))
    }
}

/// The diagnostic line of a completed dump.
pub fn dump_completed_message(command: &DumpCommand) -> (r: String)
    ensures
        r@ == "Database backup successfully completed. Dump stored at next path "@ + command.output_path@,
{
    let mut r = String::from_str("Database backup successfully completed. Dump stored at next path ");
    r.append(command.output_path.as_str());
    r
}

} // verus!
