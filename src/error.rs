use vstd::prelude::*;
use vstd::string::*;

verus! {

/// Why a backup run could not be carried out.
#[derive(Debug, PartialEq, Eq)]
pub enum BackupError {
    /// The backup destination does not exist or is not a directory.
    BackupFolderMissing,
    /// A database engine that needs a host was configured without one.
    MissingHost,
    /// A database engine that needs a database name was configured without one.
    MissingDbName,
    /// The configured database type is none of the supported engines.
    UnsupportedDatabase,
    /// The dump utility of the engine (named here) is not installed.
    DumpUtilityMissing(String),
    /// The live SQLite database file was not found.
    DatabaseFileNotFound,
    /// The dump utility ran and failed; its error stream is kept.
    DumpFailed(String),
    /// A filesystem operation failed while the workspace was created or staged.
    Io(String),
    /// The archive could not be written.
    Archive(String),
}

impl BackupError {
    /// True for the errors that settings alone decide, before any stage runs.
    pub open spec fn is_config_error(self) -> bool {
        self is BackupFolderMissing || self is MissingHost || self is MissingDbName
    }

    /// True for the errors of the database dump stage.
    pub open spec fn is_dump_error(self) -> bool {
        self is UnsupportedDatabase || self is DumpUtilityMissing || self is DatabaseFileNotFound
            || self is DumpFailed
    }

    /// A one-line description of the error.
    pub fn message(&self) -> (r: String)
        ensures
            self is DumpUtilityMissing ==> r@ == self->DumpUtilityMissing_0@
                + " utility is not installed or not added to the environment variable"@,
            self is DumpFailed ==> r@ == "Database backup not created. "@ + self->DumpFailed_0@,
            self is Io ==> r@ == self->Io_0@,
            self is Archive ==> r@ == self->Archive_0@,
            self is BackupFolderMissing ==> r@ == "Backup folder does not exist"@,
            self is UnsupportedDatabase ==> r@ == "Unsupported database type"@,
            self is DatabaseFileNotFound ==> r@ == "Database file not found"@,
            self is MissingHost ==> r@ == "Database host is not configured"@,
            self is MissingDbName ==> r@ == "Database name is not configured"@,
    {
        match self {
            BackupError::BackupFolderMissing => String::from_str("Backup folder does not exist"),
            BackupError::MissingHost => String::from_str("Database host is not configured"),
            BackupError::MissingDbName => String::from_str("Database name is not configured"),
            BackupError::UnsupportedDatabase => String::from_str("Unsupported database type"),
            BackupError::DumpUtilityMissing(util) => {
                let mut r = util.clone();
                r.append(" utility is not installed or not added to the environment variable");
                r
            },
            BackupError::DatabaseFileNotFound => String::from_str("Database file not found"),
            BackupError::DumpFailed(stderr) => {
                let mut r = String::from_str("Database backup not created. ");
                r.append(stderr.as_str());
                r
            },
            BackupError::Io(m) => m.clone(),
            BackupError::Archive(m) => m.clone(),
        }
    }
}

} // verus!
