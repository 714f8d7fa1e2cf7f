use vstd::prelude::*;
use vstd::string::*;

use crate::error::BackupError;
use crate::text::{push_signed_decimal, signed_decimal, str_eq};

verus! {

/// The port that PostgreSQL listens on when none is configured.
pub const POSTGRESQL_DEFAULT_PORT: i64 = 5432;

/// The port that MySQL and MariaDB listen on when none is configured.
pub const MARIADB_DEFAULT_PORT: i64 = 3306;

/// The database type names PostgreSQL.
pub open spec fn is_postgresql(t: Seq<char>) -> bool {
    t == "postgresql"@
}

/// The database type names MySQL or MariaDB, which share a dump utility.
pub open spec fn is_mariadb(t: Seq<char>) -> bool {
    t == "mysql"@ || t == "mariadb"@
}

/// The database type names SQLite.
pub open spec fn is_sqlite(t: Seq<char>) -> bool {
    t == "sqlite"@
}

/// How the database of the instance is reached.
pub struct Database {
    pub db_type: String,
    pub username: Option<String>,
    pub password: Option<String>,
    pub db_name: Option<String>,
    pub host: Option<String>,
    pub port: Option<i64>,
}

/// The validated settings of a backup run.
pub struct Config {
    /// The data directory of the password manager instance.
    pub vaultwarden_data: String,
    /// The directory under which workspaces and artifacts are written.
    pub backup_location: String,
    /// How the database is reached.
    pub db: Database,
    /// Whether the artifact is an encrypted zip rather than a tarball.
    pub encrypt: bool,
    /// The key of the encrypted zip.
    pub encrypt_key: String,
    /// Filename substrings whose files are left out of the backup.
    pub exclude_files: Vec<String>,
}

impl Database {
    /// Both a user name and a password are configured.
    pub open spec fn has_credentials(&self) -> bool {
        self.username is Some && self.password is Some
    }

    /// The configured port, or `default` when none is.
    pub open spec fn port_or(&self, default: int) -> int {
        match self.port {
            Some(p) => p as int,
            None => default,
        }
    }
}

impl Config {
    /// The engine needs a server address: PostgreSQL, MySQL or MariaDB.
    pub open spec fn needs_server(&self) -> bool {
        is_postgresql(self.db.db_type@) || is_mariadb(self.db.db_type@)
    }

    /// Every field that the connection string of the engine reads is present.
    pub open spec fn valid(&self) -> bool {
        self.needs_server() ==> (self.db.host is Some && self.db.db_name is Some)
    }

    /// The connection descriptor handed to the dump utility of the engine.
    pub open spec fn spec_connection_string(&self) -> Seq<char> {
        let db = self.db;
        if is_postgresql(db.db_type@) {
            let credential = if db.has_credentials() {
                db.username->Some_0@ + ":"@ + db.password->Some_0@ + "@"@
            } else {
                Seq::empty()
            };
            "postgresql://"@ + credential + db.host->Some_0@ + ":"@ + signed_decimal(
                db.port_or(POSTGRESQL_DEFAULT_PORT as int),
            ) + "/"@ + db.db_name->Some_0@
        } else if is_mariadb(db.db_type@) {
            let credential = if db.has_credentials() {
                "--user="@ + db.username->Some_0@ + " --password="@ + db.password->Some_0@ + " "@
            } else {
                Seq::empty()
            };
            credential + "--host="@ + db.host->Some_0@ + " --port="@ + signed_decimal(
                db.port_or(MARIADB_DEFAULT_PORT as int),
            ) + " "@ + db.db_name->Some_0@
        } else if is_sqlite(db.db_type@) {
            self.vaultwarden_data@
        } else {
            Seq::empty()
        }
    }

    fn get_db(&self) -> (r: &Database)
        ensures
            r == &self.db,
    {
        &self.db
    }

    /// The configured database type, as written in the settings.
    pub fn get_db_type(&self) -> (r: String)
        ensures
            r@ == self.db.db_type@,
    {
        let db = self.get_db();
        db.db_type.clone()
    }

    /// Whether the artifact is an encrypted zip rather than a tarball.
    pub fn get_encrypt_status(&self) -> (r: bool)
        ensures
            r == self.encrypt,
    {
        self.encrypt
    }

    /// The key of the encrypted zip, consumed verbatim.
    pub fn get_encrypt_key(&self) -> (r: String)
        ensures
            r@ == self.encrypt_key@,
    {
        self.encrypt_key.clone()
    }

    /// The user-supplied filename exclusions, in their order.
    pub fn get_exclude_files(&self) -> (r: Vec<String>)
        ensures
            r@.map_values(|e: String| e@) == self.exclude_files@.map_values(|e: String| e@),
    {
        let mut r: Vec<String> = Vec::new();
        let mut i: usize = 0;
        while i < self.exclude_files.len()
            invariant
                i <= self.exclude_files@.len(),
                r@.len() == i,
                forall|k: int| 0 <= k < i ==> r@[k]@ == self.exclude_files@[k]@,
            decreases self.exclude_files@.len() - i,
        {
            r.push(self.exclude_files[i].clone());
            i = i + 1;
        }
        assert(r@.map_values(|e: String| e@) =~= self.exclude_files@.map_values(|e: String| e@));
        r
    }

    /// Checks that every field the connection string reads is present.
    pub fn validate(&self) -> (r: Result<(), BackupError>)
        ensures
            r is Ok <==> self.valid(),
            r matches Err(e) ==> (e is MissingHost <==> self.db.host is None),
            r matches Err(e) ==> (e is MissingHost || e is MissingDbName),
    {
        let db = self.get_db();
        let server = str_eq(db.db_type.as_str(), "postgresql") || str_eq(db.db_type.as_str(), "mysql")
            || str_eq(db.db_type.as_str(), "mariadb");
        if server && db.host.is_none() {
            Err(BackupError::MissingHost)
        } else if server && db.db_name.is_none() {
            Err(BackupError::MissingDbName)
        } else {
            Ok(())
        }
    }

    /// The connection descriptor of the configured engine: a PostgreSQL URI, the
    /// MySQL/MariaDB client options, the data directory for SQLite, and empty for
    /// any other type.
    pub fn db_connection_string(&self) -> (r: String)
        requires
            self.valid(),
        ensures
            r@ == self.spec_connection_string(),
    {
        let db = self.get_db();
        let mut connection_string = String::new();
        if str_eq(db.db_type.as_str(), "postgresql") {
            let mut credential = String::new();
            if let (Some(username), Some(password)) = (&db.username, &db.password) {
                credential.append(username.as_str());
                credential.append(":");
                credential.append(password.as_str());
                credential.append("@");
            }
            let port = match db.port {
                Some(p) => p,
                None => POSTGRESQL_DEFAULT_PORT,
            };
            connection_string.append("postgresql://");
            connection_string.append(credential.as_str());
            connection_string.append(db.host.as_ref().unwrap().as_str());
            connection_string.append(":");
            push_signed_decimal(&mut connection_string, port);
            connection_string.append("/");
            connection_string.append(db.db_name.as_ref().unwrap().as_str());
            proof {
                let credential_spec = if db.has_credentials() {
                    db.username->Some_0@ + ":"@ + db.password->Some_0@ + "@"@
                } else {
                    Seq::empty()
                };
                assert(credential@ =~= credential_spec);
                assert(connection_string@ =~= self.spec_connection_string());
            }
        } else if str_eq(db.db_type.as_str(), "mysql") || str_eq(db.db_type.as_str(), "mariadb") {
            if let (Some(username), Some(password)) = (&db.username, &db.password) {
                connection_string.append("--user=");
                connection_string.append(username.as_str());
                connection_string.append(" --password=");
                connection_string.append(password.as_str());
                connection_string.append(" ");
            }
            let ghost credential = connection_string@;
            let port = match db.port {
                Some(p) => p,
                None => MARIADB_DEFAULT_PORT,
            };
            connection_string.append("--host=");
            connection_string.append(db.host.as_ref().unwrap().as_str());
            connection_string.append(" --port=");
            push_signed_decimal(&mut connection_string, port);
            connection_string.append(" ");
            connection_string.append(db.db_name.as_ref().unwrap().as_str());
            proof {
                let credential_spec = if db.has_credentials() {
                    "--user="@ + db.username->Some_0@ + " --password="@ + db.password->Some_0@
                        + " "@
                } else {
                    Seq::empty()
                };
                assert(credential =~= credential_spec);
                assert(connection_string@ =~= self.spec_connection_string());
            }
        } else if str_eq(db.db_type.as_str(), "sqlite") {
            connection_string.append(self.vaultwarden_data.as_str());
            assert(connection_string@ =~= self.spec_connection_string());
        }
        connection_string
    }

    /// The backup destination, provided that it exists and is a directory; the
    /// caller probes the filesystem and passes the answer as `location_is_dir`.
    pub fn get_backup_location(&self, location_is_dir: bool) -> (r: Result<&String, BackupError>)
        ensures
            location_is_dir ==> r == Ok::<&String, BackupError>(&self.backup_location),
            !location_is_dir ==> r == Err::<&String, BackupError>(BackupError::BackupFolderMissing),
    {
        if !location_is_dir {
            return Err(BackupError::BackupFolderMissing);
        }
        Ok(&self.backup_location)
    }
}

} // verus!
