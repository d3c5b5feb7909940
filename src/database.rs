//! The connection descriptor of a project's database, and its reading from
//! the project's TOML configuration.

use vstd::prelude::*;
use crate::catalog::DatabaseType;
use crate::text::{decimal_u64, parse_decimal};

verus! {

/// Whether `text` is a TOML document.
pub uninterp spec fn toml_parses(text: Seq<char>) -> bool;

/// Whether the TOML document `text` has a top-level entry `table`.
pub uninterp spec fn toml_has_entry(text: Seq<char>, table: Seq<char>) -> bool;

/// The string under `key` in the top-level entry `table` of the TOML document
/// `text`, if there is one (none when the value is not a string).
pub uninterp spec fn toml_string_entry(text: Seq<char>, table: Seq<char>, key: Seq<char>) -> Option<Seq<char>>;

/// What connecting to a project's database takes.
#[derive(Clone, Debug)]
pub struct Database {
    pub name: String,
    pub username: String,
    pub password: String,
    pub host: String,
    pub port: u16,
    pub database_type: DatabaseType,
}

/// The dialect that a configuration's `database_type` names; MySQL for any
/// name but `postgres`, `mysql` and `sqlite`.
pub open spec fn dialect_named(s: Seq<char>) -> DatabaseType {
    if s == "postgres"@ {
        DatabaseType::Postgres
    } else if s == "mysql"@ {
        DatabaseType::Mysql
    } else if s == "sqlite"@ {
        DatabaseType::Sqlite
    } else {
        DatabaseType::Mysql
    }
}

/// The port that `s` writes: decimal digits after an optional `+`, at most
/// 65535.
pub open spec fn port_value(s: Seq<char>) -> Option<u16> {
    let digits = if s.len() > 0 && s[0] == '+' {
        s.drop_first()
    } else {
        s
    };
    match decimal_u64(digits) {
        Some(v) => if v <= 65535 {
            Some(v as u16)
        } else {
            None
        },
        None => None,
    }
}

/// Reads a port number.
pub fn parse_port(s: &str) -> (r: Option<u16>)
    ensures
        r == port_value(s@),
{
    let n = s.unicode_len();
    let digits = if n > 0 && s.get_char(0) == '+' {
        s.substring_char(1, n)
    } else {
        s
    };
    match parse_decimal(digits) {
        Some(v) => if v <= 65535 {
            Some(v as u16)
        } else {
            None
        },
        None => None,
    }
}

/// Why a project's database configuration could not be read.
#[derive(Clone, Copy, Debug, PartialEq, Eq, Structural)]
pub enum ConfigError {
    /// The text is not a TOML document.
    InvalidToml,
    /// It has no `database` table.
    MissingDatabaseTable,
    /// The table lacks one of the string fields.
    MissingField,
    /// `database_port` is not a port number.
    InvalidPort,
}

/// `db` is the database that the configuration fields describe.
pub open spec fn describes(
    db: Database,
    name: Seq<char>,
    username: Seq<char>,
    password: Seq<char>,
    host: Seq<char>,
    port: Seq<char>,
    database_type: Seq<char>,
) -> bool {
    &&& db.name@ == name
    &&& db.username@ == username
    &&& db.password@ == password
    &&& db.host@ == host
    &&& port_value(port) == Some(db.port)
    &&& db.database_type == dialect_named(database_type)
}

fn same_text(a: &str, b: &str) -> (r: bool)
    ensures
        r == (a@ == b@),
{
    String::from_str(a).eq(&String::from_str(b))
}

impl Database {
    /// A descriptor from its parts; `database_type` is read by `dialect_named`.
    pub fn new(
        name: String,
        username: String,
        password: String,
        host: String,
        port: u16,
        database_type: &str,
    ) -> (r: Database)
        ensures
            r.name == name,
            r.username == username,
            r.password == password,
            r.host == host,
            r.port == port,
            r.database_type == dialect_named(database_type@),
    {
        let dialect = if same_text(database_type, "postgres") {
            DatabaseType::Postgres
        } else if same_text(database_type, "mysql") {
            DatabaseType::Mysql
        } else if same_text(database_type, "sqlite") {
            DatabaseType::Sqlite
        } else {
            DatabaseType::Mysql
        };
        Database { name, username, password, host, port, database_type: dialect }
    }

    /// The descriptor that the configuration fields describe, with the port
    /// still as text; `InvalidPort` exactly when it is not a port number.
    pub fn from_config_fields(
        name: &str,
        username: &str,
        password: &str,
        host: &str,
        port: &str,
        database_type: &str,
    ) -> (r: Result<Database, ConfigError>)
        ensures
            port_value(port@).is_none() <==> r == Err::<Database, ConfigError>(ConfigError::InvalidPort),
            port_value(port@).is_some() ==> r is Ok,
            r matches Ok(db) ==> describes(db, name@, username@, password@, host@, port@, database_type@),
    {
        match parse_port(port) {
            Some(p) => Ok(
                Database::new(
                    String::from_str(name),
                    String::from_str(username),
                    String::from_str(password),
                    String::from_str(host),
                    p,
                    database_type,
                ),
            ),
            None => Err(ConfigError::InvalidPort),
        }
    }

    /// The descriptor in a project configuration `text`, read from the string
    /// fields `database_name`, `database_user`, `database_password`,
    /// `database_host`, `database_port` and `database_type` of its `database`
    /// table; the error says which of these is wrong (see `config_error`).
    pub fn from_toml(text: &str) -> (r: Result<Database, ConfigError>)
        ensures
            match config_error(text@) {
                Some(e) => r == Err::<Database, ConfigError>(e),
                None => r is Ok && describes(
                    r.unwrap(),
                    config_field(text@, "database_name"@).unwrap(),
                    config_field(text@, "database_user"@).unwrap(),
                    config_field(text@, "database_password"@).unwrap(),
                    config_field(text@, "database_host"@).unwrap(),
                    config_field(text@, "database_port"@).unwrap(),
                    config_field(text@, "database_type"@).unwrap(),
                ),
            },
    {
        let name = match config_lookup(text, "database_name") {
            Ok(s) => s,
            Err(e) => return Err(e),
        };
        let username = match config_lookup(text, "database_user") {
            Ok(s) => s,
            Err(e) => return Err(e),
        };
        let password = match config_lookup(text, "database_password") {
            Ok(s) => s,
            Err(e) => return Err(e),
        };
        let host = match config_lookup(text, "database_host") {
            Ok(s) => s,
            Err(e) => return Err(e),
        };
        let port = match config_lookup(text, "database_port") {
            Ok(s) => s,
            Err(e) => return Err(e),
        };
        let database_type = match config_lookup(text, "database_type") {
            Ok(s) => s,
            Err(e) => return Err(e),
        };
        Database::from_config_fields(
            name.as_str(),
            username.as_str(),
            password.as_str(),
            host.as_str(),
            port.as_str(),
            database_type.as_str(),
        )
    }

    /// The file of an SQLite database: its name with the extension `db`.
    pub fn sqlite_file(&self) -> (r: String)
        ensures
            r@ == self.name@ + ".db"@,
    {
        let mut r = self.name.clone();
        r.append(".db");
        r
    }
}

/// The string field `key` of the `database` table of configuration `text`.
pub open spec fn config_field(text: Seq<char>, key: Seq<char>) -> Option<Seq<char>> {
    toml_string_entry(text, "database"@, key)
}

/// What is wrong with configuration `text`, if anything: checked in the
/// order document, `database` entry, the six string fields, port.
pub open spec fn config_error(text: Seq<char>) -> Option<ConfigError> {
    if !toml_parses(text) {
        Some(ConfigError::InvalidToml)
    } else if !toml_has_entry(text, "database"@) {
        Some(ConfigError::MissingDatabaseTable)
    } else if config_field(text, "database_name"@) is None || config_field(text, "database_user"@) is None
        || config_field(text, "database_password"@) is None || config_field(text, "database_host"@) is None
        || config_field(text, "database_port"@) is None || config_field(text, "database_type"@) is None {
        Some(ConfigError::MissingField)
    } else if port_value(config_field(text, "database_port"@).unwrap()) is None {
        Some(ConfigError::InvalidPort)
    } else {
        None
    }
}

/// The texts of an optional string.
pub open spec fn opt_view(o: Option<String>) -> Option<Seq<char>> {
    match o {
        Some(s) => Some(s@),
        None => None,
    }
}

/// Relies on `toml::from_str` for the document in `text`, read with
/// `toml::Value::get` and `toml::Value::as_str`: `Err` when `text` is not a
/// TOML document, `Ok(None)` when it has no top-level entry `table`, else
/// `Ok(Some(f))` with `f` the string under `key` in that entry, if any.
#[verifier::external_body]
fn toml_lookup(text: &str, table: &str, key: &str) -> (r: Result<Option<Option<String>>, ()>)
    ensures
        r.is_ok() == toml_parses(text@),
        r.is_ok() ==> r.unwrap().is_some() == toml_has_entry(text@, table@),
        r.is_ok() && r.unwrap().is_some() ==> opt_view(r.unwrap().unwrap()) == toml_string_entry(
            text@,
            table@,
            key@,
        ),
{
    match toml::from_str::<toml::Value>(text) {
        Ok(doc) => Ok(doc.get(table).map(|t| t.get(key).and_then(|f| f.as_str()).map(|s| s.to_string()))),
        Err(_) => Err(()),
    }
}

/// The string field `key` of the `database` table of configuration `text`,
/// or what stands in the way of reading it.
fn config_lookup(text: &str, key: &str) -> (r: Result<String, ConfigError>)
    ensures
        !toml_parses(text@) ==> r == Err::<String, ConfigError>(ConfigError::InvalidToml),
        toml_parses(text@) && !toml_has_entry(text@, "database"@) ==> r == Err::<String, ConfigError>(
            ConfigError::MissingDatabaseTable,
        ),
        toml_parses(text@) && toml_has_entry(text@, "database"@) ==> match config_field(text@, key@) {
            Some(f) => r is Ok && r.unwrap()@ == f,
            None => r == Err::<String, ConfigError>(ConfigError::MissingField),
        },
{
    match toml_lookup(text, "database", key) {
        Ok(Some(Some(s))) => Ok(s),
        Ok(Some(None)) => Err(ConfigError::MissingField),
        Ok(None) => Err(ConfigError::MissingDatabaseTable),
        Err(_) => Err(ConfigError::InvalidToml),
    }
}

} // verus!
