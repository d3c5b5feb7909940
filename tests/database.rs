use rustyroad::catalog::DatabaseType;
use rustyroad::database::{parse_port, ConfigError, Database};

fn db(kind: &str) -> Database {
    Database::new("app".to_string(), "admin".to_string(), "secret".to_string(), "localhost".to_string(), 5432, kind)
}

#[test]
fn dialect_names() {
    assert_eq!(db("postgres").database_type, DatabaseType::Postgres);
    assert_eq!(db("mysql").database_type, DatabaseType::Mysql);
    assert_eq!(db("sqlite").database_type, DatabaseType::Sqlite);
    assert_eq!(db("oracle").database_type, DatabaseType::Mysql);
    assert_eq!(db("Postgres").database_type, DatabaseType::Mysql);
    let d = db("postgres");
    assert_eq!((d.name.as_str(), d.username.as_str(), d.password.as_str(), d.host.as_str(), d.port), ("app", "admin", "secret", "localhost", 5432));
}

#[test]
fn port_numbers() {
    assert_eq!(parse_port("5432"), Some(5432));
    assert_eq!(parse_port("+80"), Some(80));
    assert_eq!(parse_port("65535"), Some(65535));
    assert_eq!(parse_port("65536"), None);
    assert_eq!(parse_port(""), None);
    assert_eq!(parse_port("+"), None);
    assert_eq!(parse_port(" 80"), None);
}

#[test]
fn fields_with_a_bad_port() {
    let r = Database::from_config_fields("app", "u", "p", "h", "http", "postgres");
    assert_eq!(r.map(|_| ()), Err(ConfigError::InvalidPort));
    let ok = Database::from_config_fields("app", "u", "p", "h", "+5432", "postgres").unwrap();
    assert_eq!((ok.port, ok.database_type), (5432, DatabaseType::Postgres));
}

#[test]
fn reads_project_configuration() {
    let text = "[database]\ndatabase_name = \"shop\"\ndatabase_user = \"owner\"\ndatabase_password = \"SECRET-REDACTED\"\ndatabase_host = \"db.local\"\ndatabase_port = \"3306\"\ndatabase_type = \"sqlite\"\n";
    let d = Database::from_toml(text).unwrap();
    assert_eq!(d.name, "shop");
    assert_eq!(d.username, "owner");
    assert_eq!(d.password, "SECRET-REDACTED");
    assert_eq!(d.host, "db.local");
    assert_eq!(d.port, 3306);
    assert_eq!(d.database_type, DatabaseType::Sqlite);
    assert_eq!(d.sqlite_file(), "shop.db");
}

#[test]
fn configuration_errors() {
    assert_eq!(Database::from_toml("[database").map(|_| ()), Err(ConfigError::InvalidToml));
    assert_eq!(Database::from_toml("[server]\nport = 1\n").map(|_| ()), Err(ConfigError::MissingDatabaseTable));
    assert_eq!(Database::from_toml("database = 3\n").map(|_| ()), Err(ConfigError::MissingField));
    assert_eq!(Database::from_toml("").map(|_| ()), Err(ConfigError::MissingDatabaseTable));
    let missing = "[database]\ndatabase_name = \"shop\"\n";
    assert_eq!(Database::from_toml(missing).map(|_| ()), Err(ConfigError::MissingField));
    let numeric_port = "[database]\ndatabase_name = \"a\"\ndatabase_user = \"b\"\ndatabase_password = \"c\"\ndatabase_host = \"d\"\ndatabase_port = 5432\ndatabase_type = \"mysql\"\n";
    assert_eq!(Database::from_toml(numeric_port).map(|_| ()), Err(ConfigError::MissingField));
    let bad_port = "[database]\ndatabase_name = \"a\"\ndatabase_user = \"b\"\ndatabase_password = \"c\"\ndatabase_host = \"d\"\ndatabase_port = \"x\"\ndatabase_type = \"mysql\"\n";
    assert_eq!(Database::from_toml(bad_port).map(|_| ()), Err(ConfigError::InvalidPort));
}
