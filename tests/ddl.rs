use rustyroad::catalog::ColumnType;
use rustyroad::ddl::{create_array, drop_table_sql, emit_column_ddl, TypeArgs};

fn args(length: &str, element: &str, size: &str) -> TypeArgs {
    TypeArgs { length: length.to_string(), dimensions: 1, element: element.to_string(), size: size.to_string() }
}

#[test]
fn integer_column_fragments() {
    let none = TypeArgs::none();
    assert_eq!(
        emit_column_ddl("users", "age", ColumnType::Integer, &none, false),
        "CREATE TABLE IF NOT EXISTSusers (age INTEGER NOT NULL);"
    );
    assert_eq!(
        emit_column_ddl("users", "age", ColumnType::Integer, &none, true),
        "CREATE TABLE IF NOT EXISTSusers (age INTEGER NULL);"
    );
}

#[test]
fn emission_is_deterministic_with_one_nullability_clause() {
    let none = TypeArgs::none();
    for ty in [ColumnType::Text, ColumnType::Uuid, ColumnType::JsonB, ColumnType::DateRange, ColumnType::Char] {
        for nullable in [true, false] {
            let a = emit_column_ddl("t", "c", ty, &none, nullable);
            let b = emit_column_ddl("t", "c", ty, &none, nullable);
            assert_eq!(a, b);
            assert_eq!(a.matches("NOT NULL").count(), if nullable { 0 } else { 1 });
            assert_eq!(a.matches("NULL").count(), 1);
        }
    }
}

#[test]
fn varchar_takes_its_length() {
    assert_eq!(
        emit_column_ddl("posts", "title", ColumnType::VarChar, &args("255", "", ""), true),
        "CREATE TABLE IF NOT EXISTSposts (title VARCHAR(255) NULL);"
    );
}

#[test]
fn multiword_keywords() {
    let none = TypeArgs::none();
    assert_eq!(
        emit_column_ddl("m", "flags", ColumnType::BitVarying, &none, false),
        "CREATE TABLE IF NOT EXISTSm (flags BIT VARYING NOT NULL);"
    );
    assert_eq!(
        emit_column_ddl("m", "snap", ColumnType::PgSnapshot, &none, true),
        "CREATE TABLE IF NOT EXISTSm (snap PG_SNAPSHOT NULL);"
    );
}

#[test]
fn array_column_alters_table() {
    assert_eq!(
        emit_column_ddl("users", "tags", ColumnType::Array, &args("", "TEXT", "4"), false),
        "ALTER TABLE users ADD COLUMN tags TEXT ARRAY[4] NOT NULL;"
    );
}

#[test]
fn create_array_appends_a_line() {
    let r = create_array("-- start\n".to_string(), "users", "scores", &args("", "INTEGER", "3"), true);
    assert_eq!(r, "-- start\nALTER TABLE users ADD COLUMN scores INTEGER ARRAY[3] NULL;\n");
}

#[test]
fn drop_statement() {
    assert_eq!(drop_table_sql("users"), "DROP TABLE users;");
}
