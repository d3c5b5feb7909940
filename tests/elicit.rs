use rustyroad::catalog::{DataTypeCategory, DatabaseType};
use rustyroad::elicit::{parse_constraints, parse_menu_choice, parse_yes_no, Constraints, Elicitor, Stage};

fn feed_all(e: &mut Elicitor, inputs: &[&str]) {
    for input in inputs {
        assert!(e.feed(input), "rejected {:?} at {:?}", input, e.stage());
    }
}

#[test]
fn one_integer_column_scenario() {
    let mut e = Elicitor::new("users", DatabaseType::Postgres);
    feed_all(&mut e, &["1", "age", "11", "2", "", "n"]);
    assert!(e.is_done());
    assert_eq!(e.up_sql(), "CREATE TABLE IF NOT EXISTSusers (age INTEGER NOT NULL);\n");
    assert!(e.up_sql().contains("CREATE TABLE IF NOT EXISTSusers (age INTEGER NOT NULL);"));
    assert_eq!(e.down_sql(), "DROP TABLE users;");
}

#[test]
fn invalid_answers_repeat_the_question() {
    let mut e = Elicitor::new("users", DatabaseType::Postgres);
    assert_eq!(e.prompt(), "Enter the number of columns: ");
    assert!(!e.feed("two"));
    assert_eq!(e.stage(), Stage::AskCount);
    assert!(e.feed(" 1 "));
    assert_eq!(e.stage(), Stage::AskName);
    assert!(!e.feed("   "));
    assert!(e.feed("age"));
    assert!(!e.feed("17"));
    assert!(!e.feed("0"));
    assert_eq!(e.stage(), Stage::AskCategory);
    assert!(e.feed("11"));
    assert_eq!(e.category(), DataTypeCategory::Numeric);
    assert!(!e.feed("11"));
    assert_eq!(e.stage(), Stage::AskType);
    assert!(e.feed("2"));
    assert!(!e.feed("4"));
    assert_eq!(e.stage(), Stage::AskConstraints);
    assert!(e.feed("1, 2"));
    assert!(!e.feed("maybe"));
    assert_eq!(e.prompt(), "Is the column nullable? (y/n): ");
    assert!(e.feed("Y"));
    assert!(e.is_done());
    assert!(!e.feed("n"));
    assert_eq!(e.up_sql(), "CREATE TABLE IF NOT EXISTSusers (age INTEGER NULL);\n");
}

#[test]
fn unsupported_category_is_an_invalid_choice() {
    let mut e = Elicitor::new("users", DatabaseType::Sqlite);
    feed_all(&mut e, &["1", "age"]);
    assert!(!e.feed("4"));
    assert!(!e.feed("13"));
    assert_eq!(e.stage(), Stage::AskCategory);
    assert!(e.feed("15"));
    assert_eq!(e.dialect(), DatabaseType::Sqlite);
}

#[test]
fn zero_columns_finishes_at_once() {
    let mut e = Elicitor::new("empty", DatabaseType::Mysql);
    assert!(e.feed("0"));
    assert!(e.is_done());
    assert_eq!(e.up_sql(), "");
    assert_eq!(e.down_sql(), "DROP TABLE empty;");
}

#[test]
fn varchar_and_array_columns() {
    let mut e = Elicitor::new("posts", DatabaseType::Postgres);
    feed_all(&mut e, &["2", "title", "15", "1", "120", "", "n"]);
    assert_eq!(e.stage(), Stage::AskName);
    feed_all(&mut e, &["tags", "1", "1"]);
    assert_eq!(e.stage(), Stage::AskDimensions);
    assert!(!e.feed("0"));
    feed_all(&mut e, &["1", "TEXT", "8", "3", "y"]);
    assert!(e.is_done());
    assert_eq!(
        e.up_sql(),
        "CREATE TABLE IF NOT EXISTSposts (title VARCHAR(120) NOT NULL);\nALTER TABLE posts ADD COLUMN tags TEXT ARRAY[8] NULL;\n"
    );
}

#[test]
fn answer_parsers() {
    assert_eq!(parse_menu_choice("3", 5), Some(2));
    assert_eq!(parse_menu_choice("6", 5), None);
    assert_eq!(parse_menu_choice("0", 5), None);
    assert_eq!(parse_menu_choice("1", 0), None);
    assert_eq!(parse_yes_no("n"), Some(false));
    assert_eq!(parse_yes_no("yes"), None);
    assert_eq!(
        parse_constraints("3 1"),
        Some(Constraints { primary_key: true, not_null: false, foreign_key: true })
    );
    assert_eq!(parse_constraints(""), Some(Constraints { primary_key: false, not_null: false, foreign_key: false }));
    assert_eq!(parse_constraints("4"), None);
}
