use rustyroad::migrations::{
    choose_migration_dir, create_migration_dir, find_migration_dir, initialize_migration, is_sql_file, join_path,
    list_migration_files, migration_dir_name, migration_scripts, plan_migration_dir, write_migration,
    MigrationDirError, MigrationLookup, Project,
};

fn strings(names: &[&str]) -> Vec<String> {
    names.iter().map(|s| s.to_string()).collect()
}

#[test]
fn planning_the_same_migration_twice_collides() {
    let base = "config/database/migrations";
    let mut existing = strings(&["20240101000000-init"]);
    let first = plan_migration_dir(base, &existing, "20240102030405", "create_users");
    assert_eq!(first, Ok("config/database/migrations/20240102030405-create_users".to_string()));
    existing.push(migration_dir_name("20240102030405", "create_users"));
    let second = plan_migration_dir(base, &existing, "20240102030405", "create_users");
    assert_eq!(second, Err(MigrationDirError::AlreadyExists));
}

#[test]
fn new_migration_dir_is_timestamped() {
    let path = create_migration_dir("migrations", &Vec::new(), "add_posts").unwrap();
    let stamp = path.strip_prefix("migrations/").unwrap().strip_suffix("-add_posts").unwrap();
    assert_eq!(stamp.len(), 14);
    assert!(stamp.chars().all(|c| c.is_ascii_digit()));
    let dir = path.strip_prefix("migrations/").unwrap().to_string();
    match create_migration_dir("migrations", &vec![dir], "add_posts") {
        Ok(again) => assert_ne!(again, path),
        Err(e) => assert_eq!(e, MigrationDirError::AlreadyExists),
    }
}

#[test]
fn single_match_is_returned_without_choice() {
    let dirs = strings(&["20240101000000-create_users", "20240102000000-create_posts"]);
    match find_migration_dir("base", &dirs, "users") {
        MigrationLookup::Found(p) => assert_eq!(p, "base/20240101000000-create_users"),
        other => panic!("unexpected {:?}", other),
    }
}

#[test]
fn no_match_is_not_found() {
    let dirs = strings(&["20240101000000-create_users"]);
    assert!(matches!(find_migration_dir("base", &dirs, "comments"), MigrationLookup::NotFound));
    assert!(matches!(find_migration_dir("base", &Vec::new(), "users"), MigrationLookup::NotFound));
}

#[test]
fn ambiguous_lookup_asks_the_operator() {
    let dirs = strings(&["20240101000000-create_users", "20240102000000-posts", "20240103000000-alter_users"]);
    let candidates = match find_migration_dir("base", &dirs, "users") {
        MigrationLookup::Ambiguous(c) => c,
        other => panic!("unexpected {:?}", other),
    };
    assert_eq!(candidates, strings(&["20240101000000-create_users", "20240103000000-alter_users"]));
    assert_eq!(
        choose_migration_dir("base", &candidates, "20240103000000-alter_users"),
        Ok("base/20240103000000-alter_users".to_string())
    );
    assert_eq!(choose_migration_dir("base", &candidates, "users"), Err(MigrationDirError::NotFound));
    assert_eq!(choose_migration_dir("base", &candidates, ""), Err(MigrationDirError::NotFound));
}

#[test]
fn written_migration_lists_down_before_up() {
    let files = write_migration("m/20240101000000-users", "CREATE TABLE IF NOT EXISTSusers (age INTEGER NOT NULL);\n", "", "users");
    assert_eq!(files.len(), 2);
    assert_eq!(files[0].path, "m/20240101000000-users/up.sql");
    assert_eq!(files[0].contents, "CREATE TABLE IF NOT EXISTSusers (age INTEGER NOT NULL);\n");
    assert_eq!(files[1].path, "m/20240101000000-users/down.sql");
    assert_eq!(files[1].contents, "DROP TABLE users;");
    let names: Vec<String> = files.iter().map(|f| f.path.rsplit('/').next().unwrap().to_string()).collect();
    assert_eq!(list_migration_files(&names), strings(&["down.sql", "up.sql"]));
}

#[test]
fn listing_sorts_by_name() {
    let names = strings(&["b.sql", "a.sql", "c.txt", "a.sql", "B.sql"]);
    assert_eq!(list_migration_files(&names), strings(&["B.sql", "a.sql", "a.sql", "b.sql", "c.txt"]));
    assert!(list_migration_files(&Vec::new()).is_empty());
}

#[test]
fn only_sql_files_are_applied() {
    let names = strings(&["notes.txt", "up.sql"]);
    assert_eq!(migration_scripts(&names), strings(&["up.sql"]));
    let names = strings(&["up.sql", "down.sql", ".sql", "x.SQL", "readme", "seed.sql.bak"]);
    assert_eq!(migration_scripts(&names), strings(&["down.sql", "up.sql"]));
}

#[test]
fn sql_extension() {
    assert!(is_sql_file("a.sql"));
    assert!(is_sql_file("..sql"));
    assert!(!is_sql_file(".sql"));
    assert!(!is_sql_file("a.sqlx"));
}

#[test]
fn initial_migration_creates_users_table() {
    let project = Project {
        initial_migration_directory: "config/database".to_string(),
        initial_migration_up: "config/database/migrations/init/up.sql".to_string(),
        initial_migration_down: "config/database/migrations/init/down.sql".to_string(),
    };
    let plan = initialize_migration(&project);
    assert_eq!(plan.migrations_dir, "config/database/migrations");
    assert_eq!(plan.files[0].path, "config/database/migrations/init/up.sql");
    assert!(plan.files[0].contents.starts_with("CREATE TABLE IF NOT EXISTS users ("));
    assert!(plan.files[0].contents.contains("email VARCHAR(255) NOT NULL"));
    assert_eq!(plan.files[1].path, "config/database/migrations/init/down.sql");
    assert_eq!(plan.files[1].contents, "DROP TABLE IF EXISTS users;\n");
}

#[test]
fn joining_paths() {
    assert_eq!(join_path("config", "migrations"), "config/migrations");
    assert_eq!(join_path("", "migrations"), "migrations");
    assert_eq!(join_path("config/", "migrations"), "config/migrations");
}

#[test]
fn initial_migration_in_the_current_directory() {
    let project = Project {
        initial_migration_directory: String::new(),
        initial_migration_up: "up.sql".to_string(),
        initial_migration_down: "down.sql".to_string(),
    };
    assert_eq!(initialize_migration(&project).migrations_dir, "migrations");
}
