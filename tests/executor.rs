use rustyroad::executor::{MigrationRun, RunStep};

fn strings(names: &[&str]) -> Vec<String> {
    names.iter().map(|s| s.to_string()).collect()
}

fn expect_apply(run: &MigrationRun) -> String {
    match run.next_step() {
        RunStep::Apply(path) => path,
        other => panic!("unexpected {:?}", other),
    }
}

#[test]
fn only_the_sql_file_is_applied_and_logged() {
    let mut run = MigrationRun::new("m/20240101000000-users", &strings(&["notes.txt", "up.sql"]));
    assert_eq!(expect_apply(&run), "m/20240101000000-users/up.sql");
    run.applied(1);
    assert!(matches!(run.next_step(), RunStep::Finished));
    assert_eq!(run.rows_affected(), &vec![1u64]);
}

#[test]
fn scripts_run_in_name_order() {
    let mut run = MigrationRun::new("d", &strings(&["up.sql", "down.sql", "seed.txt"]));
    assert_eq!(expect_apply(&run), "d/down.sql");
    run.applied(0);
    assert_eq!(expect_apply(&run), "d/up.sql");
    run.applied(2);
    assert!(matches!(run.next_step(), RunStep::Finished));
    run.applied(9);
    assert_eq!(run.rows_affected(), &vec![0u64, 2]);
}

#[test]
fn a_failure_aborts_the_run() {
    let mut run = MigrationRun::new("d", &strings(&["1.sql", "2.sql"]));
    assert_eq!(expect_apply(&run), "d/1.sql");
    run.failed();
    assert!(matches!(run.next_step(), RunStep::Aborted));
    run.applied(5);
    assert!(matches!(run.next_step(), RunStep::Aborted));
    assert!(run.rows_affected().is_empty());
}

#[test]
fn empty_directory_finishes_at_once() {
    let run = MigrationRun::new("d", &strings(&["README", "notes.txt"]));
    assert!(matches!(run.next_step(), RunStep::Finished));
}
