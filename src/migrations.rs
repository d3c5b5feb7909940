//! Migration directories and files: where a new migration goes, which
//! existing one a name designates, the files a migration consists of, and the
//! order in which a directory's scripts are applied.

use vstd::prelude::*;
use vstd::relations::sorted_by;
use crate::ddl::{drop_table_ddl, drop_table_sql};
use crate::text::{
    all_digits, contains_str, contains_text, lemma_lex_total, lex_le, lex_le_str, lex_order,
};

verus! {

broadcast use vstd::seq_lib::group_to_multiset_ensures;

/// Why a migration directory could not be created or found.
#[derive(Clone, Copy, Debug, PartialEq, Eq, Structural)]
pub enum MigrationDirError {
    /// A directory of the same timestamp and name is already there.
    AlreadyExists,
    /// No directory matches, or the operator's choice names none of them.
    NotFound,
    /// The system clock reads before 1970 or after the year 9999, so no
    /// timestamp can be written.
    ClockUnavailable,
}

/// The texts of a sequence of strings.
pub open spec fn views(s: Seq<String>) -> Seq<Seq<char>> {
    s.map_values(|x: String| x@)
}

proof fn lemma_views_push(s: Seq<String>, x: String)
    ensures
        views(s.push(x)) == views(s).push(x@),
{
    assert(views(s.push(x)) =~= views(s).push(x@));
}

/// `name` inside directory `base`: a separator is put between them unless
/// `base` is empty (the current directory) or already ends with one.
pub open spec fn join_spec(base: Seq<char>, name: Seq<char>) -> Seq<char> {
    if base.len() == 0 || base.last() == '/' {
        base + name
    } else {
        base + "/"@ + name
    }
}

/// The path of `name` inside directory `base`.
pub fn join_path(base: &str, name: &str) -> (r: String)
    ensures
        r@ == join_spec(base@, name@),
{
    let n = base.unicode_len();
    let mut r = String::from_str(base);
    if n > 0 && base.get_char(n - 1) != '/' {
        r.append("/");
    }
    r.append(name);
    r
}

/// The directory name of migration `name` created at `timestamp`.
pub open spec fn dir_name_spec(timestamp: Seq<char>, name: Seq<char>) -> Seq<char> {
    timestamp + "-"@ + name
}

/// `<timestamp>-<name>`.
pub fn migration_dir_name(timestamp: &str, name: &str) -> (r: String)
    ensures
        r@ == dir_name_spec(timestamp@, name@),
{
    let mut r = String::from_str(timestamp);
    r.append("-");
    r.append(name);
    r
}

/// Where migration `name` created at `timestamp` goes in `base`, whose
/// entries are `existing`: refused when an entry has its name already.
pub open spec fn planned_dir(
    base: Seq<char>,
    existing: Seq<Seq<char>>,
    timestamp: Seq<char>,
    name: Seq<char>,
) -> Result<Seq<char>, MigrationDirError> {
    if existing.contains(dir_name_spec(timestamp, name)) {
        Err(MigrationDirError::AlreadyExists)
    } else {
        Ok(join_spec(base, dir_name_spec(timestamp, name)))
    }
}

/// Whether `names` holds a string with the text `target`.
pub fn holds_name(names: &Vec<String>, target: &String) -> (r: bool)
    ensures
        r == views(names@).contains(target@),
{
    let mut i: usize = 0;
    while i < names.len()
        invariant
            i <= names@.len(),
            forall|k: int| 0 <= k < i ==> names@[k]@ != target@,
        decreases names.len() - i,
    {
        if names[i].eq(target) {
            assert(views(names@)[i as int] == target@);
            return true;
        }
        i = i + 1;
    }
    false
}

/// The path of the directory for migration `name` created at `timestamp`
/// inside `base`, whose entries are `existing`; `AlreadyExists` if one of them
/// has that name.
pub fn plan_migration_dir(
    base: &str,
    existing: &Vec<String>,
    timestamp: &str,
    name: &str,
) -> (r: Result<String, MigrationDirError>)
    ensures
        match r {
            Ok(p) => planned_dir(base@, views(existing@), timestamp@, name@) == Ok::<Seq<char>, MigrationDirError>(p@),
            Err(e) => planned_dir(base@, views(existing@), timestamp@, name@) == Err::<Seq<char>, MigrationDirError>(e),
        },
{
    let dir = migration_dir_name(timestamp, name);
    if holds_name(existing, &dir) {
        Err(MigrationDirError::AlreadyExists)
    } else {
        Ok(join_path(base, dir.as_str()))
    }
}

/// A migration timestamp: fourteen decimal digits (`YYYYMMDDHHMMSS`).
pub open spec fn is_stamp(ts: Seq<char>) -> bool {
    ts.len() == 14 && all_digits(ts)
}

/// The last second of the year 9999, counted from the Unix epoch.
pub const LAST_STAMP_SECOND: u64 = 253402300799;

/// std's `SystemTime`, carried unopened from the clock to the epoch reading.
#[verifier::external_type_specification]
#[verifier::external_body]
pub struct ExSystemTime(std::time::SystemTime);

/// Relies on std's `SystemTime::now`: what the system clock reads.
#[verifier::external_body]
fn clock_now() -> (r: std::time::SystemTime) {
    std::time::SystemTime::now()
}

/// Relies on std's `SystemTime::duration_since` from `UNIX_EPOCH`: the whole
/// seconds since 1970, or none when the time is earlier.
#[verifier::external_body]
fn seconds_since_epoch(t: &std::time::SystemTime) -> (r: Option<u64>) {
    t.duration_since(std::time::UNIX_EPOCH).ok().map(|d| d.as_secs())
}

/// Relies on chrono's `DateTime::from_timestamp` and its `%Y%m%d%H%M%S`
/// format: the UTC time `secs` seconds after 1970 written with the year
/// zero-padded to four digits and month, day, hour, minute and second to two,
/// which is fourteen digits for any time up to the end of the year 9999.
#[verifier::external_body]
fn utc_stamp(secs: i64) -> (r: Option<String>)
    ensures
        0 <= secs <= 253402300799 ==> r.is_some() && is_stamp(r.unwrap()@),
{
    chrono::DateTime::from_timestamp(secs, 0).map(|t| t.format("%Y%m%d%H%M%S").to_string())
}

/// The path of the directory for a new migration `name` inside `base`, whose
/// entries are `existing`, stamped with the current UTC time to the second
/// (fourteen digits); `AlreadyExists` if an entry has that name already, and
/// `ClockUnavailable` if the clock cannot give such a stamp.
pub fn create_migration_dir(
    base: &str,
    existing: &Vec<String>,
    name: &str,
) -> (r: Result<String, MigrationDirError>)
    ensures
        match r {
            Ok(p) => exists|ts: Seq<char>|
                is_stamp(ts) && #[trigger] planned_dir(base@, views(existing@), ts, name@)
                    == Ok::<Seq<char>, MigrationDirError>(p@),
            Err(MigrationDirError::AlreadyExists) => exists|ts: Seq<char>|
                is_stamp(ts) && #[trigger] planned_dir(base@, views(existing@), ts, name@)
                    == Err::<Seq<char>, MigrationDirError>(MigrationDirError::AlreadyExists),
            Err(MigrationDirError::NotFound) => false,
            Err(MigrationDirError::ClockUnavailable) => true,
        },
{
    let now = clock_now();
    let secs = match seconds_since_epoch(&now) {
        Some(s) => s,
        None => return Err(MigrationDirError::ClockUnavailable),
    };
    if secs > LAST_STAMP_SECOND {
        return Err(MigrationDirError::ClockUnavailable);
    }
    let stamp = match utc_stamp(secs as i64) {
        Some(s) => s,
        None => return Err(MigrationDirError::ClockUnavailable),
    };
    let r = plan_migration_dir(base, existing, stamp.as_str(), name);
    assert(is_stamp(stamp@));
    r
}

/// Creating a migration directory is not idempotent: once the directory for
/// a name and timestamp is there, planning the same name within the same
/// second fails with `AlreadyExists`.
pub proof fn lemma_second_creation_collides(
    base: Seq<char>,
    existing: Seq<Seq<char>>,
    timestamp: Seq<char>,
    name: Seq<char>,
)
    requires
        planned_dir(base, existing, timestamp, name) is Ok,
    ensures
        planned_dir(base, existing.push(dir_name_spec(timestamp, name)), timestamp, name)
            == Err::<Seq<char>, MigrationDirError>(MigrationDirError::AlreadyExists),
{
    assert(existing.push(dir_name_spec(timestamp, name)).last() == dir_name_spec(timestamp, name));
}


/// The names among `names` that contain `needle`, in their order.
pub open spec fn matching(names: Seq<Seq<char>>, needle: Seq<char>) -> Seq<Seq<char>>
    decreases names.len(),
{
    if names.len() == 0 {
        Seq::empty()
    } else {
        let rest = matching(names.drop_last(), needle);
        if contains_text(names.last(), needle) {
            rest.push(names.last())
        } else {
            rest
        }
    }
}

/// The names among `names` that contain `needle`, in their order.
pub fn matching_dirs(names: &Vec<String>, needle: &str) -> (r: Vec<String>)
    ensures
        views(r@) == matching(views(names@), needle@),
{
    let mut r: Vec<String> = Vec::new();
    let mut i: usize = 0;
    while i < names.len()
        invariant
            i <= names@.len(),
            views(r@) == matching(views(names@.subrange(0, i as int)), needle@),
        decreases names.len() - i,
    {
        proof {
            assert(views(names@.subrange(0, i + 1)).drop_last() =~= views(names@.subrange(0, i as int)));
        }
        if contains_str(names[i].as_str(), needle) {
            proof { lemma_views_push(r@, names@[i as int]); }
            r.push(names[i].clone());
        }
        i = i + 1;
    }
    assert(names@.subrange(0, names@.len() as int) =~= names@);
    r
}

/// The outcome of looking a migration up by part of its name.
#[derive(Clone, Debug)]
pub enum MigrationLookup {
    /// Exactly one directory matches: its path.
    Found(String),
    /// Several match: their names, for the operator to choose from.
    Ambiguous(Vec<String>),
    /// None matches.
    NotFound,
}

/// Looks up the migration directory whose name contains `migration_name`
/// among `dir_names`, the subdirectories of `base`. With exactly one match its
/// path is returned at once; with several, their names are handed back for
/// the operator to choose (see `choose_migration_dir`).
pub fn find_migration_dir(base: &str, dir_names: &Vec<String>, migration_name: &str) -> (r: MigrationLookup)
    ensures
        ({
            let m = matching(views(dir_names@), migration_name@);
            &&& m.len() == 0 ==> r is NotFound
            &&& m.len() == 1 ==> (r matches MigrationLookup::Found(p) && p@ == join_spec(base@, m[0]))
            &&& m.len() > 1 ==> (r matches MigrationLookup::Ambiguous(c) && views(c@) == m)
        }),
{
    let m = matching_dirs(dir_names, migration_name);
    if m.len() == 0 {
        MigrationLookup::NotFound
    } else if m.len() == 1 {
        proof { assert(views(m@)[0] == m@[0]@); }
        MigrationLookup::Found(join_path(base, m[0].as_str()))
    } else {
        MigrationLookup::Ambiguous(m)
    }
}

/// The path of the candidate that the operator's `answer` names exactly;
/// `NotFound` if it names none of them.
pub fn choose_migration_dir(base: &str, candidates: &Vec<String>, answer: &str) -> (r: Result<String, MigrationDirError>)
    ensures
        views(candidates@).contains(answer@) ==> (r matches Ok(p) && p@ == join_spec(base@, answer@)),
        !views(candidates@).contains(answer@) ==> r == Err::<String, MigrationDirError>(MigrationDirError::NotFound),
{
    let a = String::from_str(answer);
    if holds_name(candidates, &a) {
        Ok(join_path(base, answer))
    } else {
        Err(MigrationDirError::NotFound)
    }
}


/// `listed` is `names` sorted lexicographically.
pub open spec fn is_listing(names: Seq<Seq<char>>, listed: Seq<Seq<char>>) -> bool {
    &&& sorted_by(listed, lex_order())
    &&& listed.to_multiset() == names.to_multiset()
}

proof fn lemma_insert_keeps_sorted(s: Seq<Seq<char>>, x: Seq<char>, j: int)
    requires
        0 <= j <= s.len(),
        sorted_by(s, lex_order()),
        forall|k: int| 0 <= k < j ==> lex_le(#[trigger] s[k], x),
        j < s.len() ==> !lex_le(s[j], x),
    ensures
        sorted_by(s.insert(j, x), lex_order()),
{
    lemma_lex_total();
    let t = s.insert(j, x);
    assert forall|a: int, b: int| 0 <= a < b < t.len() implies #[trigger] lex_order()(t[a], t[b]) by {
        if b < j {
            assert(lex_order()(s[a], s[b]));
        } else if b == j {
            assert(lex_le(s[a], x));
        } else if a < j {
            assert(lex_order()(s[a], s[b - 1]));
        } else if a == j {
            assert(lex_order()(s[j], x) || lex_order()(x, s[j]));
            if b - 1 > j {
                assert(lex_order()(s[j], s[b - 1]));
            }
        } else {
            assert(lex_order()(s[a - 1], s[b - 1]));
        }
    }
}

/// A directory's file names, sorted lexicographically (so `down.sql` comes
/// before `up.sql`).
pub fn list_migration_files(names: &Vec<String>) -> (r: Vec<String>)
    ensures
        is_listing(views(names@), views(r@)),
{
    let mut r: Vec<String> = Vec::new();
    let mut i: usize = 0;
    while i < names.len()
        invariant
            i <= names@.len(),
            sorted_by(views(r@), lex_order()),
            views(r@).to_multiset() == views(names@.subrange(0, i as int)).to_multiset(),
        decreases names.len() - i,
    {
        let x = names[i].clone();
        let mut j: usize = 0;
        while j < r.len() && lex_le_str(r[j].as_str(), x.as_str())
            invariant
                j <= r@.len(),
                forall|k: int| 0 <= k < j ==> lex_le(#[trigger] views(r@)[k], x@),
            decreases r.len() - j,
        {
            j = j + 1;
        }
        proof {
            lemma_insert_keeps_sorted(views(r@), x@, j as int);
            assert(views(r@.insert(j as int, x)) =~= views(r@).insert(j as int, x@));
            assert(views(names@.subrange(0, i + 1)) =~= views(names@.subrange(0, i as int)).push(x@));
        }
        r.insert(j, x);
        i = i + 1;
    }
    assert(names@.subrange(0, names@.len() as int) =~= names@);
    r
}


/// A file name that the executor applies: its extension is `sql`.
pub open spec fn is_sql_name(s: Seq<char>) -> bool {
    &&& s.len() > 4
    &&& s[s.len() - 4] == '.'
    &&& s[s.len() - 3] == 's'
    &&& s[s.len() - 2] == 'q'
    &&& s[s.len() - 1] == 'l'
}

/// The names among `names` with the extension `sql`, in their order.
pub open spec fn sql_files(names: Seq<Seq<char>>) -> Seq<Seq<char>>
    decreases names.len(),
{
    if names.len() == 0 {
        Seq::empty()
    } else {
        let rest = sql_files(names.drop_last());
        if is_sql_name(names.last()) {
            rest.push(names.last())
        } else {
            rest
        }
    }
}

/// Whether file `name` has the extension `sql`.
pub fn is_sql_file(name: &str) -> (r: bool)
    ensures
        r == is_sql_name(name@),
{
    let n = name.unicode_len();
    n > 4 && name.get_char(n - 4) == '.' && name.get_char(n - 3) == 's' && name.get_char(n - 2)
        == 'q' && name.get_char(n - 1) == 'l'
}

/// The scripts of a migration directory whose entries are `names`, in the
/// order they are applied: the `.sql` files, sorted lexicographically. Other
/// files are skipped.
pub fn migration_scripts(names: &Vec<String>) -> (r: Vec<String>)
    ensures
        is_listing(sql_files(views(names@)), views(r@)),
{
    let mut sql: Vec<String> = Vec::new();
    let mut i: usize = 0;
    while i < names.len()
        invariant
            i <= names@.len(),
            views(sql@) == sql_files(views(names@.subrange(0, i as int))),
        decreases names.len() - i,
    {
        proof {
            assert(views(names@.subrange(0, i + 1)).drop_last() =~= views(names@.subrange(0, i as int)));
        }
        if is_sql_file(names[i].as_str()) {
            proof { lemma_views_push(sql@, names@[i as int]); }
            sql.push(names[i].clone());
        }
        i = i + 1;
    }
    assert(names@.subrange(0, names@.len() as int) =~= names@);
    list_migration_files(&sql)
}

/// A file to be written: where, and what.
#[derive(Clone, Debug)]
pub struct MigrationFile {
    pub path: String,
    pub contents: String,
}

/// The names of the two files of a migration, in the order they are written.
pub open spec fn written_file_names() -> Seq<Seq<char>> {
    seq!["up.sql"@, "down.sql"@]
}

/// The files of migration directory `dir` for table `table_name`: `up.sql`
/// holds `up_sql`, and `down.sql` holds `down_sql` followed by
/// `DROP TABLE <table>;`. The backward script only ever drops the table.
pub fn write_migration(dir: &str, up_sql: &str, down_sql: &str, table_name: &str) -> (r: Vec<MigrationFile>)
    ensures
        r@.len() == 2,
        r@[0].path@ == join_spec(dir@, written_file_names()[0]),
        r@[0].contents@ == up_sql@,
        r@[1].path@ == join_spec(dir@, written_file_names()[1]),
        r@[1].contents@ == down_sql@ + drop_table_ddl(table_name@),
{
    let up = MigrationFile { path: join_path(dir, "up.sql"), contents: String::from_str(up_sql) };
    let mut down_contents = String::from_str(down_sql);
    let drop = drop_table_sql(table_name);
    down_contents.append(drop.as_str());
    let down = MigrationFile { path: join_path(dir, "down.sql"), contents: down_contents };
    vec![up, down]
}

/// Listing a freshly written migration directory gives exactly its two files,
/// `down.sql` first and `up.sql` second: the order of their names, not of
/// their writing.
pub proof fn lemma_written_migration_lists_down_then_up(listed: Seq<Seq<char>>)
    requires
        is_listing(written_file_names(), listed),
    ensures
        listed == seq!["down.sql"@, "up.sql"@],
{
    reveal_strlit("up.sql");
    reveal_strlit("down.sql");
    let up = "up.sql"@;
    let down = "down.sql"@;
    let w = written_file_names();
    assert(up != down) by {
        assert(up[0] != down[0]);
    }
    assert(!lex_le(up, down)) by {
        assert(up[0] != down[0]);
    }
    vstd::seq_lib::to_multiset_len(listed);
    vstd::seq_lib::to_multiset_len(w);
    assert(listed.len() == 2);
    assert(w[0] == up && w[1] == down);
    vstd::seq_lib::to_multiset_contains(w, up);
    vstd::seq_lib::to_multiset_contains(w, down);
    vstd::seq_lib::to_multiset_contains(listed, up);
    vstd::seq_lib::to_multiset_contains(listed, down);
    assert(w.contains(up));
    assert(w.contains(down));
    assert(listed.contains(up));
    assert(listed.contains(down));
    vstd::seq_lib::to_multiset_contains(listed, listed[0]);
    vstd::seq_lib::to_multiset_contains(w, listed[0]);
    vstd::seq_lib::to_multiset_contains(listed, listed[1]);
    vstd::seq_lib::to_multiset_contains(w, listed[1]);
    assert(listed.contains(listed[0]));
    assert(listed.contains(listed[1]));
    assert(listed[0] == up || listed[0] == down);
    assert(listed[1] == up || listed[1] == down);
    assert(lex_order()(listed[0], listed[1]));
    assert(listed =~= seq![down, up]);
}

/// The paths an initial migration is written to.
#[derive(Clone, Debug)]
pub struct Project {
    pub initial_migration_directory: String,
    pub initial_migration_up: String,
    pub initial_migration_down: String,
}

/// What setting up a project's first migration writes: the directory to
/// create (if absent) and the two files, overwritten if present.
#[derive(Clone, Debug)]
pub struct InitialMigration {
    pub migrations_dir: String,
    pub files: Vec<MigrationFile>,
}

/// The forward script of the first migration: the `users` table.
pub open spec fn initial_up_sql() -> Seq<char> {
    "CREATE TABLE IF NOT EXISTS users (\n    id SERIAL PRIMARY KEY,\n    name VARCHAR(255) NOT NULL,\n    email VARCHAR(255) NOT NULL,\n    password VARCHAR(255) NOT NULL,\n    created_at TIMESTAMP NOT NULL,\n    updated_at TIMESTAMP NOT NULL\n);\n"@
}

/// The backward script of the first migration.
pub open spec fn initial_down_sql() -> Seq<char> {
    "DROP TABLE IF EXISTS users;\n"@
}

/// The first migration of `project`: the directory `migrations` inside its
/// initial migration directory, `users` table creation at its up path and
/// the table's removal at its down path.
pub fn initialize_migration(project: &Project) -> (r: InitialMigration)
    ensures
        r.migrations_dir@ == join_spec(project.initial_migration_directory@, "migrations"@),
        r.files@.len() == 2,
        r.files@[0].path@ == project.initial_migration_up@,
        r.files@[0].contents@ == initial_up_sql(),
        r.files@[1].path@ == project.initial_migration_down@,
        r.files@[1].contents@ == initial_down_sql(),
{
    let up = MigrationFile {
        path: project.initial_migration_up.clone(),
        contents: String::from_str(
            "CREATE TABLE IF NOT EXISTS users (\n    id SERIAL PRIMARY KEY,\n    name VARCHAR(255) NOT NULL,\n    email VARCHAR(255) NOT NULL,\n    password VARCHAR(255) NOT NULL,\n    created_at TIMESTAMP NOT NULL,\n    updated_at TIMESTAMP NOT NULL\n);\n",
        ),
    };
    let down = MigrationFile {
        path: project.initial_migration_down.clone(),
        contents: String::from_str("DROP TABLE IF EXISTS users;\n"),
    };
    InitialMigration {
        migrations_dir: join_path(project.initial_migration_directory.as_str(), "migrations"),
        files: vec![up, down],
    }
}

} // verus!
