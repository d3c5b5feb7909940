//! The application of a migration directory's scripts, as a state machine:
//! the caller performs each step it is told to (read a script and run it
//! against the database) and reports back how it went.

use vstd::prelude::*;
use crate::migrations::{is_listing, join_path, join_spec, migration_scripts, sql_files, views};

verus! {

/// What the caller is to do next.
#[derive(Clone, Debug)]
pub enum RunStep {
    /// Read the script at this path and execute it.
    Apply(String),
    /// Every script has been applied.
    Finished,
    /// A script failed; the run is over and nothing more is applied.
    Aborted,
}

/// The abstract state of a run.
pub struct RunView {
    pub dir: Seq<char>,
    /// The scripts, in the order they are applied.
    pub scripts: Seq<Seq<char>>,
    /// How many scripts have been applied.
    pub next: nat,
    /// The rows that each applied script affected, in order.
    pub rows: Seq<u64>,
    pub failed: bool,
}

/// The step that a run in state `v` asks for.
pub open spec fn step_of(v: RunView) -> Option<Seq<char>> {
    if !v.failed && v.next < v.scripts.len() {
        Some(join_spec(v.dir, v.scripts[v.next as int]))
    } else {
        None
    }
}

/// The run of a migration directory's scripts.
pub struct MigrationRun {
    dir: String,
    scripts: Vec<String>,
    next: usize,
    rows: Vec<u64>,
    failed: bool,
}

impl View for MigrationRun {
    type V = RunView;

    closed spec fn view(&self) -> RunView {
        RunView {
            dir: self.dir@,
            scripts: views(self.scripts@),
            next: self.next as nat,
            rows: self.rows@,
            failed: self.failed,
        }
    }
}

impl MigrationRun {
    /// A run over directory `dir` whose entries are `entries`: its `.sql`
    /// files in lexicographic order, none applied yet.
    pub fn new(dir: &str, entries: &Vec<String>) -> (r: MigrationRun)
        ensures
            r@.dir == dir@,
            is_listing(sql_files(views(entries@)), r@.scripts),
            r@.next == 0,
            r@.rows == Seq::<u64>::empty(),
            !r@.failed,
    {
        MigrationRun {
            dir: String::from_str(dir),
            scripts: migration_scripts(entries),
            next: 0,
            rows: Vec::new(),
            failed: false,
        }
    }

    /// What to do next: apply the next script, or stop.
    pub fn next_step(&self) -> (r: RunStep)
        ensures
            match step_of(self@) {
                Some(p) => r matches RunStep::Apply(q) && q@ == p,
                None => if self@.failed {
                    r is Aborted
                } else {
                    r is Finished
                },
            },
    {
        if self.failed {
            RunStep::Aborted
        } else if self.next < self.scripts.len() {
            proof { assert(views(self.scripts@)[self.next as int] == self.scripts@[self.next as int]@); }
            RunStep::Apply(join_path(self.dir.as_str(), self.scripts[self.next].as_str()))
        } else {
            RunStep::Finished
        }
    }

    /// Records that the script asked for affected `rows` rows; the run moves
    /// on to the next one. Outside of a pending step nothing changes.
    pub fn applied(&mut self, rows: u64)
        ensures
            step_of(old(self)@) is Some ==> final(self)@ == (RunView {
                next: old(self)@.next + 1,
                rows: old(self)@.rows.push(rows),
                ..old(self)@
            }),
            step_of(old(self)@) is None ==> final(self)@ == old(self)@,
    {
        if !self.failed && self.next < self.scripts.len() {
            self.rows.push(rows);
            self.next = self.next + 1;
        }
    }

    /// Records that the script asked for could not be read or executed: the
    /// run is aborted.
    pub fn failed(&mut self)
        ensures
            final(self)@ == (RunView { failed: true, ..old(self)@ }),
    {
        self.failed = true;
    }

    /// The rows that each applied script affected, in order.
    pub fn rows_affected(&self) -> (r: &Vec<u64>)
        ensures
            r@ == self@.rows,
    {
        &self.rows
    }
}

/// A failure is final: an aborted run asks for no further script, whatever
/// is reported to it afterwards.
pub proof fn lemma_failure_is_fatal(v: RunView)
    requires
        v.failed,
    ensures
        step_of(v) is None,
{
}

} // verus!
