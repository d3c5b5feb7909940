//! The interactive definition of a table's columns, as a state machine that
//! takes one line of operator input at a time. Input that does not parse
//! leaves the state as it was, so the same prompt is asked again.

use vstd::prelude::*;
use crate::catalog::{
    all_categories, categories, supports_category, types_for, types_of, ColumnType,
    DataTypeCategory, DatabaseType,
};
use crate::ddl::{column_ddl, drop_table_ddl, drop_table_sql, emit_column_ddl, TypeArgs};
use crate::text::{decimal_u64, is_blank, parse_decimal, trim, trim_spec};

verus! {

/// The question the elicitor is waiting to have answered.
#[derive(Clone, Copy, Debug, PartialEq, Eq, Structural)]
pub enum Stage {
    AskCount,
    AskName,
    AskCategory,
    AskType,
    AskLength,
    AskDimensions,
    AskElement,
    AskSize,
    AskConstraints,
    AskNullable,
    Done,
}

/// The constraints chosen for a column.
#[derive(Clone, Copy, Debug, PartialEq, Eq, Structural)]
pub struct Constraints {
    pub primary_key: bool,
    pub not_null: bool,
    pub foreign_key: bool,
}

/// No constraint chosen.
pub open spec fn no_constraints() -> Constraints {
    Constraints { primary_key: false, not_null: false, foreign_key: false }
}

/// The constraints that the answer `t` selects, starting from `acc`: menu
/// numbers `1` (primary key), `2` (not null) and `3` (foreign key), separated
/// by commas or blanks; any other character makes the answer invalid.
pub open spec fn constraints_of(t: Seq<char>, acc: Constraints) -> Option<Constraints>
    decreases t.len(),
{
    if t.len() == 0 {
        Some(acc)
    } else {
        let c = t[0];
        let rest = t.drop_first();
        if c == '1' {
            constraints_of(rest, Constraints { primary_key: true, ..acc })
        } else if c == '2' {
            constraints_of(rest, Constraints { not_null: true, ..acc })
        } else if c == '3' {
            constraints_of(rest, Constraints { foreign_key: true, ..acc })
        } else if c == ',' || is_blank(c) {
            constraints_of(rest, acc)
        } else {
            None
        }
    }
}

/// The index (from zero) that a 1-based menu answer `t` picks among `len`
/// entries.
pub open spec fn menu_choice(t: Seq<char>, len: nat) -> Option<nat> {
    match decimal_u64(t) {
        Some(k) => if 1 <= k <= len {
            Some((k - 1) as nat)
        } else {
            None
        },
        None => None,
    }
}

/// The answer to a yes/no question: `y` or `n`, in either case.
pub open spec fn yes_no(t: Seq<char>) -> Option<bool> {
    if t.len() == 1 && (t[0] == 'y' || t[0] == 'Y') {
        Some(true)
    } else if t.len() == 1 && (t[0] == 'n' || t[0] == 'N') {
        Some(false)
    } else {
        None
    }
}

/// The question that follows the choice of a concrete type.
pub open spec fn stage_after_type(ty: ColumnType) -> Stage {
    if ty == ColumnType::VarChar {
        Stage::AskLength
    } else if ty == ColumnType::Array {
        Stage::AskDimensions
    } else {
        Stage::AskConstraints
    }
}

/// The abstract state of an elicitor.
pub struct ElicitorView {
    pub dialect: DatabaseType,
    pub table: Seq<char>,
    pub stage: Stage,
    /// The columns still to define, the one being defined included.
    pub remaining: nat,
    pub column: Seq<char>,
    pub category: DataTypeCategory,
    pub column_type: ColumnType,
    pub length: Seq<char>,
    pub dimensions: nat,
    pub element: Seq<char>,
    pub size: Seq<char>,
    pub constraints: Constraints,
    /// The forward statements accumulated so far.
    pub up: Seq<char>,
}

/// The state once the column being defined is complete: its statement and a
/// line break are added to the forward statements.
pub open spec fn emit_column(v: ElicitorView, nullable: bool) -> ElicitorView {
    ElicitorView {
        up: v.up + column_ddl(v.table, v.column, v.column_type, v.length, v.element, v.size, nullable)
            + "\n"@,
        remaining: if v.remaining <= 1 {
            0
        } else {
            (v.remaining - 1) as nat
        },
        stage: if v.remaining <= 1 {
            Stage::Done
        } else {
            Stage::AskName
        },
        ..v
    }
}

/// Whether `input` answers the question that `v` waits on.
pub open spec fn accepts(v: ElicitorView, input: Seq<char>) -> bool {
    let t = trim_spec(input);
    match v.stage {
        Stage::AskCount => decimal_u64(t).is_some(),
        Stage::AskName => t.len() > 0,
        Stage::AskCategory => match menu_choice(t, all_categories().len()) {
            Some(k) => types_of(all_categories()[k as int], v.dialect).len() > 0,
            None => false,
        },
        Stage::AskType => menu_choice(t, types_of(v.category, v.dialect).len()).is_some(),
        Stage::AskLength => t.len() > 0,
        Stage::AskDimensions => match decimal_u64(t) {
            Some(n) => n > 0,
            None => false,
        },
        Stage::AskElement => t.len() > 0,
        Stage::AskSize => t.len() > 0,
        Stage::AskConstraints => constraints_of(t, no_constraints()).is_some(),
        Stage::AskNullable => yes_no(t).is_some(),
        Stage::Done => false,
    }
}

/// The state after `input` is given to an elicitor in state `v`. Answers are
/// read without their surrounding blanks; one that does not parse leaves the
/// state unchanged.
pub open spec fn step(v: ElicitorView, input: Seq<char>) -> ElicitorView {
    let t = trim_spec(input);
    if !accepts(v, input) {
        v
    } else {
        match v.stage {
            Stage::AskCount => {
                let n = decimal_u64(t).unwrap();
                if n == 0 {
                    ElicitorView { stage: Stage::Done, remaining: 0, ..v }
                } else {
                    ElicitorView { stage: Stage::AskName, remaining: n as nat, ..v }
                }
            },
            Stage::AskName => ElicitorView { stage: Stage::AskCategory, column: t, ..v },
            Stage::AskCategory => ElicitorView {
                stage: Stage::AskType,
                category: all_categories()[menu_choice(t, all_categories().len()).unwrap() as int],
                ..v
            },
            Stage::AskType => {
                let ty = types_of(v.category, v.dialect)[menu_choice(
                    t,
                    types_of(v.category, v.dialect).len(),
                ).unwrap() as int];
                ElicitorView { stage: stage_after_type(ty), column_type: ty, ..v }
            },
            Stage::AskLength => ElicitorView { stage: Stage::AskConstraints, length: t, ..v },
            Stage::AskDimensions => ElicitorView {
                stage: Stage::AskElement,
                dimensions: decimal_u64(t).unwrap() as nat,
                ..v
            },
            Stage::AskElement => ElicitorView { stage: Stage::AskSize, element: t, ..v },
            Stage::AskSize => ElicitorView { stage: Stage::AskConstraints, size: t, ..v },
            Stage::AskConstraints => ElicitorView {
                stage: Stage::AskNullable,
                constraints: constraints_of(t, no_constraints()).unwrap(),
                ..v
            },
            Stage::AskNullable => emit_column(v, yes_no(t).unwrap()),
            Stage::Done => v,
        }
    }
}


/// Reads a 1-based menu answer among `len` entries as an index from zero.
pub fn parse_menu_choice(t: &str, len: usize) -> (r: Option<usize>)
    ensures
        match menu_choice(t@, len as nat) {
            Some(k) => r == Some(k as usize),
            None => r.is_none(),
        },
{
    match parse_decimal(t) {
        Some(k) => if 1 <= k && k <= len as u64 {
            Some((k - 1) as usize)
        } else {
            None
        },
        None => None,
    }
}

/// Reads a yes/no answer.
pub fn parse_yes_no(t: &str) -> (r: Option<bool>)
    ensures
        r == yes_no(t@),
{
    if t.unicode_len() != 1 {
        return None;
    }
    let c = t.get_char(0);
    if c == 'y' || c == 'Y' {
        Some(true)
    } else if c == 'n' || c == 'N' {
        Some(false)
    } else {
        None
    }
}

/// Reads the constraints chosen for a column.
pub fn parse_constraints(t: &str) -> (r: Option<Constraints>)
    ensures
        r == constraints_of(t@, no_constraints()),
{
    let n = t.unicode_len();
    let mut acc = Constraints { primary_key: false, not_null: false, foreign_key: false };
    let mut i: usize = 0;
    assert(t@.subrange(0, n as int) =~= t@);
    while i < n
        invariant
            i <= n,
            n == t@.len(),
            constraints_of(t@, no_constraints()) == constraints_of(t@.subrange(i as int, n as int), acc),
        decreases n - i,
    {
        let c = t.get_char(i);
        assert(t@.subrange(i as int, n as int).drop_first() =~= t@.subrange(i + 1, n as int));
        if c == '1' {
            acc = Constraints { primary_key: true, ..acc };
        } else if c == '2' {
            acc = Constraints { not_null: true, ..acc };
        } else if c == '3' {
            acc = Constraints { foreign_key: true, ..acc };
        } else if c == ',' || crate::text::is_blank_char(c) {
        } else {
            return None;
        }
        i = i + 1;
    }
    Some(acc)
}

/// The operator dialogue that defines the columns of one table.
pub struct Elicitor {
    dialect: DatabaseType,
    table_name: String,
    stage: Stage,
    remaining: u64,
    column_name: String,
    category: DataTypeCategory,
    column_type: ColumnType,
    args: TypeArgs,
    constraints: Constraints,
    up_sql: String,
}

impl View for Elicitor {
    type V = ElicitorView;

    closed spec fn view(&self) -> ElicitorView {
        ElicitorView {
            dialect: self.dialect,
            table: self.table_name@,
            stage: self.stage,
            remaining: self.remaining as nat,
            column: self.column_name@,
            category: self.category,
            column_type: self.column_type,
            length: self.args.length@,
            dimensions: self.args.dimensions as nat,
            element: self.args.element@,
            size: self.args.size@,
            constraints: self.constraints,
            up: self.up_sql@,
        }
    }
}

/// The question asked at each stage.
pub open spec fn prompt_text(stage: Stage) -> Seq<char> {
    match stage {
        Stage::AskCount => "Enter the number of columns: "@,
        Stage::AskName => "Enter the name of the column: "@,
        Stage::AskCategory => "Enter the type of the column: "@,
        Stage::AskType => "Enter the type of the column: "@,
        Stage::AskLength => "Enter the length of the string: "@,
        Stage::AskDimensions => "How many dimensions should the array have? "@,
        Stage::AskElement => "What type should the array have? "@,
        Stage::AskSize => "What should the size of the array be? "@,
        Stage::AskConstraints => "Enter the constraints of the column: "@,
        Stage::AskNullable => "Is the column nullable? (y/n): "@,
        Stage::Done => ""@,
    }
}

impl Elicitor {
    /// An elicitor for the columns of `table_name` in `dialect`, about to ask
    /// how many columns there are.
    pub fn new(table_name: &str, dialect: DatabaseType) -> (r: Elicitor)
        ensures
            r@.dialect == dialect,
            r@.table == table_name@,
            r@.stage == Stage::AskCount,
            r@.remaining == 0,
            r@.up == Seq::<char>::empty(),
    {
        Elicitor {
            dialect,
            table_name: String::from_str(table_name),
            stage: Stage::AskCount,
            remaining: 0,
            column_name: String::new(),
            category: DataTypeCategory::Array,
            column_type: ColumnType::Array,
            args: TypeArgs::none(),
            constraints: Constraints { primary_key: false, not_null: false, foreign_key: false },
            up_sql: String::new(),
        }
    }

    /// The stage the elicitor is in.
    pub fn stage(&self) -> (r: Stage)
        ensures
            r == self@.stage,
    {
        self.stage
    }

    /// The dialect the columns are defined for.
    pub fn dialect(&self) -> (r: DatabaseType)
        ensures
            r == self@.dialect,
    {
        self.dialect
    }

    /// The category chosen for the column being defined.
    pub fn category(&self) -> (r: DataTypeCategory)
        ensures
            r == self@.category,
    {
        self.category
    }

    /// Whether every column has been defined.
    pub fn is_done(&self) -> (r: bool)
        ensures
            r == (self@.stage == Stage::Done),
    {
        self.stage == Stage::Done
    }

    /// The question to ask now.
    pub fn prompt(&self) -> (r: &'static str)
        ensures
            r@ == prompt_text(self@.stage),
    {
        match self.stage {
            Stage::AskCount => "Enter the number of columns: ",
            Stage::AskName => "Enter the name of the column: ",
            Stage::AskCategory => "Enter the type of the column: ",
            Stage::AskType => "Enter the type of the column: ",
            Stage::AskLength => "Enter the length of the string: ",
            Stage::AskDimensions => "How many dimensions should the array have? ",
            Stage::AskElement => "What type should the array have? ",
            Stage::AskSize => "What should the size of the array be? ",
            Stage::AskConstraints => "Enter the constraints of the column: ",
            Stage::AskNullable => "Is the column nullable? (y/n): ",
            Stage::Done => "",
        }
    }

    /// The forward statements accumulated so far.
    pub fn up_sql(&self) -> (r: &str)
        ensures
            r@ == self@.up,
    {
        self.up_sql.as_str()
    }

    /// The backward statement of the migration: the table is dropped.
    pub fn down_sql(&self) -> (r: String)
        ensures
            r@ == drop_table_ddl(self@.table),
    {
        drop_table_sql(self.table_name.as_str())
    }

    /// Gives one line of operator input to the elicitor. Returns whether the
    /// line answered the pending question; if not, nothing changes and the
    /// same question is to be asked again.
    pub fn feed(&mut self, input: &str) -> (accepted: bool)
        ensures
            accepted == accepts(old(self)@, input@),
            final(self)@ == step(old(self)@, input@),
    {
        let t = trim(input);
        match self.stage {
            Stage::AskCount => match parse_decimal(t) {
                Some(n) => {
                    if n == 0 {
                        self.stage = Stage::Done;
                    } else {
                        self.stage = Stage::AskName;
                    }
                    self.remaining = n;
                    true
                },
                None => false,
            },
            Stage::AskName => {
                if t.unicode_len() == 0 {
                    return false;
                }
                self.column_name = String::from_str(t);
                self.stage = Stage::AskCategory;
                true
            },
            Stage::AskCategory => {
                let cats = categories();
                match parse_menu_choice(t, cats.len()) {
                    Some(k) => {
                        let c = cats[k];
                        if !supports_category(c, self.dialect) {
                            return false;
                        }
                        self.category = c;
                        self.stage = Stage::AskType;
                        true
                    },
                    None => false,
                }
            },
            Stage::AskType => {
                let types = types_for(self.category, self.dialect);
                match parse_menu_choice(t, types.len()) {
                    Some(k) => {
                        let ty = types[k];
                        self.column_type = ty;
                        self.stage = if ty == ColumnType::VarChar {
                            Stage::AskLength
                        } else if ty == ColumnType::Array {
                            Stage::AskDimensions
                        } else {
                            Stage::AskConstraints
                        };
                        true
                    },
                    None => false,
                }
            },
            Stage::AskLength => {
                if t.unicode_len() == 0 {
                    return false;
                }
                self.args.length = String::from_str(t);
                self.stage = Stage::AskConstraints;
                true
            },
            Stage::AskDimensions => match parse_decimal(t) {
                Some(n) => {
                    if n == 0 {
                        return false;
                    }
                    self.args.dimensions = n;
                    self.stage = Stage::AskElement;
                    true
                },
                None => false,
            },
            Stage::AskElement => {
                if t.unicode_len() == 0 {
                    return false;
                }
                self.args.element = String::from_str(t);
                self.stage = Stage::AskSize;
                true
            },
            Stage::AskSize => {
                if t.unicode_len() == 0 {
                    return false;
                }
                self.args.size = String::from_str(t);
                self.stage = Stage::AskConstraints;
                true
            },
            Stage::AskConstraints => match parse_constraints(t) {
                Some(cs) => {
                    self.constraints = cs;
                    self.stage = Stage::AskNullable;
                    true
                },
                None => false,
            },
            Stage::AskNullable => match parse_yes_no(t) {
                Some(nullable) => {
                    let fragment = emit_column_ddl(
                        self.table_name.as_str(),
                        self.column_name.as_str(),
                        self.column_type,
                        &self.args,
                        nullable,
                    );
                    self.up_sql.append(fragment.as_str());
                    self.up_sql.append("\n");
                    if self.remaining <= 1 {
                        self.remaining = 0;
                        self.stage = Stage::Done;
                    } else {
                        self.remaining = self.remaining - 1;
                        self.stage = Stage::AskName;
                    }
                    true
                },
                None => false,
            },
            Stage::Done => false,
        }
    }
}

/// Input that does not answer the pending question leaves the elicitor's
/// state unchanged, so the same question is asked again.
pub proof fn lemma_rejected_input_keeps_state(v: ElicitorView, input: Seq<char>)
    requires
        !accepts(v, input),
    ensures
        step(v, input) == v,
{
}

/// Answers only ever add to the forward statements: what was accumulated
/// stays a prefix of what follows, and the dialect and table never change.
pub proof fn lemma_statements_only_grow(v: ElicitorView, input: Seq<char>)
    ensures
        v.up.is_prefix_of(step(v, input).up),
        step(v, input).table == v.table,
        step(v, input).dialect == v.dialect,
{
    assert(v.up.is_prefix_of(step(v, input).up)) by {
        let w = step(v, input);
        assert forall|i: int| 0 <= i < v.up.len() implies v.up[i] == w.up[i] by {
            if w.up != v.up {
                let n = yes_no(trim_spec(input)).unwrap();
                assert(w.up == v.up + column_ddl(v.table, v.column, v.column_type, v.length, v.element, v.size, n) + "\n"@);
            }
        }
    }
}

/// Once every column is defined, the elicitor accepts nothing more and its
/// statements stay as they are.
pub proof fn lemma_done_is_final(v: ElicitorView, input: Seq<char>)
    requires
        v.stage == Stage::Done,
    ensures
        !accepts(v, input),
        step(v, input) == v,
{
}

} // verus!
