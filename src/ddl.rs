//! The SQL fragments emitted for one column, and the inverse statement.

use vstd::prelude::*;
use crate::catalog::{sql_keyword, ColumnType};
use crate::text::{contains_text, occurs_at};

verus! {

/// The parameters that some column types take besides their name: the length
/// of a `VarChar`, and the dimension count, element type and size of an
/// `Array`. Other types ignore them.
#[derive(Clone, Debug)]
pub struct TypeArgs {
    pub length: String,
    pub dimensions: u64,
    pub element: String,
    pub size: String,
}

impl TypeArgs {
    /// Arguments for a type that takes none.
    pub fn none() -> (r: TypeArgs)
        ensures
            r.length@ == Seq::<char>::empty(),
            r.dimensions == 0,
            r.element@ == Seq::<char>::empty(),
            r.size@ == Seq::<char>::empty(),
    {
        TypeArgs { length: String::new(), dimensions: 0, element: String::new(), size: String::new() }
    }
}

/// The nullability clause: exactly one of ` NULL` and ` NOT NULL`.
pub open spec fn null_clause(nullable: bool) -> Seq<char> {
    if nullable {
        " NULL"@
    } else {
        " NOT NULL"@
    }
}

/// The column's SQL type as written in the table definition.
pub open spec fn type_sql(ty: ColumnType, length: Seq<char>) -> Seq<char> {
    if ty == ColumnType::VarChar {
        "VARCHAR("@ + length + ")"@
    } else {
        sql_keyword(ty)
    }
}

/// Everything of a column's fragment before its nullability clause.
pub open spec fn ddl_head(
    table: Seq<char>,
    column: Seq<char>,
    ty: ColumnType,
    length: Seq<char>,
    element: Seq<char>,
    size: Seq<char>,
) -> Seq<char> {
    if ty == ColumnType::Array {
        "ALTER TABLE "@ + table + " ADD COLUMN "@ + column + " "@ + element + " ARRAY["@ + size + "]"@
    } else {
        "CREATE TABLE IF NOT EXISTS"@ + table + " ("@ + column + " "@ + type_sql(ty, length)
    }
}

/// Everything of a column's fragment after its nullability clause.
pub open spec fn ddl_tail(ty: ColumnType) -> Seq<char> {
    if ty == ColumnType::Array {
        ";"@
    } else {
        ");"@
    }
}

/// The statement that defines one column of `table`.
pub open spec fn column_ddl(
    table: Seq<char>,
    column: Seq<char>,
    ty: ColumnType,
    length: Seq<char>,
    element: Seq<char>,
    size: Seq<char>,
    nullable: bool,
) -> Seq<char> {
    ddl_head(table, column, ty, length, element, size) + null_clause(nullable) + ddl_tail(ty)
}

/// The statement that undoes a migration of `table`.
pub open spec fn drop_table_ddl(table: Seq<char>) -> Seq<char> {
    "DROP TABLE "@ + table + ";"@
}

/// Emits the statement that defines column `column_name` of type `column_type`
/// in `table_name`: `CREATE TABLE IF NOT EXISTS<table> (<column> <type> NULL);`
/// (or `NOT NULL`), and for an array
/// `ALTER TABLE <table> ADD COLUMN <column> <element> ARRAY[<size>] NULL;`.
pub fn emit_column_ddl(
    table_name: &str,
    column_name: &str,
    column_type: ColumnType,
    args: &TypeArgs,
    nullable: bool,
) -> (r: String)
    ensures
        r@ == column_ddl(
            table_name@,
            column_name@,
            column_type,
            args.length@,
            args.element@,
            args.size@,
            nullable,
        ),
{
    let mut r: String;
    if column_type == ColumnType::Array {
        r = String::from_str("ALTER TABLE ");
        r.append(table_name);
        r.append(" ADD COLUMN ");
        r.append(column_name);
        r.append(" ");
        r.append(args.element.as_str());
        r.append(" ARRAY[");
        r.append(args.size.as_str());
        r.append("]");
    } else {
        r = String::from_str("CREATE TABLE IF NOT EXISTS");
        r.append(table_name);
        r.append(" (");
        r.append(column_name);
        r.append(" ");
        if column_type == ColumnType::VarChar {
            r.append("VARCHAR(");
            r.append(args.length.as_str());
            r.append(")");
        } else {
            r.append(column_type.keyword());
        }
    }
    if nullable {
        r.append(" NULL");
    } else {
        r.append(" NOT NULL");
    }
    if column_type == ColumnType::Array {
        r.append(";");
    } else {
        r.append(");");
    }
    r
}

/// Emits `DROP TABLE <table>;`.
pub fn drop_table_sql(table_name: &str) -> (r: String)
    ensures
        r@ == drop_table_ddl(table_name@),
{
    let mut r = String::from_str("DROP TABLE ");
    r.append(table_name);
    r.append(";");
    r
}

/// Appends to `up_sql_contents` the statement that adds array column
/// `column_name` to `table_name`, with the element type and size of `args`,
/// followed by a line break.
pub fn create_array(
    up_sql_contents: String,
    table_name: &str,
    column_name: &str,
    args: &TypeArgs,
    nullable: bool,
) -> (r: String)
    ensures
        r@ == up_sql_contents@ + column_ddl(
            table_name@,
            column_name@,
            ColumnType::Array,
            args.length@,
            args.element@,
            args.size@,
            nullable,
        ) + "\n"@,
{
    let fragment = emit_column_ddl(table_name, column_name, ColumnType::Array, args, nullable);
    let mut r = up_sql_contents;
    r.append(fragment.as_str());
    r.append("\n");
    r
}

/// The fragments of a column for both nullability flags differ only in the
/// nullability clause: the same head and tail surround ` NULL` when the column
/// is nullable and ` NOT NULL` when it is not.
pub proof fn lemma_one_nullability_clause(
    table: Seq<char>,
    column: Seq<char>,
    ty: ColumnType,
    length: Seq<char>,
    element: Seq<char>,
    size: Seq<char>,
)
    ensures
        column_ddl(table, column, ty, length, element, size, true)
            == ddl_head(table, column, ty, length, element, size) + " NULL"@ + ddl_tail(ty),
        column_ddl(table, column, ty, length, element, size, false)
            == ddl_head(table, column, ty, length, element, size) + " NOT NULL"@ + ddl_tail(ty),
{
}


/// `s` ends with the word `NOT`.
pub open spec fn ends_with_not(s: Seq<char>) -> bool {
    s.len() >= 3 && s[s.len() - 3] == 'N' && s[s.len() - 2] == 'O' && s[s.len() - 1] == 'T'
}

proof fn lemma_keyword_does_not_end_with_not(ty: ColumnType)
    ensures
        !ends_with_not(sql_keyword(ty)),
{
    match ty {
        ColumnType::VarChar => {
            reveal_strlit("VARCHAR");
        },
        ColumnType::SmallInt => {
            reveal_strlit("SMALLINT");
        },
        ColumnType::Integer => {
            reveal_strlit("INTEGER");
        },
        ColumnType::BigInt => {
            reveal_strlit("BIGINT");
        },
        ColumnType::Decimal => {
            reveal_strlit("DECIMAL");
        },
        ColumnType::Real => {
            reveal_strlit("REAL");
        },
        ColumnType::DoublePrecision => {
            reveal_strlit("DOUBLE PRECISION");
        },
        ColumnType::Numeric => {
            reveal_strlit("NUMERIC");
        },
        ColumnType::SmallSerial => {
            reveal_strlit("SMALLSERIAL");
        },
        ColumnType::Serial => {
            reveal_strlit("SERIAL");
        },
        ColumnType::BigSerial => {
            reveal_strlit("BIGSERIAL");
        },
        ColumnType::Money => {
            reveal_strlit("MONEY");
        },
        ColumnType::CharVarying => {
            reveal_strlit("VARCHAR");
        },
        ColumnType::CharacterVarying => {
            reveal_strlit("VARCHAR");
        },
        ColumnType::Char => {
            reveal_strlit("CHAR");
        },
        ColumnType::Character => {
            reveal_strlit("CHAR");
        },
        ColumnType::Text => {
            reveal_strlit("TEXT");
        },
        ColumnType::ByteA => {
            reveal_strlit("BYTEA");
        },
        ColumnType::Timestamp => {
            reveal_strlit("TIMESTAMP");
        },
        ColumnType::TimestampWithoutTimeZone => {
            reveal_strlit("TIMESTAMP");
        },
        ColumnType::TimestampWithTimeZone => {
            reveal_strlit("TIMESTAMP");
        },
        ColumnType::Date => {
            reveal_strlit("DATE");
        },
        ColumnType::Time => {
            reveal_strlit("TIME");
        },
        ColumnType::TimeWithoutTimeZone => {
            reveal_strlit("TIME");
        },
        ColumnType::TimeWithTimeZone => {
            reveal_strlit("TIME");
        },
        ColumnType::Interval => {
            reveal_strlit("INTERVAL");
        },
        ColumnType::Boolean => {
            reveal_strlit("BOOLEAN");
        },
        ColumnType::Enum => {
            reveal_strlit("Enum");
        },
        ColumnType::Point => {
            reveal_strlit("POINT");
        },
        ColumnType::Line => {
            reveal_strlit("LINE");
        },
        ColumnType::Lseg => {
            reveal_strlit("LSEG");
        },
        ColumnType::Box => {
            reveal_strlit("BOX");
        },
        ColumnType::Path => {
            reveal_strlit("PATH");
        },
        ColumnType::PathOpen => {
            reveal_strlit("PATH OPEN");
        },
        ColumnType::Polygon => {
            reveal_strlit("POLYGON");
        },
        ColumnType::Circle => {
            reveal_strlit("CIRCLE");
        },
        ColumnType::Inet => {
            reveal_strlit("INET");
        },
        ColumnType::Cidr => {
            reveal_strlit("CIDR");
        },
        ColumnType::MacAddr => {
            reveal_strlit("MACADDR");
        },
        ColumnType::MacAddr8 => {
            reveal_strlit("MACADDR8");
        },
        ColumnType::Bit => {
            reveal_strlit("BIT");
        },
        ColumnType::BitVarying => {
            reveal_strlit("BIT VARYING");
        },
        ColumnType::TsVector => {
            reveal_strlit("TSVECTOR");
        },
        ColumnType::TsQuery => {
            reveal_strlit("TSQUERY");
        },
        ColumnType::Xml => {
            reveal_strlit("XML");
        },
        ColumnType::Json => {
            reveal_strlit("JSON");
        },
        ColumnType::JsonB => {
            reveal_strlit("JSONB");
        },
        ColumnType::Uuid => {
            reveal_strlit("UUID");
        },
        ColumnType::PgLsn => {
            reveal_strlit("PGLSN");
        },
        ColumnType::PgSnapshot => {
            reveal_strlit("PG_SNAPSHOT");
        },
        ColumnType::TxidSnapshot => {
            reveal_strlit("TXID_SNAPSHOT");
        },
        ColumnType::Int4Range => {
            reveal_strlit("INT4RANGE");
        },
        ColumnType::Int8Range => {
            reveal_strlit("INT8RANGE");
        },
        ColumnType::NumRange => {
            reveal_strlit("NUMRANGE");
        },
        ColumnType::TsRange => {
            reveal_strlit("TSRANGE");
        },
        ColumnType::TstzRange => {
            reveal_strlit("TSTZRANGE");
        },
        ColumnType::DateRange => {
            reveal_strlit("DATERANGE");
        },
        ColumnType::Array => {
            reveal_strlit("ARRAY");
        },
    }
}

proof fn lemma_head_does_not_end_with_not(
    table: Seq<char>,
    column: Seq<char>,
    ty: ColumnType,
    length: Seq<char>,
    element: Seq<char>,
    size: Seq<char>,
)
    ensures
        !ends_with_not(ddl_head(table, column, ty, length, element, size)),
{
    let head = ddl_head(table, column, ty, length, element, size);
    if ty == ColumnType::Array {
        reveal_strlit("]");
        assert(head.last() == ']');
    } else if ty == ColumnType::VarChar {
        reveal_strlit(")");
        assert(head.last() == ')');
    } else {
        lemma_keyword_does_not_end_with_not(ty);
        let k = sql_keyword(ty);
        if k.len() >= 3 {
            assert(head.subrange(head.len() - 3, head.len() as int) =~= k.subrange(k.len() - 3, k.len() as int));
            assert(head[head.len() - 1] == k[k.len() - 1]);
            assert(head[head.len() - 2] == k[k.len() - 2]);
            assert(head[head.len() - 3] == k[k.len() - 3]);
        } else {
            reveal_strlit(" ");
            assert(head[head.len() - k.len() - 1] == ' ');
        }
    }
}

/// Exactly one nullability clause: unless the names themselves hold the text
/// `NOT NULL`, the fragment of a non-nullable column holds it and the fragment
/// of a nullable one does not.
pub proof fn lemma_not_null_only_when_not_nullable(
    table: Seq<char>,
    column: Seq<char>,
    ty: ColumnType,
    length: Seq<char>,
    element: Seq<char>,
    size: Seq<char>,
)
    requires
        !contains_text(ddl_head(table, column, ty, length, element, size), "NOT NULL"@),
    ensures
        contains_text(column_ddl(table, column, ty, length, element, size, false), "NOT NULL"@),
        !contains_text(column_ddl(table, column, ty, length, element, size, true), "NOT NULL"@),
{
    reveal_strlit("NOT NULL");
    reveal_strlit(" NOT NULL");
    reveal_strlit(" NULL");
    reveal_strlit(");");
    reveal_strlit(";");
    let head = ddl_head(table, column, ty, length, element, size);
    let pat = "NOT NULL"@;
    let h = head.len() as int;
    let no = column_ddl(table, column, ty, length, element, size, false);
    assert(no.subrange(h + 1, h + 9) =~= pat);
    assert(occurs_at(no, pat, h + 1));
    let yes = column_ddl(table, column, ty, length, element, size, true);
    lemma_head_does_not_end_with_not(table, column, ty, length, element, size);
    assert forall|i: int| !occurs_at(yes, pat, i) by {
        if occurs_at(yes, pat, i) {
            if i + 8 <= h {
                assert(head.subrange(i, i + 8) =~= yes.subrange(i, i + 8));
                assert(occurs_at(head, pat, i));
            } else if i >= h {
                assert(yes.len() <= h + 7);
            } else {
                let k = h - i;
                assert(yes.subrange(i, i + 8)[k] == pat[k]);
                assert(yes[h] == ' ');
                if k != 3 {
                    assert(pat[k] != ' ');
                } else {
                    assert(yes.subrange(i, i + 8)[0] == pat[0]);
                    assert(yes.subrange(i, i + 8)[1] == pat[1]);
                    assert(yes.subrange(i, i + 8)[2] == pat[2]);
                    assert(head[h - 3] == yes[h - 3]);
                    assert(head[h - 2] == yes[h - 2]);
                    assert(head[h - 1] == yes[h - 1]);
                }
            }
        }
    }
}

} // verus!
