//! The closed catalog of column types: categories shown to the operator,
//! and for each category and dialect the concrete column types on offer.

use vstd::prelude::*;

verus! {

/// The SQL backend a project talks to.
#[derive(Clone, Copy, Debug, PartialEq, Eq, Structural, Hash)]
pub enum DatabaseType {
    Postgres,
    Mysql,
    Sqlite,
}

/// A database-agnostic grouping of column types, in menu order.
#[derive(Clone, Copy, Debug, PartialEq, Eq, Structural, Hash, PartialOrd, Ord)]
pub enum DataTypeCategory {
    Array,
    BitString,
    Boolean,
    Composite,
    DateTime,
    Geometric,
    Interval,
    Json,
    Money,
    NetworkAddress,
    Numeric,
    Other,
    Range,
    Search,
    Text,
    UUID,
}

/// A concrete column type. `VarChar` takes a length and `Array` an element
/// type and a size, both elicited separately (see `TypeArgs`).
#[derive(Clone, Copy, Debug, PartialEq, Eq, Structural, Hash)]
pub enum ColumnType {
    VarChar,
    SmallInt,
    Integer,
    BigInt,
    Decimal,
    Real,
    DoublePrecision,
    Numeric,
    SmallSerial,
    Serial,
    BigSerial,
    Money,
    CharVarying,
    CharacterVarying,
    Char,
    Character,
    Text,
    ByteA,
    Timestamp,
    TimestampWithoutTimeZone,
    TimestampWithTimeZone,
    Date,
    Time,
    TimeWithoutTimeZone,
    TimeWithTimeZone,
    Interval,
    Boolean,
    Enum,
    Point,
    Line,
    Lseg,
    Box,
    Path,
    PathOpen,
    Polygon,
    Circle,
    Inet,
    Cidr,
    MacAddr,
    MacAddr8,
    Bit,
    BitVarying,
    TsVector,
    TsQuery,
    Xml,
    Json,
    JsonB,
    Uuid,
    PgLsn,
    PgSnapshot,
    TxidSnapshot,
    Int4Range,
    Int8Range,
    NumRange,
    TsRange,
    TstzRange,
    DateRange,
    Array,
}

/// The categories in the order of the menu (menu entry `k` is index `k - 1`).
pub open spec fn all_categories() -> Seq<DataTypeCategory> {
    seq![
        DataTypeCategory::Array,
        DataTypeCategory::BitString,
        DataTypeCategory::Boolean,
        DataTypeCategory::Composite,
        DataTypeCategory::DateTime,
        DataTypeCategory::Geometric,
        DataTypeCategory::Interval,
        DataTypeCategory::Json,
        DataTypeCategory::Money,
        DataTypeCategory::NetworkAddress,
        DataTypeCategory::Numeric,
        DataTypeCategory::Other,
        DataTypeCategory::Range,
        DataTypeCategory::Search,
        DataTypeCategory::Text,
        DataTypeCategory::UUID,
    ]
}

/// The categories in menu order.
pub fn categories() -> (r: Vec<DataTypeCategory>)
    ensures
        r@ == all_categories(),
{
    let r = vec![
        DataTypeCategory::Array,
        DataTypeCategory::BitString,
        DataTypeCategory::Boolean,
        DataTypeCategory::Composite,
        DataTypeCategory::DateTime,
        DataTypeCategory::Geometric,
        DataTypeCategory::Interval,
        DataTypeCategory::Json,
        DataTypeCategory::Money,
        DataTypeCategory::NetworkAddress,
        DataTypeCategory::Numeric,
        DataTypeCategory::Other,
        DataTypeCategory::Range,
        DataTypeCategory::Search,
        DataTypeCategory::Text,
        DataTypeCategory::UUID,
    ];
    assert(r@ =~= all_categories());
    r
}

/// The PostgreSQL column types of each category.
pub open spec fn postgres_types(category: DataTypeCategory) -> Seq<ColumnType> {
    match category {
        DataTypeCategory::Array => seq![ColumnType::Array],
        DataTypeCategory::BitString => seq![ColumnType::Bit, ColumnType::BitVarying],
        DataTypeCategory::Boolean => seq![ColumnType::Boolean],
        DataTypeCategory::Composite => seq![],
        DataTypeCategory::DateTime => seq![ColumnType::Timestamp, ColumnType::TimestampWithoutTimeZone, ColumnType::TimestampWithTimeZone, ColumnType::Date, ColumnType::Time, ColumnType::TimeWithoutTimeZone, ColumnType::TimeWithTimeZone],
        DataTypeCategory::Geometric => seq![ColumnType::Point, ColumnType::Line, ColumnType::Lseg, ColumnType::Box, ColumnType::Path, ColumnType::PathOpen, ColumnType::Polygon, ColumnType::Circle],
        DataTypeCategory::Interval => seq![ColumnType::Interval],
        DataTypeCategory::Json => seq![ColumnType::Json, ColumnType::JsonB],
        DataTypeCategory::Money => seq![ColumnType::Money],
        DataTypeCategory::NetworkAddress => seq![ColumnType::Inet, ColumnType::Cidr, ColumnType::MacAddr, ColumnType::MacAddr8],
        DataTypeCategory::Numeric => seq![ColumnType::SmallInt, ColumnType::Integer, ColumnType::BigInt, ColumnType::Decimal, ColumnType::Numeric, ColumnType::Real, ColumnType::DoublePrecision, ColumnType::SmallSerial, ColumnType::Serial, ColumnType::BigSerial],
        DataTypeCategory::Other => seq![ColumnType::ByteA, ColumnType::Enum, ColumnType::Xml, ColumnType::PgLsn, ColumnType::PgSnapshot, ColumnType::TxidSnapshot],
        DataTypeCategory::Range => seq![ColumnType::Int4Range, ColumnType::Int8Range, ColumnType::NumRange, ColumnType::TsRange, ColumnType::TstzRange, ColumnType::DateRange],
        DataTypeCategory::Search => seq![ColumnType::TsVector, ColumnType::TsQuery],
        DataTypeCategory::Text => seq![ColumnType::VarChar, ColumnType::CharVarying, ColumnType::CharacterVarying, ColumnType::Char, ColumnType::Character, ColumnType::Text],
        DataTypeCategory::UUID => seq![ColumnType::Uuid],
    }
}

/// The MySQL column types of each category.
pub open spec fn mysql_types(category: DataTypeCategory) -> Seq<ColumnType> {
    match category {
        DataTypeCategory::Array => seq![],
        DataTypeCategory::BitString => seq![ColumnType::Bit],
        DataTypeCategory::Boolean => seq![ColumnType::Boolean],
        DataTypeCategory::Composite => seq![],
        DataTypeCategory::DateTime => seq![ColumnType::Timestamp, ColumnType::Date, ColumnType::Time],
        DataTypeCategory::Geometric => seq![ColumnType::Point, ColumnType::Polygon],
        DataTypeCategory::Interval => seq![],
        DataTypeCategory::Json => seq![ColumnType::Json],
        DataTypeCategory::Money => seq![],
        DataTypeCategory::NetworkAddress => seq![],
        DataTypeCategory::Numeric => seq![ColumnType::SmallInt, ColumnType::Integer, ColumnType::BigInt, ColumnType::Decimal, ColumnType::Numeric, ColumnType::Real, ColumnType::DoublePrecision],
        DataTypeCategory::Other => seq![],
        DataTypeCategory::Range => seq![],
        DataTypeCategory::Search => seq![],
        DataTypeCategory::Text => seq![ColumnType::VarChar, ColumnType::Char, ColumnType::Text],
        DataTypeCategory::UUID => seq![],
    }
}

/// The SQLite column types of each category.
pub open spec fn sqlite_types(category: DataTypeCategory) -> Seq<ColumnType> {
    match category {
        DataTypeCategory::Array => seq![],
        DataTypeCategory::BitString => seq![],
        DataTypeCategory::Boolean => seq![ColumnType::Boolean],
        DataTypeCategory::Composite => seq![],
        DataTypeCategory::DateTime => seq![ColumnType::Timestamp, ColumnType::Date, ColumnType::Time],
        DataTypeCategory::Geometric => seq![],
        DataTypeCategory::Interval => seq![],
        DataTypeCategory::Json => seq![],
        DataTypeCategory::Money => seq![],
        DataTypeCategory::NetworkAddress => seq![],
        DataTypeCategory::Numeric => seq![ColumnType::SmallInt, ColumnType::Integer, ColumnType::BigInt, ColumnType::Decimal, ColumnType::Numeric, ColumnType::Real, ColumnType::DoublePrecision],
        DataTypeCategory::Other => seq![],
        DataTypeCategory::Range => seq![],
        DataTypeCategory::Search => seq![],
        DataTypeCategory::Text => seq![ColumnType::VarChar, ColumnType::Char, ColumnType::Text],
        DataTypeCategory::UUID => seq![],
    }
}

/// The concrete types that `dialect` offers for `category`, in menu order.
pub open spec fn types_of(category: DataTypeCategory, dialect: DatabaseType) -> Seq<ColumnType> {
    match dialect {
        DatabaseType::Postgres => postgres_types(category),
        DatabaseType::Mysql => mysql_types(category),
        DatabaseType::Sqlite => sqlite_types(category),
    }
}

/// The categories that PostgreSQL claims to support.
pub open spec fn postgres_supports(category: DataTypeCategory) -> bool {
    match category {
        DataTypeCategory::Array => true,
        DataTypeCategory::BitString => true,
        DataTypeCategory::Boolean => true,
        DataTypeCategory::DateTime => true,
        DataTypeCategory::Geometric => true,
        DataTypeCategory::Interval => true,
        DataTypeCategory::Json => true,
        DataTypeCategory::Money => true,
        DataTypeCategory::NetworkAddress => true,
        DataTypeCategory::Numeric => true,
        DataTypeCategory::Other => true,
        DataTypeCategory::Range => true,
        DataTypeCategory::Search => true,
        DataTypeCategory::Text => true,
        DataTypeCategory::UUID => true,
        _ => false,
    }
}

/// The categories that MySQL claims to support.
pub open spec fn mysql_supports(category: DataTypeCategory) -> bool {
    match category {
        DataTypeCategory::BitString => true,
        DataTypeCategory::Boolean => true,
        DataTypeCategory::DateTime => true,
        DataTypeCategory::Geometric => true,
        DataTypeCategory::Json => true,
        DataTypeCategory::Numeric => true,
        DataTypeCategory::Text => true,
        _ => false,
    }
}

/// The categories that SQLite claims to support.
pub open spec fn sqlite_supports(category: DataTypeCategory) -> bool {
    match category {
        DataTypeCategory::Boolean => true,
        DataTypeCategory::DateTime => true,
        DataTypeCategory::Numeric => true,
        DataTypeCategory::Text => true,
        _ => false,
    }
}

/// Whether `dialect` claims to support `category`.
pub open spec fn supports(category: DataTypeCategory, dialect: DatabaseType) -> bool {
    match dialect {
        DatabaseType::Postgres => postgres_supports(category),
        DatabaseType::Mysql => mysql_supports(category),
        DatabaseType::Sqlite => sqlite_supports(category),
    }
}

/// The category that a concrete type belongs to.
pub open spec fn category_of(ty: ColumnType) -> DataTypeCategory {
    match ty {
        ColumnType::VarChar => DataTypeCategory::Text,
        ColumnType::SmallInt => DataTypeCategory::Numeric,
        ColumnType::Integer => DataTypeCategory::Numeric,
        ColumnType::BigInt => DataTypeCategory::Numeric,
        ColumnType::Decimal => DataTypeCategory::Numeric,
        ColumnType::Real => DataTypeCategory::Numeric,
        ColumnType::DoublePrecision => DataTypeCategory::Numeric,
        ColumnType::Numeric => DataTypeCategory::Numeric,
        ColumnType::SmallSerial => DataTypeCategory::Numeric,
        ColumnType::Serial => DataTypeCategory::Numeric,
        ColumnType::BigSerial => DataTypeCategory::Numeric,
        ColumnType::Money => DataTypeCategory::Money,
        ColumnType::CharVarying => DataTypeCategory::Text,
        ColumnType::CharacterVarying => DataTypeCategory::Text,
        ColumnType::Char => DataTypeCategory::Text,
        ColumnType::Character => DataTypeCategory::Text,
        ColumnType::Text => DataTypeCategory::Text,
        ColumnType::ByteA => DataTypeCategory::Other,
        ColumnType::Timestamp => DataTypeCategory::DateTime,
        ColumnType::TimestampWithoutTimeZone => DataTypeCategory::DateTime,
        ColumnType::TimestampWithTimeZone => DataTypeCategory::DateTime,
        ColumnType::Date => DataTypeCategory::DateTime,
        ColumnType::Time => DataTypeCategory::DateTime,
        ColumnType::TimeWithoutTimeZone => DataTypeCategory::DateTime,
        ColumnType::TimeWithTimeZone => DataTypeCategory::DateTime,
        ColumnType::Interval => DataTypeCategory::Interval,
        ColumnType::Boolean => DataTypeCategory::Boolean,
        ColumnType::Enum => DataTypeCategory::Other,
        ColumnType::Point => DataTypeCategory::Geometric,
        ColumnType::Line => DataTypeCategory::Geometric,
        ColumnType::Lseg => DataTypeCategory::Geometric,
        ColumnType::Box => DataTypeCategory::Geometric,
        ColumnType::Path => DataTypeCategory::Geometric,
        ColumnType::PathOpen => DataTypeCategory::Geometric,
        ColumnType::Polygon => DataTypeCategory::Geometric,
        ColumnType::Circle => DataTypeCategory::Geometric,
        ColumnType::Inet => DataTypeCategory::NetworkAddress,
        ColumnType::Cidr => DataTypeCategory::NetworkAddress,
        ColumnType::MacAddr => DataTypeCategory::NetworkAddress,
        ColumnType::MacAddr8 => DataTypeCategory::NetworkAddress,
        ColumnType::Bit => DataTypeCategory::BitString,
        ColumnType::BitVarying => DataTypeCategory::BitString,
        ColumnType::TsVector => DataTypeCategory::Search,
        ColumnType::TsQuery => DataTypeCategory::Search,
        ColumnType::Xml => DataTypeCategory::Other,
        ColumnType::Json => DataTypeCategory::Json,
        ColumnType::JsonB => DataTypeCategory::Json,
        ColumnType::Uuid => DataTypeCategory::UUID,
        ColumnType::PgLsn => DataTypeCategory::Other,
        ColumnType::PgSnapshot => DataTypeCategory::Other,
        ColumnType::TxidSnapshot => DataTypeCategory::Other,
        ColumnType::Int4Range => DataTypeCategory::Range,
        ColumnType::Int8Range => DataTypeCategory::Range,
        ColumnType::NumRange => DataTypeCategory::Range,
        ColumnType::TsRange => DataTypeCategory::Range,
        ColumnType::TstzRange => DataTypeCategory::Range,
        ColumnType::DateRange => DataTypeCategory::Range,
        ColumnType::Array => DataTypeCategory::Array,
    }
}

fn postgres_types_vec(category: DataTypeCategory) -> (r: Vec<ColumnType>)
    ensures
        r@ == postgres_types(category),
{
    let r = match category {
        DataTypeCategory::Array => vec![ColumnType::Array],
        DataTypeCategory::BitString => vec![ColumnType::Bit, ColumnType::BitVarying],
        DataTypeCategory::Boolean => vec![ColumnType::Boolean],
        DataTypeCategory::Composite => vec![],
        DataTypeCategory::DateTime => vec![ColumnType::Timestamp, ColumnType::TimestampWithoutTimeZone, ColumnType::TimestampWithTimeZone, ColumnType::Date, ColumnType::Time, ColumnType::TimeWithoutTimeZone, ColumnType::TimeWithTimeZone],
        DataTypeCategory::Geometric => vec![ColumnType::Point, ColumnType::Line, ColumnType::Lseg, ColumnType::Box, ColumnType::Path, ColumnType::PathOpen, ColumnType::Polygon, ColumnType::Circle],
        DataTypeCategory::Interval => vec![ColumnType::Interval],
        DataTypeCategory::Json => vec![ColumnType::Json, ColumnType::JsonB],
        DataTypeCategory::Money => vec![ColumnType::Money],
        DataTypeCategory::NetworkAddress => vec![ColumnType::Inet, ColumnType::Cidr, ColumnType::MacAddr, ColumnType::MacAddr8],
        DataTypeCategory::Numeric => vec![ColumnType::SmallInt, ColumnType::Integer, ColumnType::BigInt, ColumnType::Decimal, ColumnType::Numeric, ColumnType::Real, ColumnType::DoublePrecision, ColumnType::SmallSerial, ColumnType::Serial, ColumnType::BigSerial],
        DataTypeCategory::Other => vec![ColumnType::ByteA, ColumnType::Enum, ColumnType::Xml, ColumnType::PgLsn, ColumnType::PgSnapshot, ColumnType::TxidSnapshot],
        DataTypeCategory::Range => vec![ColumnType::Int4Range, ColumnType::Int8Range, ColumnType::NumRange, ColumnType::TsRange, ColumnType::TstzRange, ColumnType::DateRange],
        DataTypeCategory::Search => vec![ColumnType::TsVector, ColumnType::TsQuery],
        DataTypeCategory::Text => vec![ColumnType::VarChar, ColumnType::CharVarying, ColumnType::CharacterVarying, ColumnType::Char, ColumnType::Character, ColumnType::Text],
        DataTypeCategory::UUID => vec![ColumnType::Uuid],
    };
    assert(r@ =~= postgres_types(category));
    r
}

fn mysql_types_vec(category: DataTypeCategory) -> (r: Vec<ColumnType>)
    ensures
        r@ == mysql_types(category),
{
    let r = match category {
        DataTypeCategory::Array => vec![],
        DataTypeCategory::BitString => vec![ColumnType::Bit],
        DataTypeCategory::Boolean => vec![ColumnType::Boolean],
        DataTypeCategory::Composite => vec![],
        DataTypeCategory::DateTime => vec![ColumnType::Timestamp, ColumnType::Date, ColumnType::Time],
        DataTypeCategory::Geometric => vec![ColumnType::Point, ColumnType::Polygon],
        DataTypeCategory::Interval => vec![],
        DataTypeCategory::Json => vec![ColumnType::Json],
        DataTypeCategory::Money => vec![],
        DataTypeCategory::NetworkAddress => vec![],
        DataTypeCategory::Numeric => vec![ColumnType::SmallInt, ColumnType::Integer, ColumnType::BigInt, ColumnType::Decimal, ColumnType::Numeric, ColumnType::Real, ColumnType::DoublePrecision],
        DataTypeCategory::Other => vec![],
        DataTypeCategory::Range => vec![],
        DataTypeCategory::Search => vec![],
        DataTypeCategory::Text => vec![ColumnType::VarChar, ColumnType::Char, ColumnType::Text],
        DataTypeCategory::UUID => vec![],
    };
    assert(r@ =~= mysql_types(category));
    r
}

fn sqlite_types_vec(category: DataTypeCategory) -> (r: Vec<ColumnType>)
    ensures
        r@ == sqlite_types(category),
{
    let r = match category {
        DataTypeCategory::Array => vec![],
        DataTypeCategory::BitString => vec![],
        DataTypeCategory::Boolean => vec![ColumnType::Boolean],
        DataTypeCategory::Composite => vec![],
        DataTypeCategory::DateTime => vec![ColumnType::Timestamp, ColumnType::Date, ColumnType::Time],
        DataTypeCategory::Geometric => vec![],
        DataTypeCategory::Interval => vec![],
        DataTypeCategory::Json => vec![],
        DataTypeCategory::Money => vec![],
        DataTypeCategory::NetworkAddress => vec![],
        DataTypeCategory::Numeric => vec![ColumnType::SmallInt, ColumnType::Integer, ColumnType::BigInt, ColumnType::Decimal, ColumnType::Numeric, ColumnType::Real, ColumnType::DoublePrecision],
        DataTypeCategory::Other => vec![],
        DataTypeCategory::Range => vec![],
        DataTypeCategory::Search => vec![],
        DataTypeCategory::Text => vec![ColumnType::VarChar, ColumnType::Char, ColumnType::Text],
        DataTypeCategory::UUID => vec![],
    };
    assert(r@ =~= sqlite_types(category));
    r
}

/// The concrete types that `dialect` offers for `category`, in menu order;
/// empty where the dialect does not support the category.
pub fn types_for(category: DataTypeCategory, dialect: DatabaseType) -> (r: Vec<ColumnType>)
    ensures
        r@ == types_of(category, dialect),
{
    match dialect {
        DatabaseType::Postgres => postgres_types_vec(category),
        DatabaseType::Mysql => mysql_types_vec(category),
        DatabaseType::Sqlite => sqlite_types_vec(category),
    }
}

/// Whether `dialect` claims to support `category`.
pub fn supports_category(category: DataTypeCategory, dialect: DatabaseType) -> (r: bool)
    ensures
        r == supports(category, dialect),
{
    types_for(category, dialect).len() > 0
}

/// A dialect offers at least one concrete type for every category that it
/// claims to support, and none for the others.
pub proof fn lemma_supported_categories_have_types(category: DataTypeCategory, dialect: DatabaseType)
    ensures
        supports(category, dialect) <==> types_of(category, dialect).len() > 0,
{
}

/// Every concrete type offered under a category belongs to that category.
pub proof fn lemma_types_belong_to_category(category: DataTypeCategory, dialect: DatabaseType, i: int)
    requires
        0 <= i < types_of(category, dialect).len(),
    ensures
        category_of(types_of(category, dialect)[i]) == category,
{
}

/// The category's name as shown in the menu.
pub open spec fn category_name(category: DataTypeCategory) -> Seq<char> {
    match category {
        DataTypeCategory::Array => "Array"@,
        DataTypeCategory::BitString => "BitString"@,
        DataTypeCategory::Boolean => "Boolean"@,
        DataTypeCategory::Composite => "Composite"@,
        DataTypeCategory::DateTime => "DateTime"@,
        DataTypeCategory::Geometric => "Geometric"@,
        DataTypeCategory::Interval => "Interval"@,
        DataTypeCategory::Json => "Json"@,
        DataTypeCategory::Money => "Money"@,
        DataTypeCategory::NetworkAddress => "NetworkAddress"@,
        DataTypeCategory::Numeric => "Numeric"@,
        DataTypeCategory::Other => "Other"@,
        DataTypeCategory::Range => "Range"@,
        DataTypeCategory::Search => "Search"@,
        DataTypeCategory::Text => "Text"@,
        DataTypeCategory::UUID => "UUID"@,
    }
}

impl DataTypeCategory {
    /// The name shown in the menu.
    pub fn name(&self) -> (r: &'static str)
        ensures
            r@ == category_name(*self),
    {
        match self {
            DataTypeCategory::Array => "Array",
            DataTypeCategory::BitString => "BitString",
            DataTypeCategory::Boolean => "Boolean",
            DataTypeCategory::Composite => "Composite",
            DataTypeCategory::DateTime => "DateTime",
            DataTypeCategory::Geometric => "Geometric",
            DataTypeCategory::Interval => "Interval",
            DataTypeCategory::Json => "Json",
            DataTypeCategory::Money => "Money",
            DataTypeCategory::NetworkAddress => "NetworkAddress",
            DataTypeCategory::Numeric => "Numeric",
            DataTypeCategory::Other => "Other",
            DataTypeCategory::Range => "Range",
            DataTypeCategory::Search => "Search",
            DataTypeCategory::Text => "Text",
            DataTypeCategory::UUID => "UUID",
        }
    }
}

/// The type's name as shown in the menu.
pub open spec fn column_type_name(ty: ColumnType) -> Seq<char> {
    match ty {
        ColumnType::VarChar => "VarChar"@,
        ColumnType::SmallInt => "SmallInt"@,
        ColumnType::Integer => "Integer"@,
        ColumnType::BigInt => "BigInt"@,
        ColumnType::Decimal => "Decimal"@,
        ColumnType::Real => "Real"@,
        ColumnType::DoublePrecision => "DoublePrecision"@,
        ColumnType::Numeric => "Numeric"@,
        ColumnType::SmallSerial => "SmallSerial"@,
        ColumnType::Serial => "Serial"@,
        ColumnType::BigSerial => "BigSerial"@,
        ColumnType::Money => "Money"@,
        ColumnType::CharVarying => "CharVarying"@,
        ColumnType::CharacterVarying => "CharacterVarying"@,
        ColumnType::Char => "Char"@,
        ColumnType::Character => "Character"@,
        ColumnType::Text => "Text"@,
        ColumnType::ByteA => "ByteA"@,
        ColumnType::Timestamp => "Timestamp"@,
        ColumnType::TimestampWithoutTimeZone => "TimestampWithoutTimeZone"@,
        ColumnType::TimestampWithTimeZone => "TimestampWithTimeZone"@,
        ColumnType::Date => "Date"@,
        ColumnType::Time => "Time"@,
        ColumnType::TimeWithoutTimeZone => "TimeWithoutTimeZone"@,
        ColumnType::TimeWithTimeZone => "TimeWithTimeZone"@,
        ColumnType::Interval => "Interval"@,
        ColumnType::Boolean => "Boolean"@,
        ColumnType::Enum => "Enum"@,
        ColumnType::Point => "Point"@,
        ColumnType::Line => "Line"@,
        ColumnType::Lseg => "Lseg"@,
        ColumnType::Box => "Box"@,
        ColumnType::Path => "Path"@,
        ColumnType::PathOpen => "PathOpen"@,
        ColumnType::Polygon => "Polygon"@,
        ColumnType::Circle => "Circle"@,
        ColumnType::Inet => "Inet"@,
        ColumnType::Cidr => "Cidr"@,
        ColumnType::MacAddr => "MacAddr"@,
        ColumnType::MacAddr8 => "MacAddr8"@,
        ColumnType::Bit => "Bit"@,
        ColumnType::BitVarying => "BitVarying"@,
        ColumnType::TsVector => "TsVector"@,
        ColumnType::TsQuery => "TsQuery"@,
        ColumnType::Xml => "Xml"@,
        ColumnType::Json => "Json"@,
        ColumnType::JsonB => "JsonB"@,
        ColumnType::Uuid => "Uuid"@,
        ColumnType::PgLsn => "PgLsn"@,
        ColumnType::PgSnapshot => "PgSnapshot"@,
        ColumnType::TxidSnapshot => "TxidSnapshot"@,
        ColumnType::Int4Range => "Int4Range"@,
        ColumnType::Int8Range => "Int8Range"@,
        ColumnType::NumRange => "NumRange"@,
        ColumnType::TsRange => "TsRange"@,
        ColumnType::TstzRange => "TstzRange"@,
        ColumnType::DateRange => "DateRange"@,
        ColumnType::Array => "Array"@,
    }
}

/// The SQL spelling of a type; `VarChar` gets its length and `Array` its
/// element type around this.
pub open spec fn sql_keyword(ty: ColumnType) -> Seq<char> {
    match ty {
        ColumnType::VarChar => "VARCHAR"@,
        ColumnType::SmallInt => "SMALLINT"@,
        ColumnType::Integer => "INTEGER"@,
        ColumnType::BigInt => "BIGINT"@,
        ColumnType::Decimal => "DECIMAL"@,
        ColumnType::Real => "REAL"@,
        ColumnType::DoublePrecision => "DOUBLE PRECISION"@,
        ColumnType::Numeric => "NUMERIC"@,
        ColumnType::SmallSerial => "SMALLSERIAL"@,
        ColumnType::Serial => "SERIAL"@,
        ColumnType::BigSerial => "BIGSERIAL"@,
        ColumnType::Money => "MONEY"@,
        ColumnType::CharVarying => "VARCHAR"@,
        ColumnType::CharacterVarying => "VARCHAR"@,
        ColumnType::Char => "CHAR"@,
        ColumnType::Character => "CHAR"@,
        ColumnType::Text => "TEXT"@,
        ColumnType::ByteA => "BYTEA"@,
        ColumnType::Timestamp => "TIMESTAMP"@,
        ColumnType::TimestampWithoutTimeZone => "TIMESTAMP"@,
        ColumnType::TimestampWithTimeZone => "TIMESTAMP"@,
        ColumnType::Date => "DATE"@,
        ColumnType::Time => "TIME"@,
        ColumnType::TimeWithoutTimeZone => "TIME"@,
        ColumnType::TimeWithTimeZone => "TIME"@,
        ColumnType::Interval => "INTERVAL"@,
        ColumnType::Boolean => "BOOLEAN"@,
        ColumnType::Enum => "Enum"@,
        ColumnType::Point => "POINT"@,
        ColumnType::Line => "LINE"@,
        ColumnType::Lseg => "LSEG"@,
        ColumnType::Box => "BOX"@,
        ColumnType::Path => "PATH"@,
        ColumnType::PathOpen => "PATH OPEN"@,
        ColumnType::Polygon => "POLYGON"@,
        ColumnType::Circle => "CIRCLE"@,
        ColumnType::Inet => "INET"@,
        ColumnType::Cidr => "CIDR"@,
        ColumnType::MacAddr => "MACADDR"@,
        ColumnType::MacAddr8 => "MACADDR8"@,
        ColumnType::Bit => "BIT"@,
        ColumnType::BitVarying => "BIT VARYING"@,
        ColumnType::TsVector => "TSVECTOR"@,
        ColumnType::TsQuery => "TSQUERY"@,
        ColumnType::Xml => "XML"@,
        ColumnType::Json => "JSON"@,
        ColumnType::JsonB => "JSONB"@,
        ColumnType::Uuid => "UUID"@,
        ColumnType::PgLsn => "PGLSN"@,
        ColumnType::PgSnapshot => "PG_SNAPSHOT"@,
        ColumnType::TxidSnapshot => "TXID_SNAPSHOT"@,
        ColumnType::Int4Range => "INT4RANGE"@,
        ColumnType::Int8Range => "INT8RANGE"@,
        ColumnType::NumRange => "NUMRANGE"@,
        ColumnType::TsRange => "TSRANGE"@,
        ColumnType::TstzRange => "TSTZRANGE"@,
        ColumnType::DateRange => "DATERANGE"@,
        ColumnType::Array => "ARRAY"@,
    }
}

impl ColumnType {
    /// The name shown in the menu.
    pub fn name(&self) -> (r: &'static str)
        ensures
            r@ == column_type_name(*self),
    {
        match self {
            ColumnType::VarChar => "VarChar",
            ColumnType::SmallInt => "SmallInt",
            ColumnType::Integer => "Integer",
            ColumnType::BigInt => "BigInt",
            ColumnType::Decimal => "Decimal",
            ColumnType::Real => "Real",
            ColumnType::DoublePrecision => "DoublePrecision",
            ColumnType::Numeric => "Numeric",
            ColumnType::SmallSerial => "SmallSerial",
            ColumnType::Serial => "Serial",
            ColumnType::BigSerial => "BigSerial",
            ColumnType::Money => "Money",
            ColumnType::CharVarying => "CharVarying",
            ColumnType::CharacterVarying => "CharacterVarying",
            ColumnType::Char => "Char",
            ColumnType::Character => "Character",
            ColumnType::Text => "Text",
            ColumnType::ByteA => "ByteA",
            ColumnType::Timestamp => "Timestamp",
            ColumnType::TimestampWithoutTimeZone => "TimestampWithoutTimeZone",
            ColumnType::TimestampWithTimeZone => "TimestampWithTimeZone",
            ColumnType::Date => "Date",
            ColumnType::Time => "Time",
            ColumnType::TimeWithoutTimeZone => "TimeWithoutTimeZone",
            ColumnType::TimeWithTimeZone => "TimeWithTimeZone",
            ColumnType::Interval => "Interval",
            ColumnType::Boolean => "Boolean",
            ColumnType::Enum => "Enum",
            ColumnType::Point => "Point",
            ColumnType::Line => "Line",
            ColumnType::Lseg => "Lseg",
            ColumnType::Box => "Box",
            ColumnType::Path => "Path",
            ColumnType::PathOpen => "PathOpen",
            ColumnType::Polygon => "Polygon",
            ColumnType::Circle => "Circle",
            ColumnType::Inet => "Inet",
            ColumnType::Cidr => "Cidr",
            ColumnType::MacAddr => "MacAddr",
            ColumnType::MacAddr8 => "MacAddr8",
            ColumnType::Bit => "Bit",
            ColumnType::BitVarying => "BitVarying",
            ColumnType::TsVector => "TsVector",
            ColumnType::TsQuery => "TsQuery",
            ColumnType::Xml => "Xml",
            ColumnType::Json => "Json",
            ColumnType::JsonB => "JsonB",
            ColumnType::Uuid => "Uuid",
            ColumnType::PgLsn => "PgLsn",
            ColumnType::PgSnapshot => "PgSnapshot",
            ColumnType::TxidSnapshot => "TxidSnapshot",
            ColumnType::Int4Range => "Int4Range",
            ColumnType::Int8Range => "Int8Range",
            ColumnType::NumRange => "NumRange",
            ColumnType::TsRange => "TsRange",
            ColumnType::TstzRange => "TstzRange",
            ColumnType::DateRange => "DateRange",
            ColumnType::Array => "Array",
        }
    }

    /// The SQL spelling of the type.
    pub fn keyword(&self) -> (r: &'static str)
        ensures
            r@ == sql_keyword(*self),
    {
        match self {
            ColumnType::VarChar => "VARCHAR",
            ColumnType::SmallInt => "SMALLINT",
            ColumnType::Integer => "INTEGER",
            ColumnType::BigInt => "BIGINT",
            ColumnType::Decimal => "DECIMAL",
            ColumnType::Real => "REAL",
            ColumnType::DoublePrecision => "DOUBLE PRECISION",
            ColumnType::Numeric => "NUMERIC",
            ColumnType::SmallSerial => "SMALLSERIAL",
            ColumnType::Serial => "SERIAL",
            ColumnType::BigSerial => "BIGSERIAL",
            ColumnType::Money => "MONEY",
            ColumnType::CharVarying => "VARCHAR",
            ColumnType::CharacterVarying => "VARCHAR",
            ColumnType::Char => "CHAR",
            ColumnType::Character => "CHAR",
            ColumnType::Text => "TEXT",
            ColumnType::ByteA => "BYTEA",
            ColumnType::Timestamp => "TIMESTAMP",
            ColumnType::TimestampWithoutTimeZone => "TIMESTAMP",
            ColumnType::TimestampWithTimeZone => "TIMESTAMP",
            ColumnType::Date => "DATE",
            ColumnType::Time => "TIME",
            ColumnType::TimeWithoutTimeZone => "TIME",
            ColumnType::TimeWithTimeZone => "TIME",
            ColumnType::Interval => "INTERVAL",
            ColumnType::Boolean => "BOOLEAN",
            ColumnType::Enum => "Enum",
            ColumnType::Point => "POINT",
            ColumnType::Line => "LINE",
            ColumnType::Lseg => "LSEG",
            ColumnType::Box => "BOX",
            ColumnType::Path => "PATH",
            ColumnType::PathOpen => "PATH OPEN",
            ColumnType::Polygon => "POLYGON",
            ColumnType::Circle => "CIRCLE",
            ColumnType::Inet => "INET",
            ColumnType::Cidr => "CIDR",
            ColumnType::MacAddr => "MACADDR",
            ColumnType::MacAddr8 => "MACADDR8",
            ColumnType::Bit => "BIT",
            ColumnType::BitVarying => "BIT VARYING",
            ColumnType::TsVector => "TSVECTOR",
            ColumnType::TsQuery => "TSQUERY",
            ColumnType::Xml => "XML",
            ColumnType::Json => "JSON",
            ColumnType::JsonB => "JSONB",
            ColumnType::Uuid => "UUID",
            ColumnType::PgLsn => "PGLSN",
            ColumnType::PgSnapshot => "PG_SNAPSHOT",
            ColumnType::TxidSnapshot => "TXID_SNAPSHOT",
            ColumnType::Int4Range => "INT4RANGE",
            ColumnType::Int8Range => "INT8RANGE",
            ColumnType::NumRange => "NUMRANGE",
            ColumnType::TsRange => "TSRANGE",
            ColumnType::TstzRange => "TSTZRANGE",
            ColumnType::DateRange => "DATERANGE",
            ColumnType::Array => "ARRAY",
        }
    }
}

} // verus!
