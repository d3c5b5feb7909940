use rustyroad::catalog::{categories, supports_category, types_for, ColumnType, DataTypeCategory, DatabaseType};

const DIALECTS: [DatabaseType; 3] = [DatabaseType::Postgres, DatabaseType::Mysql, DatabaseType::Sqlite];

#[test]
fn categories_follow_menu_order() {
    let cats = categories();
    assert_eq!(cats.len(), 16);
    assert_eq!(cats[0], DataTypeCategory::Array);
    assert_eq!(cats[10], DataTypeCategory::Numeric);
    assert_eq!(cats[14], DataTypeCategory::Text);
    assert_eq!(cats[15], DataTypeCategory::UUID);
    let mut sorted = cats.clone();
    sorted.sort();
    assert_eq!(sorted, cats);
    assert_eq!(cats[9].name(), "NetworkAddress");
}

#[test]
fn supported_categories_offer_types_in_stable_order() {
    for dialect in DIALECTS {
        for category in categories() {
            let first = types_for(category, dialect);
            let second = types_for(category, dialect);
            assert_eq!(first, second);
            assert_eq!(supports_category(category, dialect), !first.is_empty());
        }
    }
    assert!(supports_category(DataTypeCategory::Numeric, DatabaseType::Mysql));
    assert!(!types_for(DataTypeCategory::Range, DatabaseType::Postgres).is_empty());
}

#[test]
fn unsupported_category_yields_empty_list() {
    for dialect in DIALECTS {
        assert!(types_for(DataTypeCategory::Composite, dialect).is_empty());
    }
    assert!(types_for(DataTypeCategory::Range, DatabaseType::Sqlite).is_empty());
    assert!(!supports_category(DataTypeCategory::NetworkAddress, DatabaseType::Mysql));
}

#[test]
fn numeric_types_for_postgres() {
    let types = types_for(DataTypeCategory::Numeric, DatabaseType::Postgres);
    assert_eq!(types.len(), 10);
    assert_eq!(types[0], ColumnType::SmallInt);
    assert_eq!(types[1], ColumnType::Integer);
    assert_eq!(types[9], ColumnType::BigSerial);
    assert_eq!(types[1].name(), "Integer");
    assert_eq!(types[6].keyword(), "DOUBLE PRECISION");
}

#[test]
fn text_types_for_mysql() {
    let types = types_for(DataTypeCategory::Text, DatabaseType::Mysql);
    assert_eq!(types, vec![ColumnType::VarChar, ColumnType::Char, ColumnType::Text]);
}
