use mssqlrust::dataset::data_value::bytes_equal;
use mssqlrust::dataset::{
    DataCell, DataColumn, DataRow, DataSet, DataTable, DataValue, NameMap,
};
use mssqlrust::infrastructure::mssql::MssqlConfig;
use mssqlrust::Parameter;

#[test]
fn new_map_is_empty() {
    let map: NameMap<i32> = NameMap::new();
    assert_eq!(map.len(), 0);
    assert!(!map.contains_key("a"));
    assert!(map.get("a").is_none());
    let other: NameMap<i32> = NameMap::default();
    assert_eq!(other.len(), 0);
}

#[test]
fn insert_then_get() {
    let mut map: NameMap<i32> = NameMap::new();
    map.insert("a".to_string(), 1);
    map.insert("b".to_string(), 2);
    assert_eq!(map.len(), 2);
    assert!(map.contains_key("a"));
    assert!(map.contains_key("b"));
    assert!(!map.contains_key("c"));
    assert!(!map.contains_key("A"));
    assert_eq!(map.get("a"), Some(&1));
    assert_eq!(map.get("b"), Some(&2));
    assert_eq!(map["a"], 1);
    assert_eq!(map["b"], 2);
}

#[test]
fn insert_again_replaces_and_keeps_the_place() {
    let mut map: NameMap<i32> = NameMap::new();
    map.insert("a".to_string(), 1);
    map.insert("b".to_string(), 2);
    map.insert("c".to_string(), 3);
    map.insert("a".to_string(), 10);
    assert_eq!(map.len(), 3);
    assert_eq!(map["a"], 10);
    assert_eq!(map.name_at(0), "a");
    assert_eq!(map.name_at(1), "b");
    assert_eq!(map.name_at(2), "c");
    assert_eq!(*map.value_at(0), 10);
    assert_eq!(*map.value_at(1), 2);
    assert_eq!(*map.value_at(2), 3);
}

#[test]
fn names_are_compared_whole() {
    let mut map: NameMap<i32> = NameMap::new();
    map.insert("table1".to_string(), 1);
    map.insert("table10".to_string(), 10);
    map.insert("".to_string(), 0);
    assert_eq!(map.len(), 3);
    assert_eq!(map["table1"], 1);
    assert_eq!(map["table10"], 10);
    assert_eq!(map[""], 0);
    assert!(!map.contains_key("table"));
}

#[test]
fn clone_of_a_map_holds_the_same_entries() {
    let mut map: NameMap<String> = NameMap::new();
    map.insert("a".to_string(), "x".to_string());
    map.insert("b".to_string(), "y".to_string());
    let copy = map.clone();
    map.insert("a".to_string(), "z".to_string());
    assert_eq!(copy.len(), 2);
    assert_eq!(copy["a"], "x");
    assert_eq!(copy["b"], "y");
    assert_eq!(copy.name_at(0), "a");
    assert_eq!(copy.name_at(1), "b");
    assert_eq!(map["a"], "z");
}

#[test]
fn data_set_is_a_value_tree() {
    let mut table = DataTable::new("t");
    table.columns.push(DataColumn::default());
    let mut row = DataRow::default();
    row.cells.insert("id".into(), DataCell::new(1));
    table.rows.push(row);
    let mut ds = DataSet::new();
    ds.tables.insert(table.name.clone(), table);
    let copy = ds.clone();
    ds.tables.insert("t".to_string(), DataTable::default());
    assert_eq!(copy.tables["t"][0]["id"], 1);
    assert!(ds.tables["t"].rows.is_empty());
    assert_eq!(ds.tables["t"].name, "");
    assert_eq!(DataSet::default().tables.len(), 0);
}

#[test]
fn row_lookup_by_column() {
    let mut row = DataRow::default();
    assert!(row.get("a").is_none());
    row.cells.insert("a".into(), DataCell::new("x"));
    row.cells.insert("b".into(), DataCell { value: DataValue::Null });
    assert_eq!(row.get("a"), Some(&DataValue::Text("x".to_string())));
    assert_eq!(row.get("b"), Some(&DataValue::Null));
    assert!(row.get("c").is_none());
    assert_eq!(row["a"], "x");
}

#[test]
fn table_lookup_by_position() {
    let mut table = DataTable::new("table7");
    assert_eq!(table.name, "table7");
    assert!(table.columns.is_empty());
    assert!(table.rows.is_empty());
    assert!(table.get(0).is_none());
    table.rows.push(DataRow::default());
    assert!(table.get(0).is_some());
    assert!(table.get(1).is_none());
    assert_eq!(table[0].cells.len(), 0);
}

#[test]
fn bytes_are_compared_one_by_one() {
    assert!(bytes_equal(&[], &[]));
    assert!(bytes_equal(&[1, 2, 3], &[1, 2, 3]));
    assert!(!bytes_equal(&[1, 2, 3], &[1, 2]));
    assert!(!bytes_equal(&[1, 2, 3], &[1, 2, 4]));
    assert!(!bytes_equal(&[], &[0]));
}

#[test]
fn config_keeps_what_it_is_given() {
    let config = MssqlConfig::new("localhost", 1433, "sa", "secret", "master", true);
    assert_eq!(config.host, "localhost");
    assert_eq!(config.port, 1433);
    assert_eq!(config.username, "sa");
    assert_eq!(config.password, "secret");
    assert_eq!(config.database, "master");
    assert!(config.trust_cert);
    let copy = config.clone();
    assert_eq!(copy.host, "localhost");
    assert!(!MssqlConfig::new("h", 1, "u", "p", "d", false).trust_cert);
}

#[test]
fn parameter_keeps_name_and_value() {
    let parameter = Parameter::new("@id", 5);
    assert_eq!(parameter.name, "@id");
    assert_eq!(parameter.value, 5);
    let text = Parameter::new("name", "x");
    assert_eq!(text.name, "name");
    assert_eq!(text.value, "x");
    let given = Parameter::new("v", DataValue::BigInt(9));
    assert_eq!(given.value, DataValue::BigInt(9));
}

fn table_of(name: &str, rows: &[(&str, i32)]) -> DataTable {
    let mut table = DataTable::new(name);
    table.columns.push(DataColumn {
        name: "a".into(),
        sql_type: "int".into(),
        size: Some(4),
        nullable: false,
    });
    for (column, value) in rows {
        let mut row = DataRow::default();
        row.cells.insert((*column).into(), DataCell::new(*value));
        table.rows.push(row);
    }
    table
}

#[test]
fn maps_are_equal_whatever_the_order() {
    let mut first: NameMap<i32> = NameMap::new();
    first.insert("a".to_string(), 1);
    first.insert("b".to_string(), 2);
    let mut second: NameMap<i32> = NameMap::new();
    second.insert("b".to_string(), 2);
    second.insert("a".to_string(), 1);
    assert!(first == second);
    assert!(second == first);
    second.insert("a".to_string(), 3);
    assert!(first != second);
    second.insert("a".to_string(), 1);
    second.insert("c".to_string(), 1);
    assert!(first != second);
    assert!(second != first);
    let mut third: NameMap<i32> = NameMap::new();
    third.insert("a".to_string(), 1);
    third.insert("c".to_string(), 2);
    assert!(first != third);
    assert!(NameMap::<i32>::new() == NameMap::<i32>::default());
}

#[test]
fn columns_cells_and_rows_compare_by_what_they_hold() {
    let column = DataColumn { name: "a".into(), sql_type: "int".into(), size: None, nullable: true };
    assert_eq!(column, column.clone());
    assert_ne!(column, DataColumn { nullable: false, ..column.clone() });
    assert_ne!(column, DataColumn { size: Some(4), ..column.clone() });
    assert_ne!(column, DataColumn { name: "b".into(), ..column.clone() });
    assert_ne!(column, DataColumn { sql_type: "bit".into(), ..column.clone() });
    assert_eq!(DataColumn::default(), DataColumn::default());

    assert_eq!(DataCell::new(1), DataCell::new(1));
    assert_ne!(DataCell::new(1), DataCell::new(2));
    assert_ne!(DataCell::new(1), DataCell::new(true));
    assert_eq!(DataCell::default(), DataCell { value: DataValue::Null });
    assert_eq!(DataCell::from("x"), DataCell::new("x"));

    let mut row = DataRow::default();
    row.cells.insert("a".into(), DataCell::new(1));
    row.cells.insert("b".into(), DataCell::new("x"));
    let mut same = DataRow::default();
    same.cells.insert("b".into(), DataCell::new("x"));
    same.cells.insert("a".into(), DataCell::new(1));
    assert_eq!(row, same);
    assert_eq!(row, row.clone());
    same.cells.insert("a".into(), DataCell::new(2));
    assert_ne!(row, same);
    assert_ne!(row, DataRow::default());
}

#[test]
fn tables_and_data_sets_compare_by_what_they_hold() {
    let table = table_of("t", &[("a", 1), ("a", 2)]);
    assert_eq!(table, table.clone());
    assert_eq!(table, table_of("t", &[("a", 1), ("a", 2)]));
    assert_ne!(table, table_of("u", &[("a", 1), ("a", 2)]));
    assert_ne!(table, table_of("t", &[("a", 2), ("a", 1)]));
    assert_ne!(table, table_of("t", &[("a", 1)]));
    assert_ne!(table, table_of("t", &[("a", 1), ("b", 2)]));
    let mut other = table.clone();
    other.columns.push(DataColumn::default());
    assert_ne!(table, other);
    assert_eq!(DataTable::default(), DataTable::new(""));

    let mut ds = DataSet::new();
    ds.tables.insert("t".to_string(), table.clone());
    ds.tables.insert("u".to_string(), table_of("u", &[]));
    let mut same = DataSet::new();
    same.tables.insert("u".to_string(), table_of("u", &[]));
    same.tables.insert("t".to_string(), table.clone());
    assert_eq!(ds, same);
    assert_eq!(ds, ds.clone());
    same.tables.insert("t".to_string(), table_of("t", &[]));
    assert_ne!(ds, same);
    assert_ne!(ds, DataSet::new());
    assert_eq!(DataSet::new(), DataSet::default());
}
