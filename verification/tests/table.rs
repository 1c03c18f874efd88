use gtfs_parser::table::{Column, ColumnData, Table, TableError};

fn str_col(name: &str, vals: &[Option<&str>]) -> Column {
    Column {
        name: name.to_string(),
        data: ColumnData::Str(vals.iter().map(|v| v.map(|s| s.to_string())).collect()),
    }
}

#[test]
fn table_keeps_height_and_columns() {
    let t = Table::new(2, vec![str_col("a", &[Some("x"), None]), Column {
        name: "b".to_string(),
        data: ColumnData::Int64(vec![Some(1), Some(2)]),
    }])
    .unwrap();
    assert_eq!(t.height(), 2);
    assert_eq!(t.columns().len(), 2);
    assert_eq!(t.columns()[1].name, "b");
}

#[test]
fn column_of_other_length_is_refused() {
    let r = Table::new(3, vec![str_col("a", &[None, None, None]), str_col("b", &[None])]);
    assert_eq!(r.err(), Some(TableError::LengthMismatch(1)));
}

#[test]
fn duplicate_column_name_is_refused() {
    let r = Table::new(
        1,
        vec![str_col("a", &[None]), str_col("b", &[None]), str_col("a", &[Some("z")])],
    );
    assert_eq!(r.err(), Some(TableError::DuplicateName(0, 2)));
}

#[test]
fn empty_table_is_fine() {
    let t = Table::new(0, vec![]).unwrap();
    assert_eq!(t.height(), 0);
    assert!(t.column("a").is_none());
}

#[test]
fn typed_access_needs_the_right_type() {
    let t = Table::new(1, vec![str_col("n", &[Some("7")]), Column {
        name: "m".to_string(),
        data: ColumnData::Int64(vec![Some(7)]),
    }])
    .unwrap();
    assert!(t.int64_column("n").is_none());
    assert_eq!(t.int64_column("m"), Some(&vec![Some(7)]));
    assert_eq!(t.str_column("n"), Some(&vec![Some("7".to_string())]));
    assert!(t.str_column("m").is_none());
    assert!(t.str_column("missing").is_none());
    assert!(t.uint32_column("m").is_none());
    assert!(t.uint8_column("m").is_none());
    assert!(t.int8_column("m").is_none());
}
