use czkawka_gui::common_tree_view::toggle_selection_button;
use czkawka_gui::list_store::{CellValue, ColumnType, ListStore};

fn two_column_store() -> ListStore {
    let types = vec![ColumnType::Bool, ColumnType::Str];
    let mut store = ListStore::new(&types);
    store.append(vec![
        CellValue::Bool(false),
        CellValue::Str(String::from("first")),
    ]);
    store.append(vec![
        CellValue::Bool(true),
        CellValue::Str(String::from("second")),
    ]);
    store
}

#[test]
fn new_store_is_empty_and_keeps_types() {
    let types = vec![ColumnType::Bool, ColumnType::Str, ColumnType::U64];
    let store = ListStore::new(&types);
    assert_eq!(store.len(), 0);
    assert_eq!(store.n_columns(), 3);
    assert_eq!(store.types, types);
}

#[test]
fn append_adds_rows_in_order() {
    let store = two_column_store();
    assert_eq!(store.len(), 2);
    assert_eq!(store.rows[0][1], CellValue::Str(String::from("first")));
    assert_eq!(store.rows[1][1], CellValue::Str(String::from("second")));
}

#[test]
fn get_bool_reads_the_cell() {
    let store = two_column_store();
    assert!(!store.get_bool(0, 0));
    assert!(store.get_bool(1, 0));
}

#[test]
fn set_value_changes_only_the_cell() {
    let mut store = two_column_store();
    store.set_value(0, 1, CellValue::Str(String::from("renamed")));
    assert_eq!(store.rows[0][0], CellValue::Bool(false));
    assert_eq!(store.rows[0][1], CellValue::Str(String::from("renamed")));
    assert_eq!(store.rows[1][0], CellValue::Bool(true));
    assert_eq!(store.rows[1][1], CellValue::Str(String::from("second")));
}

#[test]
fn check_type_matches_columns() {
    assert!(CellValue::Bool(true).check_type(ColumnType::Bool));
    assert!(!CellValue::Bool(true).check_type(ColumnType::Str));
    assert!(CellValue::Str(String::from("x")).check_type(ColumnType::Str));
    assert!(!CellValue::Str(String::from("x")).check_type(ColumnType::U64));
    assert!(CellValue::U64(7).check_type(ColumnType::U64));
    assert!(!CellValue::U64(7).check_type(ColumnType::Bool));
}

#[test]
fn toggle_flips_the_selection_cell() {
    let mut store = two_column_store();
    toggle_selection_button(&mut store, 0, 0);
    assert!(store.get_bool(0, 0));
    toggle_selection_button(&mut store, 1, 0);
    assert!(!store.get_bool(1, 0));
}

#[test]
fn toggle_twice_restores_the_store() {
    let mut store = two_column_store();
    let before = store.rows.clone();
    toggle_selection_button(&mut store, 1, 0);
    assert_ne!(store.rows, before);
    toggle_selection_button(&mut store, 1, 0);
    assert_eq!(store.rows, before);
}

#[test]
fn toggle_leaves_other_cells_alone() {
    let mut store = two_column_store();
    toggle_selection_button(&mut store, 0, 0);
    assert_eq!(store.rows[0][1], CellValue::Str(String::from("first")));
    assert_eq!(store.rows[1][0], CellValue::Bool(true));
    assert_eq!(store.rows[1][1], CellValue::Str(String::from("second")));
}
