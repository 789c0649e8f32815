use collab_media::database::{Database, Row};
use collab_media::value::{AnyMap, AnyValue, Cell, SlotMap, CELL_DATA};

fn text_cell(s: &str) -> Cell {
    let mut c = AnyMap::new();
    c.insert(CELL_DATA.to_string(), AnyValue::Text(s.to_string()));
    c
}

fn row(id: i64, cells: &[(&str, &str)]) -> Row {
    let mut map = SlotMap::new();
    for (field, text) in cells {
        map.insert(field.to_string(), text_cell(text));
    }
    Row { id, cells: map }
}

/// Three rows in view `v1`: the first has cells for f1, f2 and f3, the second
/// for f1 and f2, the third for f1 and f3.
fn create_database_with_default_data(_uid: i64, _database_id: &str) -> Database {
    let mut db = Database::new("v1".to_string());
    db.push_row(row(1, &[("f1", "1f1cell"), ("f2", "1f2cell"), ("f3", "1f3cell")]));
    db.push_row(row(2, &[("f1", "2f1cell"), ("f2", "2f2cell")]));
    db.push_row(row(3, &[("f1", "3f1cell"), ("f3", "3f3cell")]));
    db
}

#[test]
fn get_cell_for_field_test() {
    let database_test = create_database_with_default_data(1, "1");

    let cells = database_test.get_cells_for_field("v1", "f1");
    assert_eq!(cells.len(), 3);

    let cells = database_test.get_cells_for_field("v1", "f2");
    assert_eq!(cells.len(), 2);

    let cells = database_test.get_cells_for_field("v1", "f3");
    assert_eq!(cells.len(), 2);
}

#[test]
fn update_cell_for_field_test() {
    let mut database_test = create_database_with_default_data(1, "1");
    let cells = database_test.get_cells_for_field("v1", "f1");
    assert_eq!(cells.len(), 3);

    database_test.update_cell(1, "f1".to_string(), text_cell("hello world"));

    let cells = database_test.get_cells_for_field("v1", "f1");
    assert_eq!(cells[0].get_str_value("data").unwrap(), "hello world");
}

#[test]
fn update_empty_cell_for_field_test() {
    let mut database_test = create_database_with_default_data(1, "1");
    let cells = database_test.get_cells_for_field("v1", "f2");
    assert_eq!(cells.len(), 2);

    database_test.update_cell(3, "f2".to_string(), text_cell("hello world"));

    let cells = database_test.get_cells_for_field("v1", "f2");
    assert_eq!(cells.len(), 3);
    assert_eq!(cells[2].get_str_value("data").unwrap(), "hello world");
}

#[test]
fn cells_of_unknown_view_or_row() {
    let mut db = create_database_with_default_data(1, "1");
    assert!(db.get_cells_for_field("v2", "f1").is_empty());
    assert!(!db.update_cell(9, "f1".to_string(), text_cell("x")));
    assert_eq!(db.get_cells_for_field("v1", "f1").len(), 3);
    assert_eq!(
        db.get_cells_for_field("v1", "f3")[1].get_str_value("data").unwrap(),
        "3f3cell"
    );
}
