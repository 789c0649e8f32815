use collab_media::number::NumberCellData;
use collab_media::value::{AnyMap, AnyValue, CELL_DATA};

#[test]
fn number_cell_keeps_text() {
    let n = NumberCellData::from_text("12.50".to_string());
    let back = NumberCellData::from_cell(&n.to_cell());
    assert_eq!(back, n);
    assert_eq!(back.to_cell_string(), "12.50");
    assert_eq!(back.as_str(), "12.50");
    assert!(!back.is_cell_empty());
}

#[test]
fn number_cell_empty_and_non_text() {
    assert!(NumberCellData::from_cell(&AnyMap::new()).is_cell_empty());
    let mut c = AnyMap::new();
    c.insert(CELL_DATA.to_string(), AnyValue::Int(5));
    assert_eq!(NumberCellData::from_cell(&c).to_cell_string(), "");
    assert!(NumberCellData::from_text(String::new()).is_cell_empty());
}
