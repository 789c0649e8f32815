//! The number field: a cell holds the number's text as written, never parsed.
use vstd::string::StrSliceExecFns;
use crate::value::{AnyMap, AnyValue, Cell, CELL_DATA};
use vstd::prelude::*;

verus! {

/// The field-type tag that a number cell records.
pub const NUMBER_FIELD_TYPE: i64 = 1;

/// A number as the text that was entered.
#[derive(Clone, Debug, PartialEq, Eq)]
pub struct NumberCellData(pub String);

/// The text that a value stands for in a number cell: a string as it is,
/// anything else as the empty text.
pub open spec fn number_text_of(v: Option<AnyValue>) -> Seq<char> {
    match v {
        Some(AnyValue::Text(s)) => s@,
        _ => Seq::empty(),
    }
}

impl NumberCellData {
    /// Whether no text was entered.
    pub fn is_cell_empty(&self) -> (r: bool)
        ensures
            r == (self.0@.len() == 0),
    {
        self.0.as_str().unicode_len() == 0
    }

    /// The number's text.
    pub fn as_str(&self) -> (r: &str)
        ensures
            r@ == self.0@,
    {
        self.0.as_str()
    }

    /// Wraps a number's text.
    pub fn from_text(s: String) -> (r: Self)
        ensures
            r.0 == s,
    {
        NumberCellData(s)
    }

    /// The number's text, as the cell shows it.
    pub fn to_cell_string(&self) -> (r: String)
        ensures
            r@ == self.0@,
    {
        self.0.clone()
    }

    /// Reads the data slot of a cell; anything but a string gives the empty text.
    pub fn from_cell(c: &Cell) -> (r: Self)
        ensures
            r.0@ == number_text_of(c.lookup(CELL_DATA@)),
    {
        match c.get(CELL_DATA) {
            Some(AnyValue::Text(s)) => NumberCellData(s.clone()),
            _ => NumberCellData(String::new()),
        }
    }

    /// A number cell: the field-type tag, and the text under the data slot.
    pub fn to_cell(&self) -> (r: Cell)
        ensures
            r.lookup(CELL_DATA@) matches Some(AnyValue::Text(s)) && s@ == self.0@,
    {
        let mut c = AnyMap::with_field_type(NUMBER_FIELD_TYPE);
        c.insert(CELL_DATA.to_owned(), AnyValue::Text(self.0.clone()));
        c
    }
}

/// A number's text written to a cell and read back is the same text.
pub proof fn lemma_number_cell_round_trip(n: NumberCellData, c: Cell, back: NumberCellData)
    requires
        c.lookup(CELL_DATA@) matches Some(AnyValue::Text(s)) && s@ == n.0@,
        back.0@ == number_text_of(c.lookup(CELL_DATA@)),
    ensures
        back.0@ == n.0@,
{
}

} // verus!
