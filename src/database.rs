//! Rows of a database, each with one cell per field, and the views that order them.
use crate::text::str_eq;
use crate::value::{Cell, SlotMap};
use vstd::prelude::*;

verus! {

/// A row: its id and its cells, each under the id of its field.
pub struct Row {
    pub id: i64,
    pub cells: SlotMap<Cell>,
}

/// A view of the database: its id and the order of its rows.
pub struct DatabaseView {
    pub id: String,
    pub row_orders: Vec<i64>,
}

/// The rows of a database and its views.
pub struct Database {
    pub rows: Vec<Row>,
    pub views: Vec<DatabaseView>,
}

/// The index of the first row with id `id`, looking from `i` on.
pub open spec fn row_index_from(rows: Seq<Row>, id: i64, i: int) -> Option<int>
    decreases rows.len() - i,
{
    if i < 0 || i >= rows.len() {
        None
    } else if rows[i].id == id {
        Some(i)
    } else {
        row_index_from(rows, id, i + 1)
    }
}

/// The index of the first view with id `id`, looking from `i` on.
pub open spec fn view_index_from(views: Seq<DatabaseView>, id: Seq<char>, i: int) -> Option<int>
    decreases views.len() - i,
{
    if i < 0 || i >= views.len() {
        None
    } else if views[i].id@ == id {
        Some(i)
    } else {
        view_index_from(views, id, i + 1)
    }
}

proof fn lemma_row_index_found(rows: Seq<Row>, id: i64, i: int)
    ensures
        row_index_from(rows, id, i) matches Some(k) ==> i <= k < rows.len() && rows[k].id == id,
    decreases rows.len() - i,
{
    if 0 <= i < rows.len() && rows[i].id != id {
        lemma_row_index_found(rows, id, i + 1);
    }
}

proof fn lemma_view_index_found(views: Seq<DatabaseView>, id: Seq<char>, i: int)
    ensures
        view_index_from(views, id, i) matches Some(k) ==> i <= k < views.len() && views[k].id@ == id,
    decreases views.len() - i,
{
    if 0 <= i < views.len() && views[i].id@ != id {
        lemma_view_index_found(views, id, i + 1);
    }
}

/// The cell of field `field` in the row with id `id`, if both are there.
pub open spec fn row_cell(rows: Seq<Row>, id: i64, field: Seq<char>) -> Option<Cell> {
    match row_index_from(rows, id, 0) {
        Some(i) => rows[i].cells.lookup(field),
        None => None,
    }
}

/// The cells of field `field` in the rows listed by `order` from `i` on, skipping
/// rows that are missing or have no such cell.
pub open spec fn field_cells_from(rows: Seq<Row>, order: Seq<i64>, field: Seq<char>, i: int) -> Seq<
    Cell,
>
    decreases order.len() - i,
{
    if i < 0 || i >= order.len() {
        Seq::empty()
    } else {
        match row_cell(rows, order[i], field) {
            Some(c) => seq![c] + field_cells_from(rows, order, field, i + 1),
            None => field_cells_from(rows, order, field, i + 1),
        }
    }
}

/// The cells of field `field` that view `view` shows, in its row order.
pub open spec fn field_cells(db: Database, view: Seq<char>, field: Seq<char>) -> Seq<Cell> {
    match view_index_from(db.views@, view, 0) {
        Some(v) => field_cells_from(db.rows@, db.views@[v].row_orders@, field, 0),
        None => Seq::empty(),
    }
}

impl Database {
    /// A database with one view and no rows.
    pub fn new(view_id: String) -> (r: Self)
        ensures
            r.rows@.len() == 0,
            r.views@.len() == 1,
            r.views@[0].id == view_id,
            r.views@[0].row_orders@.len() == 0,
    {
        let mut views: Vec<DatabaseView> = Vec::new();
        views.push(DatabaseView { id: view_id, row_orders: Vec::new() });
        Database { rows: Vec::new(), views }
    }

    fn find_row(&self, id: i64) -> (r: Option<usize>)
        ensures
            match r {
                Some(i) => row_index_from(self.rows@, id, 0) == Some(i as int) && i < self.rows@.len()
                    && self.rows@[i as int].id == id,
                None => row_index_from(self.rows@, id, 0) is None,
            },
    {
        proof {
            lemma_row_index_found(self.rows@, id, 0);
        }
        let mut i: usize = 0;
        while i < self.rows.len()
            invariant
                i <= self.rows@.len(),
                row_index_from(self.rows@, id, 0) == row_index_from(self.rows@, id, i as int),
            decreases self.rows@.len() - i,
        {
            if self.rows[i].id == id {
                return Some(i);
            }
            i = i + 1;
        }
        None
    }

    fn find_view(&self, id: &str) -> (r: Option<usize>)
        ensures
            match r {
                Some(i) => view_index_from(self.views@, id@, 0) == Some(i as int) && i
                    < self.views@.len(),
                None => view_index_from(self.views@, id@, 0) is None,
            },
    {
        proof {
            lemma_view_index_found(self.views@, id@, 0);
        }
        let mut i: usize = 0;
        while i < self.views.len()
            invariant
                i <= self.views@.len(),
                view_index_from(self.views@, id@, 0) == view_index_from(self.views@, id@, i as int),
            decreases self.views@.len() - i,
        {
            if str_eq(self.views[i].id.as_str(), id) {
                return Some(i);
            }
            i = i + 1;
        }
        None
    }

    /// The cells of a field in the rows of a view, in the view's order; rows
    /// without a cell for the field are skipped, and an unknown view has none.
    pub fn get_cells_for_field(&self, view_id: &str, field_id: &str) -> (r: Vec<&Cell>)
        ensures
            r@.map_values(|c: &Cell| *c) == field_cells(*self, view_id@, field_id@),
    {
        let mut out: Vec<&Cell> = Vec::new();
        match self.find_view(view_id) {
            None => {
                assert(out@.map_values(|c: &Cell| *c) =~= Seq::<Cell>::empty());
                out
            },
            Some(v) => {
                let order = &self.views[v].row_orders;
                let ghost total = field_cells_from(self.rows@, order@, field_id@, 0);
                let mut i: usize = 0;
                assert(out@.map_values(|c: &Cell| *c) =~= Seq::<Cell>::empty());
                while i < order.len()
                    invariant
                        i <= order@.len(),
                        order@ == self.views@[v as int].row_orders@,
                        total == field_cells_from(self.rows@, order@, field_id@, 0),
                        out@.map_values(|c: &Cell| *c) + field_cells_from(
                            self.rows@,
                            order@,
                            field_id@,
                            i as int,
                        ) == total,
                    decreases order@.len() - i,
                {
                    let ghost before = out@;
                    match self.find_row(order[i]) {
                        Some(j) => match self.rows[j].cells.get(field_id) {
                            Some(c) => {
                                out.push(c);
                                assert(out@.map_values(|c: &Cell| *c) == before.map_values(
                                    |c: &Cell| *c,
                                ).push(*c));
                            },
                            None => {},
                        },
                        None => {},
                    }
                    i = i + 1;
                }
                out
            },
        }
    }

    /// Puts `cell` under `field_id` in the row with id `row_id`; returns whether
    /// there is such a row. Nothing else changes.
    pub fn update_cell(&mut self, row_id: i64, field_id: String, cell: Cell) -> (r: bool)
        ensures
            row_index_from(old(self).rows@, row_id, 0) matches Some(k) ==> 0 <= k < old(
                self,
            ).rows@.len(),
            r == row_index_from(old(self).rows@, row_id, 0) is Some,
            final(self).views@ == old(self).views@,
            final(self).rows@.len() == old(self).rows@.len(),
            forall|i: int|
                0 <= i < old(self).rows@.len() && Some(i) != row_index_from(old(self).rows@, row_id, 0)
                    ==> #[trigger] final(self).rows@[i] == old(self).rows@[i],
            r ==> ({
                let i = row_index_from(old(self).rows@, row_id, 0)->0;
                &&& final(self).rows@[i].id == row_id
                &&& final(self).rows@[i].cells.lookup(field_id@) == Some(cell)
                &&& forall|f: Seq<char>|
                    f != field_id@ ==> final(self).rows@[i].cells.lookup(f) == old(
                        self,
                    ).rows@[i].cells.lookup(f)
            }),
    {
        proof {
            lemma_row_index_found(self.rows@, row_id, 0);
        }
        match self.find_row(row_id) {
            None => false,
            Some(i) => {
                let ghost before = self.rows@;
                let mut row = self.rows.remove(i);
                row.cells.insert(field_id, cell);
                self.rows.insert(i, row);
                assert(self.rows@ == before.update(i as int, row));
                true
            },
        }
    }

    /// Adds a row after the others, and at the end of every view's order.
    pub fn push_row(&mut self, row: Row)
        ensures
            final(self).rows@ == old(self).rows@.push(row),
            final(self).views@.len() == old(self).views@.len(),
            forall|i: int|
                0 <= i < old(self).views@.len() ==> (#[trigger] final(self).views@[i]).id
                    == old(self).views@[i].id && final(self).views@[i].row_orders@ == old(
                    self,
                ).views@[i].row_orders@.push(row.id),
    {
        let id = row.id;
        self.rows.push(row);
        let mut i: usize = 0;
        while i < self.views.len()
            invariant
                i <= self.views@.len(),
                self.rows@ == old(self).rows@.push(row),
                self.views@.len() == old(self).views@.len(),
                id == row.id,
                forall|j: int|
                    0 <= j < i ==> (#[trigger] self.views@[j]).id == old(self).views@[j].id
                        && self.views@[j].row_orders@ == old(self).views@[j].row_orders@.push(id),
                forall|j: int| i <= j < self.views@.len() ==> #[trigger] self.views@[j] == old(self).views@[j],
            decreases self.views@.len() - i,
        {
            let mut v = self.views.remove(i);
            v.row_orders.push(id);
            self.views.insert(i, v);
            i = i + 1;
        }
    }
}

} // verus!
