//! A typed, row-oriented table: the in-memory model behind one tree view.
//!
//! A store is created with a fixed list of column types; every row holds
//! one value per column, of that column's type. This is the shape the
//! toolkit's list store gives the rest of the application, stated here as
//! plain data so that the operations on it can be verified.

use vstd::prelude::*;

verus! {

/// The type of the values kept in one model column.
#[derive(Clone, Copy, Debug, PartialEq, Eq, Structural)]
pub enum ColumnType {
    Bool,
    Str,
    U64,
}

/// One cell of a row: a value of one of the column types.
#[derive(Clone, Debug, PartialEq, Eq)]
pub enum CellValue {
    Bool(bool),
    Str(String),
    U64(u64),
}

impl CellValue {
    /// Whether this value belongs to a column of type `t`.
    pub open spec fn has_type(self, t: ColumnType) -> bool {
        match self {
            CellValue::Bool(_) => t is Bool,
            CellValue::Str(_) => t is Str,
            CellValue::U64(_) => t is U64,
        }
    }

    /// The boolean carried by a `Bool` cell.
    pub open spec fn spec_bool(self) -> bool
        recommends
            self is Bool,
    {
        match self {
            CellValue::Bool(b) => b,
            _ => false,
        }
    }

    pub fn check_type(&self, t: ColumnType) -> (r: bool)
        ensures
            r == self.has_type(t),
    {
        match self {
            CellValue::Bool(_) => (match t {
                ColumnType::Bool => true,
                _ => false,
            }),
            CellValue::Str(_) => (match t {
                ColumnType::Str => true,
                _ => false,
            }),
            CellValue::U64(_) => (match t {
                ColumnType::U64 => true,
                _ => false,
            }),
        }
    }
}

/// The model behind one tree view: typed columns, and rows of cells.
pub struct ListStore {
    pub types: Vec<ColumnType>,
    pub rows: Vec<Vec<CellValue>>,
}

impl ListStore {
    /// A row fits this store when it has one cell per column, each of the
    /// column's type.
    pub open spec fn row_wf(self, row: Seq<CellValue>) -> bool {
        &&& row.len() == self.types@.len()
        &&& forall|c: int|
            0 <= c < row.len() ==> (#[trigger] row[c]).has_type(self.types@[c])
    }

    /// Every row of the store fits its columns.
    pub open spec fn wf(self) -> bool {
        forall|r: int|
            0 <= r < self.rows@.len() ==> self.row_wf((#[trigger] self.rows@[r])@)
    }

    /// A fresh, empty store over the given column types.
    pub fn new(types: &Vec<ColumnType>) -> (s: ListStore)
        ensures
            s.types@ == types@,
            s.rows@.len() == 0,
            s.wf(),
    {
        let mut copied: Vec<ColumnType> = Vec::new();
        let mut i: usize = 0;
        while i < types.len()
            invariant
                i <= types@.len(),
                copied@ == types@.subrange(0, i as int),
            decreases types@.len() - i,
        {
            copied.push(types[i]);
            i = i + 1;
        }
        proof {
            assert(copied@ =~= types@);
        }
        ListStore { types: copied, rows: Vec::new() }
    }

    /// How many columns the store was created with.
    pub fn n_columns(&self) -> (n: usize)
        ensures
            n == self.types@.len(),
    {
        self.types.len()
    }

    /// How many rows the store holds.
    pub fn len(&self) -> (n: usize)
        ensures
            n == self.rows@.len(),
    {
        self.rows.len()
    }

    /// Appends a row that fits the columns.
    pub fn append(&mut self, row: Vec<CellValue>)
        requires
            old(self).wf(),
            old(self).row_wf(row@),
        ensures
            final(self).wf(),
            final(self).types@ == old(self).types@,
            final(self).rows@ == old(self).rows@.push(row),
    {
        self.rows.push(row);
    }

    /// Reads the boolean in a `Bool` column of one row.
    pub fn get_bool(&self, row: usize, column_id: i32) -> (b: bool)
        requires
            self.wf(),
            row < self.rows@.len(),
            0 <= column_id < self.types@.len(),
            self.types@[column_id as int] is Bool,
        ensures
            self.rows@[row as int]@[column_id as int] == CellValue::Bool(b),
    {
        match &self.rows[row][column_id as usize] {
            CellValue::Bool(b) => *b,
            _ => false,
        }
    }

    /// Replaces one cell with a value of the column's type.
    pub fn set_value(&mut self, row: usize, column_id: u32, value: CellValue)
        requires
            old(self).wf(),
            row < old(self).rows@.len(),
            column_id < old(self).types@.len(),
            value.has_type(old(self).types@[column_id as int]),
        ensures
            final(self).wf(),
            final(self).types@ == old(self).types@,
            final(self).rows@.len() == old(self).rows@.len(),
            forall|r: int|
                0 <= r < old(self).rows@.len() && r != row ==> final(self).rows@[r]
                    == old(self).rows@[r],
            final(self).rows@[row as int]@ == old(self).rows@[row as int]@.update(
                column_id as int,
                value,
            ),
    {
        let mut changed = self.rows.remove(row);
        changed[column_id as usize] = value;
        self.rows.insert(row, changed);
        proof {
            assert(self.rows@ =~= old(self).rows@.update(row as int, self.rows@[row as int]));
            assert forall|r: int| 0 <= r < self.rows@.len() implies self.row_wf(
                (#[trigger] self.rows@[r])@,
            ) by {
                assert(old(self).row_wf(old(self).rows@[r]@));
            }
        }
    }
}

} // verus!
