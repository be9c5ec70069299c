use super::data_cell::DataCell;
use super::data_value::{DataValue, ValueView};
use super::name_map::NameMap;
use vstd::prelude::*;
use vstd::std_specs::cmp::PartialEqSpec;

verus! {

/// One row of a table: the value of each of its columns, by the column's name.
#[derive(Debug)]
pub struct DataRow {
    pub cells: NameMap<DataCell>,
}

/// What a row holds, as mathematics: a value for each column name.
pub type RowView = Map<Seq<char>, ValueView>;

/// Whether two rows hold the same columns with equal values.
pub open spec fn rows_equal(a: RowView, b: RowView) -> bool {
    &&& a.dom() == b.dom()
    &&& forall|column: Seq<char>| #[trigger] a.contains_key(column) ==> a[column].equals(b[column])
}

impl View for DataRow {
    type V = RowView;

    open spec fn view(&self) -> RowView {
        self.cells@.map_values(|cell: DataCell| cell@)
    }
}

impl DataRow {
    /// The value in `column`, or `None` when the row has no such column.
    pub fn get(&self, column: &str) -> (found: Option<&DataValue>)
        ensures
            match found {
                Some(value) => self@.contains_key(column@) && value@ == self@[column@],
                None => !self@.contains_key(column@),
            },
    {
        match self.cells.get(column) {
            Some(cell) => Some(&cell.value),
            None => None,
        }
    }
}

impl Clone for DataRow {
    fn clone(&self) -> (copy: DataRow)
        ensures
            copy@ == self@,
    {
        let copy = DataRow { cells: self.cells.clone() };
        copy
    }
}

impl PartialEq for DataRow {
    fn eq(&self, other: &DataRow) -> (r: bool) {
        let r = self.cells == other.cells;
        proof {
            assert(self@.dom() =~= self.cells@.dom());
            assert(other@.dom() =~= other.cells@.dom());
        }
        r
    }
}

impl vstd::std_specs::cmp::PartialEqSpecImpl for DataRow {
    open spec fn obeys_eq_spec() -> bool {
        true
    }

    open spec fn eq_spec(&self, other: &DataRow) -> bool {
        rows_equal(self@, other@)
    }
}

impl Default for DataRow {
    fn default() -> (row: DataRow)
        ensures
            row@ == Map::<Seq<char>, ValueView>::empty(),
    {
        let row = DataRow { cells: NameMap::new() };
        row
    }
}

impl<'a> core::ops::Index<&'a str> for DataRow {
    type Output = DataValue;

    fn index(&self, column: &'a str) -> (value: &DataValue)
        ensures
            value@ == self@[column@],
    {
        let cell: &DataCell = core::ops::Index::index(&self.cells, column);
        &cell.value
    }
}

impl<'a> vstd::std_specs::core::IndexSpecImpl<&'a str> for DataRow {
    open spec fn index_req(&self, column: &&'a str) -> bool {
        self@.contains_key(column@)
    }
}

} // verus!
