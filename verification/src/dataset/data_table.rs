use super::data_column::{ColumnView, DataColumn};
use super::data_row::{rows_equal, DataRow, RowView};
use crate::text::{append_decimal, decimal_digits, lemma_decimal_digits_distinct, string_of};
use vstd::prelude::*;
use vstd::std_specs::cmp::PartialEqSpec;

verus! {

/// The name of the table that holds the result set with ordinal `index`:
/// `table0`, `table1` and so on.
pub open spec fn table_name(index: nat) -> Seq<char> {
    seq!['t', 'a', 'b', 'l', 'e'] + decimal_digits(index)
}

/// Result sets with different ordinals get tables with different names.
pub proof fn law_table_names_distinct(first: nat, second: nat)
    requires
        first != second,
    ensures
        table_name(first) != table_name(second),
{
    if table_name(first) == table_name(second) {
        assert(table_name(first).skip(5) =~= decimal_digits(first));
        assert(table_name(second).skip(5) =~= decimal_digits(second));
        lemma_decimal_digits_distinct(first, second);
    }
}

/// The name of the table that holds the result set with ordinal `index`.
pub fn name_of_table(index: usize) -> (name: String)
    ensures
        name@ == table_name(index as nat),
{
    let mut chars: Vec<char> = Vec::new();
    chars.push('t');
    chars.push('a');
    chars.push('b');
    chars.push('l');
    chars.push('e');
    append_decimal(&mut chars, index as u64);
    string_of(&chars)
}

/// One result set: its columns in the order in which the backend reported
/// them, and its rows in the order in which they arrived.
#[derive(Debug)]
pub struct DataTable {
    pub name: String,
    pub columns: Vec<DataColumn>,
    pub rows: Vec<DataRow>,
}

/// What a `DataTable` holds, as mathematics.
pub struct TableView {
    pub name: Seq<char>,
    pub columns: Seq<ColumnView>,
    pub rows: Seq<RowView>,
}

/// Whether two tables have the same name and columns, and rows that are
/// equal one by one.
pub open spec fn tables_equal(a: TableView, b: TableView) -> bool {
    &&& a.name == b.name
    &&& a.columns == b.columns
    &&& a.rows.len() == b.rows.len()
    &&& forall|i: int| 0 <= i < a.rows.len() ==> rows_equal(#[trigger] a.rows[i], b.rows[i])
}

impl View for DataTable {
    type V = TableView;

    open spec fn view(&self) -> TableView {
        TableView {
            name: self.name@,
            columns: self.columns@.map_values(|column: DataColumn| column@),
            rows: self.rows@.map_values(|row: DataRow| row@),
        }
    }
}

impl DataTable {
    /// An empty table called `name`.
    pub fn new(name: &str) -> (table: DataTable)
        ensures
            table@ == (TableView {
                name: name@,
                columns: Seq::<ColumnView>::empty(),
                rows: Seq::<RowView>::empty(),
            }),
    {
        let table = DataTable { name: name.to_owned(), columns: Vec::new(), rows: Vec::new() };
        assert(table@.columns =~= Seq::<ColumnView>::empty());
        assert(table@.rows =~= Seq::<RowView>::empty());
        table
    }

    /// The row at `position`, or `None` when the table has no such row.
    pub fn get(&self, position: usize) -> (found: Option<&DataRow>)
        ensures
            match found {
                Some(row) => position < self@.rows.len() && row@ == self@.rows[position as int],
                None => position >= self@.rows.len(),
            },
    {
        if position < self.rows.len() {
            Some(&self.rows[position])
        } else {
            None
        }
    }
}

impl Clone for DataTable {
    fn clone(&self) -> (copy: DataTable)
        ensures
            copy@ == self@,
    {
        let copy = DataTable {
            name: self.name.clone(),
            columns: self.columns.clone(),
            rows: self.rows.clone(),
        };
        assert(copy@.columns =~= self@.columns);
        assert(copy@.rows =~= self@.rows);
        copy
    }
}

impl PartialEq for DataTable {
    fn eq(&self, other: &DataTable) -> (r: bool) {
        let names = self.name == other.name;
        let columns = self.columns == other.columns;
        let rows = self.rows == other.rows;
        proof {
            if columns {
                assert(self@.columns =~= other@.columns);
            } else if self.columns.len() == other.columns.len() {
                let i = choose|i: int|
                    0 <= i < self.columns.len() && !(#[trigger] self.columns[i]).eq_spec(
                        &other.columns[i],
                    );
                assert(self@.columns[i] != other@.columns[i]);
            }
            if !rows && self.rows.len() == other.rows.len() {
                let i = choose|i: int|
                    0 <= i < self.rows.len() && !(#[trigger] self.rows[i]).eq_spec(&other.rows[i]);
                assert(!rows_equal(self@.rows[i], other@.rows[i]));
            }
        }
        names && columns && rows
    }
}

impl vstd::std_specs::cmp::PartialEqSpecImpl for DataTable {
    open spec fn obeys_eq_spec() -> bool {
        true
    }

    open spec fn eq_spec(&self, other: &DataTable) -> bool {
        tables_equal(self@, other@)
    }
}

impl Default for DataTable {
    fn default() -> (table: DataTable)
        ensures
            table@ == (TableView {
                name: Seq::<char>::empty(),
                columns: Seq::<ColumnView>::empty(),
                rows: Seq::<RowView>::empty(),
            }),
    {
        let table = DataTable { name: String::new(), columns: Vec::new(), rows: Vec::new() };
        assert(table@.columns =~= Seq::<ColumnView>::empty());
        assert(table@.rows =~= Seq::<RowView>::empty());
        table
    }
}

impl core::ops::Index<usize> for DataTable {
    type Output = DataRow;

    fn index(&self, index: usize) -> (row: &DataRow)
        ensures
            row@ == self@.rows[index as int],
    {
        &self.rows[index]
    }
}

impl vstd::std_specs::core::IndexSpecImpl<usize> for DataTable {
    open spec fn index_req(&self, index: &usize) -> bool {
        *index < self@.rows.len()
    }
}

} // verus!
