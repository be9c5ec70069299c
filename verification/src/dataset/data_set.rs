use super::data_table::{name_of_table, table_name, tables_equal, DataTable, TableView};
use super::data_value::{DataValue, ValueView};
use super::name_map::NameMap;
use vstd::prelude::*;
use vstd::std_specs::cmp::PartialEqSpec;

verus! {

/// Everything that one command returned: its tables, by name.
#[derive(Debug)]
pub struct DataSet {
    pub tables: NameMap<DataTable>,
}

/// What a `DataSet` holds, as mathematics.
pub type DataSetView = Map<Seq<char>, TableView>;

/// Why a value could not be looked up in a `DataSet`.
#[derive(Clone, Copy, Debug, PartialEq, Eq, Structural)]
pub enum LookupError {
    /// The data set has no table of that name.
    UnknownTable,
    /// The table has no row at that position.
    RowOutOfRange,
    /// The row has no column of that name.
    UnknownColumn,
}

/// The value at `row` and `column` of `table`, or what is missing on the way
/// to it.
pub open spec fn lookup(
    data_set: DataSetView,
    table: Seq<char>,
    row: int,
    column: Seq<char>,
) -> Result<ValueView, LookupError> {
    if !data_set.contains_key(table) {
        Err(LookupError::UnknownTable)
    } else if !(0 <= row < data_set[table].rows.len()) {
        Err(LookupError::RowOutOfRange)
    } else if !data_set[table].rows[row].contains_key(column) {
        Err(LookupError::UnknownColumn)
    } else {
        Ok(data_set[table].rows[row][column])
    }
}

/// The first column of the first row of the first result set, if that
/// result set has a row.
pub open spec fn scalar_of(data_set: DataSetView) -> Option<ValueView> {
    let name = table_name(0);
    if !data_set.contains_key(name) {
        None
    } else {
        let table = data_set[name];
        if table.rows.len() == 0 || table.columns.len() == 0 {
            None
        } else if !table.rows[0].contains_key(table.columns[0].name) {
            None
        } else {
            Some(table.rows[0][table.columns[0].name])
        }
    }
}

/// Whether two data sets hold the same names with equal tables.
pub open spec fn data_sets_equal(a: DataSetView, b: DataSetView) -> bool {
    &&& a.dom() == b.dom()
    &&& forall|name: Seq<char>| #[trigger] a.contains_key(name) ==> tables_equal(a[name], b[name])
}

impl View for DataSet {
    type V = DataSetView;

    open spec fn view(&self) -> DataSetView {
        self.tables@.map_values(|table: DataTable| table@)
    }
}

impl DataSet {
    /// A data set without tables: no name is bound, and none is listed.
    pub fn new() -> (data_set: DataSet)
        ensures
            data_set@ == Map::<Seq<char>, TableView>::empty(),
            data_set.tables@ == Map::<Seq<char>, DataTable>::empty(),
            data_set.tables.names() == Seq::<Seq<char>>::empty(),
    {
        let data_set = DataSet { tables: NameMap::new() };
        assert(data_set@ =~= Map::<Seq<char>, TableView>::empty());
        data_set
    }

    /// The value at `row` and `column` of `table`. A table, row or column
    /// that does not exist is reported as such, never replaced by a default.
    pub fn value_at(&self, table: &str, row: usize, column: &str) -> (found: Result<
        &DataValue,
        LookupError,
    >)
        ensures
            match found {
                Ok(value) => lookup(self@, table@, row as int, column@) == Ok::<
                    ValueView,
                    LookupError,
                >(value@),
                Err(error) => lookup(self@, table@, row as int, column@) == Err::<
                    ValueView,
                    LookupError,
                >(error),
            },
    {
        match self.tables.get(table) {
            None => Err(LookupError::UnknownTable),
            Some(found_table) => match found_table.get(row) {
                None => Err(LookupError::RowOutOfRange),
                Some(found_row) => match found_row.get(column) {
                    None => Err(LookupError::UnknownColumn),
                    Some(value) => Ok(value),
                },
            },
        }
    }
}

impl DataSet {
    /// The single value that a scalar query asks for: the first column of
    /// the first row of the first result set, or `None` when that result set
    /// has no row.
    pub fn scalar(&self) -> (found: Option<&DataValue>)
        ensures
            match found {
                Some(value) => scalar_of(self@) == Some(value@),
                None => scalar_of(self@) is None,
            },
    {
        let name = name_of_table(0);
        match self.tables.get(name.as_str()) {
            None => None,
            Some(table) => {
                if table.rows.len() == 0 || table.columns.len() == 0 {
                    None
                } else {
                    table.rows[0].get(table.columns[0].name.as_str())
                }
            },
        }
    }
}

impl Clone for DataSet {
    fn clone(&self) -> (copy: DataSet)
        ensures
            copy@ == self@,
    {
        let copy = DataSet { tables: self.tables.clone() };
        copy
    }
}

impl PartialEq for DataSet {
    fn eq(&self, other: &DataSet) -> (r: bool) {
        let r = self.tables == other.tables;
        proof {
            assert(self@.dom() =~= self.tables@.dom());
            assert(other@.dom() =~= other.tables@.dom());
        }
        r
    }
}

impl vstd::std_specs::cmp::PartialEqSpecImpl for DataSet {
    open spec fn obeys_eq_spec() -> bool {
        true
    }

    open spec fn eq_spec(&self, other: &DataSet) -> bool {
        data_sets_equal(self@, other@)
    }
}

impl Default for DataSet {
    fn default() -> (data_set: DataSet)
        ensures
            data_set@ == Map::<Seq<char>, TableView>::empty(),
    {
        DataSet::new()
    }
}

} // verus!
