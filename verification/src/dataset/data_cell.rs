use super::data_value::{DataValue, ValueView};
use vstd::prelude::*;
use vstd::std_specs::convert::FromSpec;

verus! {

/// One value at a row and a column.
#[derive(Debug)]
pub struct DataCell {
    pub value: DataValue,
}

impl View for DataCell {
    type V = ValueView;

    open spec fn view(&self) -> ValueView {
        self.value@
    }
}

impl DataCell {
    /// The cell that holds `value` as a `DataValue`.
    pub fn new<T>(value: T) -> (cell: DataCell) where DataValue: From<T>
        ensures
            call_ensures(<DataValue as From<T>>::from, (value,), cell.value),
    {
        DataCell { value: DataValue::from(value) }
    }
}

impl<T> From<T> for DataCell where DataValue: From<T> {
    fn from(value: T) -> (cell: DataCell)
        ensures
            call_ensures(<DataValue as From<T>>::from, (value,), cell.value),
    {
        DataCell::new(value)
    }
}

impl<T> vstd::std_specs::convert::FromSpecImpl<T> for DataCell where DataValue: From<T> {
    open spec fn obeys_from_spec() -> bool {
        <DataValue as FromSpec<T>>::obeys_from_spec()
    }

    open spec fn from_spec(value: T) -> DataCell {
        DataCell { value: <DataValue as FromSpec<T>>::from_spec(value) }
    }
}

impl Clone for DataCell {
    fn clone(&self) -> (copy: DataCell)
        ensures
            copy@ == self@,
    {
        DataCell { value: self.value.clone() }
    }
}

impl PartialEq for DataCell {
    fn eq(&self, other: &DataCell) -> (r: bool) {
        self.value == other.value
    }
}

impl vstd::std_specs::cmp::PartialEqSpecImpl for DataCell {
    open spec fn obeys_eq_spec() -> bool {
        true
    }

    open spec fn eq_spec(&self, other: &DataCell) -> bool {
        self@.equals(other@)
    }
}

impl Default for DataCell {
    fn default() -> (cell: DataCell)
        ensures
            cell@ is Null,
    {
        DataCell { value: DataValue::Null }
    }
}

} // verus!
