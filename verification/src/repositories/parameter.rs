use crate::dataset::data_value::DataValue;
use vstd::prelude::*;

verus! {

/// A named parameter of a command. The name may begin with the sigil `@`.
#[derive(Debug)]
pub struct Parameter {
    pub name: String,
    pub value: DataValue,
}

impl Clone for Parameter {
    fn clone(&self) -> (copy: Parameter)
        ensures
            copy.name@ == self.name@,
            copy.value@ == self.value@,
    {
        Parameter { name: self.name.clone(), value: self.value.clone() }
    }
}

impl Parameter {
    /// The parameter called `name` that holds `value` as a `DataValue`.
    pub fn new<T>(name: &str, value: T) -> (parameter: Parameter) where T: Into<DataValue>
        ensures
            parameter.name@ == name@,
            call_ensures(<T as Into<DataValue>>::into, (value,), parameter.value),
    {
        Parameter { name: name.to_owned(), value: value.into() }
    }
}

} // verus!
