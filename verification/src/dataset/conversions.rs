use super::data_value::{DataValue, ValueView};
use super::sql_types::{
    SqlDate, SqlDateTime, SqlDateTimeOffset, SqlDecimal, SqlFloat, SqlGuid, SqlTime,
};
use vstd::prelude::*;

verus! {

impl From<u8> for DataValue {
    fn from(v: u8) -> (value: DataValue)
        ensures
            value == DataValue::TinyInt(v),
    {
        DataValue::TinyInt(v)
    }
}

impl vstd::std_specs::convert::FromSpecImpl<u8> for DataValue {
    open spec fn obeys_from_spec() -> bool {
        true
    }

    open spec fn from_spec(v: u8) -> DataValue {
        DataValue::TinyInt(v)
    }
}

impl From<i16> for DataValue {
    fn from(v: i16) -> (value: DataValue)
        ensures
            value == DataValue::SmallInt(v),
    {
        DataValue::SmallInt(v)
    }
}

impl vstd::std_specs::convert::FromSpecImpl<i16> for DataValue {
    open spec fn obeys_from_spec() -> bool {
        true
    }

    open spec fn from_spec(v: i16) -> DataValue {
        DataValue::SmallInt(v)
    }
}

impl From<i32> for DataValue {
    fn from(v: i32) -> (value: DataValue)
        ensures
            value == DataValue::Int(v),
    {
        DataValue::Int(v)
    }
}

impl vstd::std_specs::convert::FromSpecImpl<i32> for DataValue {
    open spec fn obeys_from_spec() -> bool {
        true
    }

    open spec fn from_spec(v: i32) -> DataValue {
        DataValue::Int(v)
    }
}

impl From<i64> for DataValue {
    fn from(v: i64) -> (value: DataValue)
        ensures
            value == DataValue::BigInt(v),
    {
        DataValue::BigInt(v)
    }
}

impl vstd::std_specs::convert::FromSpecImpl<i64> for DataValue {
    open spec fn obeys_from_spec() -> bool {
        true
    }

    open spec fn from_spec(v: i64) -> DataValue {
        DataValue::BigInt(v)
    }
}

impl From<SqlFloat> for DataValue {
    fn from(v: SqlFloat) -> (value: DataValue)
        ensures
            value == DataValue::Float(v),
    {
        DataValue::Float(v)
    }
}

impl vstd::std_specs::convert::FromSpecImpl<SqlFloat> for DataValue {
    open spec fn obeys_from_spec() -> bool {
        true
    }

    open spec fn from_spec(v: SqlFloat) -> DataValue {
        DataValue::Float(v)
    }
}

impl From<SqlDecimal> for DataValue {
    fn from(v: SqlDecimal) -> (value: DataValue)
        ensures
            value == DataValue::Decimal(v),
    {
        DataValue::Decimal(v)
    }
}

impl vstd::std_specs::convert::FromSpecImpl<SqlDecimal> for DataValue {
    open spec fn obeys_from_spec() -> bool {
        true
    }

    open spec fn from_spec(v: SqlDecimal) -> DataValue {
        DataValue::Decimal(v)
    }
}

impl From<bool> for DataValue {
    fn from(v: bool) -> (value: DataValue)
        ensures
            value == DataValue::Bool(v),
    {
        DataValue::Bool(v)
    }
}

impl vstd::std_specs::convert::FromSpecImpl<bool> for DataValue {
    open spec fn obeys_from_spec() -> bool {
        true
    }

    open spec fn from_spec(v: bool) -> DataValue {
        DataValue::Bool(v)
    }
}

impl From<String> for DataValue {
    fn from(v: String) -> (value: DataValue)
        ensures
            value == DataValue::Text(v),
    {
        DataValue::Text(v)
    }
}

impl vstd::std_specs::convert::FromSpecImpl<String> for DataValue {
    open spec fn obeys_from_spec() -> bool {
        true
    }

    open spec fn from_spec(v: String) -> DataValue {
        DataValue::Text(v)
    }
}

impl From<Vec<u8>> for DataValue {
    fn from(v: Vec<u8>) -> (value: DataValue)
        ensures
            value == DataValue::Binary(v),
    {
        DataValue::Binary(v)
    }
}

impl vstd::std_specs::convert::FromSpecImpl<Vec<u8>> for DataValue {
    open spec fn obeys_from_spec() -> bool {
        true
    }

    open spec fn from_spec(v: Vec<u8>) -> DataValue {
        DataValue::Binary(v)
    }
}

impl From<SqlGuid> for DataValue {
    fn from(v: SqlGuid) -> (value: DataValue)
        ensures
            value == DataValue::Guid(v),
    {
        DataValue::Guid(v)
    }
}

impl vstd::std_specs::convert::FromSpecImpl<SqlGuid> for DataValue {
    open spec fn obeys_from_spec() -> bool {
        true
    }

    open spec fn from_spec(v: SqlGuid) -> DataValue {
        DataValue::Guid(v)
    }
}

impl From<SqlDate> for DataValue {
    fn from(v: SqlDate) -> (value: DataValue)
        ensures
            value == DataValue::Date(v),
    {
        DataValue::Date(v)
    }
}

impl vstd::std_specs::convert::FromSpecImpl<SqlDate> for DataValue {
    open spec fn obeys_from_spec() -> bool {
        true
    }

    open spec fn from_spec(v: SqlDate) -> DataValue {
        DataValue::Date(v)
    }
}

impl From<SqlTime> for DataValue {
    fn from(v: SqlTime) -> (value: DataValue)
        ensures
            value == DataValue::Time(v),
    {
        DataValue::Time(v)
    }
}

impl vstd::std_specs::convert::FromSpecImpl<SqlTime> for DataValue {
    open spec fn obeys_from_spec() -> bool {
        true
    }

    open spec fn from_spec(v: SqlTime) -> DataValue {
        DataValue::Time(v)
    }
}

impl From<SqlDateTime> for DataValue {
    fn from(v: SqlDateTime) -> (value: DataValue)
        ensures
            value == DataValue::DateTime(v),
    {
        DataValue::DateTime(v)
    }
}

impl vstd::std_specs::convert::FromSpecImpl<SqlDateTime> for DataValue {
    open spec fn obeys_from_spec() -> bool {
        true
    }

    open spec fn from_spec(v: SqlDateTime) -> DataValue {
        DataValue::DateTime(v)
    }
}

impl From<SqlDateTimeOffset> for DataValue {
    fn from(v: SqlDateTimeOffset) -> (value: DataValue)
        ensures
            value == DataValue::DateTimeOffset(v),
    {
        DataValue::DateTimeOffset(v)
    }
}

impl vstd::std_specs::convert::FromSpecImpl<SqlDateTimeOffset> for DataValue {
    open spec fn obeys_from_spec() -> bool {
        true
    }

    open spec fn from_spec(v: SqlDateTimeOffset) -> DataValue {
        DataValue::DateTimeOffset(v)
    }
}

/// Makes a text value that owns a copy of the characters.
impl<'a> From<&'a str> for DataValue {
    fn from(v: &'a str) -> (value: DataValue)
        ensures
            value@ == ValueView::Text(v@),
    {
        DataValue::Text(v.to_owned())
    }
}

impl<'a> vstd::std_specs::convert::FromSpecImpl<&'a str> for DataValue {
    /// The copy is a string of its own, so nothing is said of the value but
    /// through its view.
    open spec fn obeys_from_spec() -> bool {
        false
    }

    open spec fn from_spec(v: &'a str) -> DataValue {
        choose|value: DataValue| value@ == ValueView::Text(v@)
    }
}

/// Makes a binary value that owns a copy of the bytes.
impl<'a> From<&'a [u8]> for DataValue {
    fn from(v: &'a [u8]) -> (value: DataValue)
        ensures
            value@ == ValueView::Binary(v@),
    {
        DataValue::Binary(vstd::slice::slice_to_vec(v))
    }
}

impl<'a> vstd::std_specs::convert::FromSpecImpl<&'a [u8]> for DataValue {
    /// The copy is a vector of its own, so nothing is said of the value but
    /// through its view.
    open spec fn obeys_from_spec() -> bool {
        false
    }

    open spec fn from_spec(v: &'a [u8]) -> DataValue {
        choose|value: DataValue| value@ == ValueView::Binary(v@)
    }
}

} // verus!
