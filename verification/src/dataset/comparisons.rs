use super::data_value::{bytes_equal, DataValue};
use super::sql_types::{
    SqlDate, SqlDateTime, SqlDateTimeOffset, SqlDecimal, SqlFloat, SqlGuid, SqlTime,
};
use vstd::prelude::*;
use vstd::std_specs::cmp::PartialEqSpec;

verus! {

/// A value equals a native integer when it is one of the four integer
/// variants and holds the same number.
impl PartialEq<i32> for DataValue {
    fn eq(&self, other: &i32) -> (r: bool) {
        match self {
            DataValue::Int(v) => *v == *other,
            DataValue::TinyInt(v) => *v as i32 == *other,
            DataValue::SmallInt(v) => *v as i32 == *other,
            DataValue::BigInt(v) => *v == *other as i64,
            DataValue::Null => false,
            _ => false,
        }
    }
}

impl vstd::std_specs::cmp::PartialEqSpecImpl<i32> for DataValue {
    open spec fn obeys_eq_spec() -> bool {
        true
    }

    open spec fn eq_spec(&self, other: &i32) -> bool {
        self@.equals_integer(*other as int)
    }
}

impl PartialEq<bool> for DataValue {
    fn eq(&self, other: &bool) -> (r: bool) {
        match self {
            DataValue::Bool(v) => *v == *other,
            DataValue::Null => false,
            _ => false,
        }
    }
}

impl vstd::std_specs::cmp::PartialEqSpecImpl<bool> for DataValue {
    open spec fn obeys_eq_spec() -> bool {
        true
    }

    open spec fn eq_spec(&self, other: &bool) -> bool {
        self@.equals_bool(*other)
    }
}

impl PartialEq<SqlFloat> for DataValue {
    fn eq(&self, other: &SqlFloat) -> (r: bool) {
        match self {
            DataValue::Float(v) => *v == *other,
            DataValue::Null => false,
            _ => false,
        }
    }
}

impl vstd::std_specs::cmp::PartialEqSpecImpl<SqlFloat> for DataValue {
    open spec fn obeys_eq_spec() -> bool {
        true
    }

    open spec fn eq_spec(&self, other: &SqlFloat) -> bool {
        self@.equals_float(*other)
    }
}

impl PartialEq<SqlDecimal> for DataValue {
    fn eq(&self, other: &SqlDecimal) -> (r: bool) {
        match self {
            DataValue::Decimal(v) => *v == *other,
            DataValue::Null => false,
            _ => false,
        }
    }
}

impl vstd::std_specs::cmp::PartialEqSpecImpl<SqlDecimal> for DataValue {
    open spec fn obeys_eq_spec() -> bool {
        true
    }

    open spec fn eq_spec(&self, other: &SqlDecimal) -> bool {
        self@.equals_decimal(other.spec_mantissa(), other.spec_scale())
    }
}

impl PartialEq<String> for DataValue {
    fn eq(&self, other: &String) -> (r: bool) {
        match self {
            DataValue::Text(v) => *v == *other,
            DataValue::Null => false,
            _ => false,
        }
    }
}

impl vstd::std_specs::cmp::PartialEqSpecImpl<String> for DataValue {
    open spec fn obeys_eq_spec() -> bool {
        true
    }

    open spec fn eq_spec(&self, other: &String) -> bool {
        self@.equals_text(other@)
    }
}

impl PartialEq<SqlGuid> for DataValue {
    fn eq(&self, other: &SqlGuid) -> (r: bool) {
        match self {
            DataValue::Guid(v) => *v == *other,
            DataValue::Null => false,
            _ => false,
        }
    }
}

impl vstd::std_specs::cmp::PartialEqSpecImpl<SqlGuid> for DataValue {
    open spec fn obeys_eq_spec() -> bool {
        true
    }

    open spec fn eq_spec(&self, other: &SqlGuid) -> bool {
        self@.equals_guid(*other)
    }
}

impl PartialEq<SqlDate> for DataValue {
    fn eq(&self, other: &SqlDate) -> (r: bool) {
        match self {
            DataValue::Date(v) => *v == *other,
            DataValue::Null => false,
            _ => false,
        }
    }
}

impl vstd::std_specs::cmp::PartialEqSpecImpl<SqlDate> for DataValue {
    open spec fn obeys_eq_spec() -> bool {
        true
    }

    open spec fn eq_spec(&self, other: &SqlDate) -> bool {
        self@.equals_date(*other)
    }
}

impl PartialEq<SqlTime> for DataValue {
    fn eq(&self, other: &SqlTime) -> (r: bool) {
        match self {
            DataValue::Time(v) => *v == *other,
            DataValue::Null => false,
            _ => false,
        }
    }
}

impl vstd::std_specs::cmp::PartialEqSpecImpl<SqlTime> for DataValue {
    open spec fn obeys_eq_spec() -> bool {
        true
    }

    open spec fn eq_spec(&self, other: &SqlTime) -> bool {
        self@.equals_time(*other)
    }
}

impl PartialEq<SqlDateTime> for DataValue {
    fn eq(&self, other: &SqlDateTime) -> (r: bool) {
        match self {
            DataValue::DateTime(v) => *v == *other,
            DataValue::Null => false,
            _ => false,
        }
    }
}

impl vstd::std_specs::cmp::PartialEqSpecImpl<SqlDateTime> for DataValue {
    open spec fn obeys_eq_spec() -> bool {
        true
    }

    open spec fn eq_spec(&self, other: &SqlDateTime) -> bool {
        self@.equals_date_time(*other)
    }
}

impl PartialEq<SqlDateTimeOffset> for DataValue {
    fn eq(&self, other: &SqlDateTimeOffset) -> (r: bool) {
        match self {
            DataValue::DateTimeOffset(v) => *v == *other,
            DataValue::Null => false,
            _ => false,
        }
    }
}

impl vstd::std_specs::cmp::PartialEqSpecImpl<SqlDateTimeOffset> for DataValue {
    open spec fn obeys_eq_spec() -> bool {
        true
    }

    open spec fn eq_spec(&self, other: &SqlDateTimeOffset) -> bool {
        self@.equals_date_time_offset(*other)
    }
}

impl PartialEq<Vec<u8>> for DataValue {
    fn eq(&self, other: &Vec<u8>) -> (r: bool) {
        match self {
            DataValue::Binary(v) => bytes_equal(v.as_slice(), other.as_slice()),
            DataValue::Null => false,
            _ => false,
        }
    }
}

impl vstd::std_specs::cmp::PartialEqSpecImpl<Vec<u8>> for DataValue {
    open spec fn obeys_eq_spec() -> bool {
        true
    }

    open spec fn eq_spec(&self, other: &Vec<u8>) -> bool {
        self@.equals_binary(other@)
    }
}

impl<'a> PartialEq<&'a str> for DataValue {
    fn eq(&self, other: &&'a str) -> (r: bool) {
        match self {
            DataValue::Text(v) => v.as_str().eq(*other),
            DataValue::Null => false,
            _ => false,
        }
    }
}

impl<'a> vstd::std_specs::cmp::PartialEqSpecImpl<&'a str> for DataValue {
    open spec fn obeys_eq_spec() -> bool {
        true
    }

    open spec fn eq_spec(&self, other: &&'a str) -> bool {
        self@.equals_text(other@)
    }
}

impl<'a> PartialEq<&'a [u8]> for DataValue {
    fn eq(&self, other: &&'a [u8]) -> (r: bool) {
        match self {
            DataValue::Binary(v) => bytes_equal(v.as_slice(), *other),
            DataValue::Null => false,
            _ => false,
        }
    }
}

impl<'a> vstd::std_specs::cmp::PartialEqSpecImpl<&'a [u8]> for DataValue {
    open spec fn obeys_eq_spec() -> bool {
        true
    }

    open spec fn eq_spec(&self, other: &&'a [u8]) -> bool {
        self@.equals_binary(other@)
    }
}

/// A value equals a native scalar that may be absent when the scalar is
/// there and the value equals it. Nothing equals an absent scalar, the null
/// value included.
impl<T> PartialEq<Option<T>> for DataValue where DataValue: PartialEq<T> {
    fn eq(&self, other: &Option<T>) -> (r: bool) {
        match other {
            Some(scalar) => match self {
                DataValue::Null => false,
                _ => self.eq(scalar),
            },
            None => false,
        }
    }
}

impl<T> vstd::std_specs::cmp::PartialEqSpecImpl<Option<T>> for DataValue where DataValue: PartialEq<T> {
    open spec fn obeys_eq_spec() -> bool {
        <DataValue as PartialEqSpec<T>>::obeys_eq_spec()
    }

    open spec fn eq_spec(&self, other: &Option<T>) -> bool {
        match other {
            Some(scalar) => !(self@ is Null) && <DataValue as PartialEqSpec<T>>::eq_spec(
                self,
                scalar,
            ),
            None => false,
        }
    }
}

} // verus!
