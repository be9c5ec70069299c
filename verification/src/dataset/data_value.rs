use super::sql_types::{
    same_decimal, SqlDate, SqlDateTime, SqlDateTimeOffset, SqlDecimal, SqlFloat, SqlGuid, SqlTime,
};
use vstd::prelude::*;

verus! {

/// One scalar of the backend: a closed union with one variant for each type
/// that a result set can hold. `Null` is a value like the others.
#[derive(Debug)]
pub enum DataValue {
    TinyInt(u8),
    SmallInt(i16),
    Int(i32),
    BigInt(i64),
    Float(SqlFloat),
    Decimal(SqlDecimal),
    Bool(bool),
    Text(String),
    Binary(Vec<u8>),
    Guid(SqlGuid),
    Date(SqlDate),
    Time(SqlTime),
    DateTime(SqlDateTime),
    DateTimeOffset(SqlDateTimeOffset),
    Null,
}

/// What a `DataValue` holds, as mathematics.
pub enum ValueView {
    TinyInt(u8),
    SmallInt(i16),
    Int(i32),
    BigInt(i64),
    Float(SqlFloat),
    Decimal { mantissa: int, scale: nat },
    Bool(bool),
    Text(Seq<char>),
    Binary(Seq<u8>),
    Guid(SqlGuid),
    Date(SqlDate),
    Time(SqlTime),
    DateTime(SqlDateTime),
    DateTimeOffset(SqlDateTimeOffset),
    Null,
}

/// The semantic kind of a value: what sort of native scalar it can equal.
#[derive(Clone, Copy, Debug, PartialEq, Eq, Structural)]
pub enum ValueKind {
    Integer,
    Float,
    Decimal,
    Bool,
    Text,
    Binary,
    Guid,
    Date,
    Time,
    DateTime,
    DateTimeOffset,
    Null,
}

impl ValueView {
    /// The kind of the value.
    pub open spec fn kind(self) -> ValueKind {
        match self {
            ValueView::TinyInt(_) => ValueKind::Integer,
            ValueView::SmallInt(_) => ValueKind::Integer,
            ValueView::Int(_) => ValueKind::Integer,
            ValueView::BigInt(_) => ValueKind::Integer,
            ValueView::Float(_) => ValueKind::Float,
            ValueView::Decimal { .. } => ValueKind::Decimal,
            ValueView::Bool(_) => ValueKind::Bool,
            ValueView::Text(_) => ValueKind::Text,
            ValueView::Binary(_) => ValueKind::Binary,
            ValueView::Guid(_) => ValueKind::Guid,
            ValueView::Date(_) => ValueKind::Date,
            ValueView::Time(_) => ValueKind::Time,
            ValueView::DateTime(_) => ValueKind::DateTime,
            ValueView::DateTimeOffset(_) => ValueKind::DateTimeOffset,
            ValueView::Null => ValueKind::Null,
        }
    }

    /// Equality with another value: the same variant, holding an equal
    /// payload. Floats are equal as numbers, decimals whatever their scales,
    /// offset date-times as instants.
    pub open spec fn equals(self, other: ValueView) -> bool {
        match (self, other) {
            (ValueView::TinyInt(a), ValueView::TinyInt(b)) => a == b,
            (ValueView::SmallInt(a), ValueView::SmallInt(b)) => a == b,
            (ValueView::Int(a), ValueView::Int(b)) => a == b,
            (ValueView::BigInt(a), ValueView::BigInt(b)) => a == b,
            (ValueView::Float(a), ValueView::Float(b)) => a.same_number(&b),
            (
                ValueView::Decimal { mantissa: m1, scale: s1 },
                ValueView::Decimal { mantissa: m2, scale: s2 },
            ) => same_decimal(m1, s1, m2, s2),
            (ValueView::Bool(a), ValueView::Bool(b)) => a == b,
            (ValueView::Text(a), ValueView::Text(b)) => a == b,
            (ValueView::Binary(a), ValueView::Binary(b)) => a == b,
            (ValueView::Guid(a), ValueView::Guid(b)) => a == b,
            (ValueView::Date(a), ValueView::Date(b)) => a == b,
            (ValueView::Time(a), ValueView::Time(b)) => a == b,
            (ValueView::DateTime(a), ValueView::DateTime(b)) => a == b,
            (ValueView::DateTimeOffset(a), ValueView::DateTimeOffset(b)) => a.utc == b.utc,
            (ValueView::Null, ValueView::Null) => true,
            _ => false,
        }
    }

    /// Equality with a native integer: any of the four integer variants,
    /// compared by the number it holds.
    pub open spec fn equals_integer(self, other: int) -> bool {
        match self {
            ValueView::TinyInt(v) => v as int == other,
            ValueView::SmallInt(v) => v as int == other,
            ValueView::Int(v) => v as int == other,
            ValueView::BigInt(v) => v as int == other,
            _ => false,
        }
    }

    /// Equality with a native boolean.
    pub open spec fn equals_bool(self, other: bool) -> bool {
        self matches ValueView::Bool(v) && v == other
    }

    /// Equality with a native float: as numbers.
    pub open spec fn equals_float(self, other: SqlFloat) -> bool {
        self matches ValueView::Float(v) && v.same_number(&other)
    }

    /// Equality with a native decimal: as numbers, whatever the scales.
    pub open spec fn equals_decimal(self, mantissa: int, scale: nat) -> bool {
        self matches ValueView::Decimal { mantissa: m, scale: s } && same_decimal(
            m,
            s,
            mantissa,
            scale,
        )
    }

    /// Equality with native text.
    pub open spec fn equals_text(self, other: Seq<char>) -> bool {
        self matches ValueView::Text(v) && v == other
    }

    /// Equality with native bytes.
    pub open spec fn equals_binary(self, other: Seq<u8>) -> bool {
        self matches ValueView::Binary(v) && v == other
    }

    /// Equality with a native identifier.
    pub open spec fn equals_guid(self, other: SqlGuid) -> bool {
        self matches ValueView::Guid(v) && v == other
    }

    /// Equality with a native date.
    pub open spec fn equals_date(self, other: SqlDate) -> bool {
        self matches ValueView::Date(v) && v == other
    }

    /// Equality with a native time of day.
    pub open spec fn equals_time(self, other: SqlTime) -> bool {
        self matches ValueView::Time(v) && v == other
    }

    /// Equality with a native date and time.
    pub open spec fn equals_date_time(self, other: SqlDateTime) -> bool {
        self matches ValueView::DateTime(v) && v == other
    }

    /// Equality with a native instant: whatever the offsets.
    pub open spec fn equals_date_time_offset(self, other: SqlDateTimeOffset) -> bool {
        self matches ValueView::DateTimeOffset(v) && v.utc == other.utc
    }
}

impl View for DataValue {
    type V = ValueView;

    open spec fn view(&self) -> ValueView {
        match self {
            DataValue::TinyInt(v) => ValueView::TinyInt(*v),
            DataValue::SmallInt(v) => ValueView::SmallInt(*v),
            DataValue::Int(v) => ValueView::Int(*v),
            DataValue::BigInt(v) => ValueView::BigInt(*v),
            DataValue::Float(v) => ValueView::Float(*v),
            DataValue::Decimal(v) => ValueView::Decimal {
                mantissa: v.spec_mantissa(),
                scale: v.spec_scale(),
            },
            DataValue::Bool(v) => ValueView::Bool(*v),
            DataValue::Text(v) => ValueView::Text(v@),
            DataValue::Binary(v) => ValueView::Binary(v@),
            DataValue::Guid(v) => ValueView::Guid(*v),
            DataValue::Date(v) => ValueView::Date(*v),
            DataValue::Time(v) => ValueView::Time(*v),
            DataValue::DateTime(v) => ValueView::DateTime(*v),
            DataValue::DateTimeOffset(v) => ValueView::DateTimeOffset(*v),
            DataValue::Null => ValueView::Null,
        }
    }
}

/// Whether two byte strings hold the same bytes.
pub fn bytes_equal(a: &[u8], b: &[u8]) -> (equal: bool)
    ensures
        equal == (a@ == b@),
{
    if a.len() != b.len() {
        return false;
    }
    let mut i: usize = 0;
    while i < a.len()
        invariant
            i <= a.len(),
            a.len() == b.len(),
            a@.take(i as int) == b@.take(i as int),
        decreases a.len() - i,
    {
        if a[i] != b[i] {
            assert(a@[i as int] != b@[i as int]);
            return false;
        }
        assert(a@.take(i + 1) =~= a@.take(i as int).push(a@[i as int]));
        assert(b@.take(i + 1) =~= b@.take(i as int).push(b@[i as int]));
        i += 1;
    }
    assert(a@ =~= a@.take(i as int));
    assert(b@ =~= b@.take(i as int));
    true
}

impl DataValue {
    /// Whether the value is the null value.
    pub fn is_null(&self) -> (null: bool)
        ensures
            null == (self@ is Null),
    {
        match self {
            DataValue::Null => true,
            _ => false,
        }
    }

    /// The kind of the value.
    pub fn kind(&self) -> (kind: ValueKind)
        ensures
            kind == self@.kind(),
    {
        match self {
            DataValue::TinyInt(_) => ValueKind::Integer,
            DataValue::SmallInt(_) => ValueKind::Integer,
            DataValue::Int(_) => ValueKind::Integer,
            DataValue::BigInt(_) => ValueKind::Integer,
            DataValue::Float(_) => ValueKind::Float,
            DataValue::Decimal(_) => ValueKind::Decimal,
            DataValue::Bool(_) => ValueKind::Bool,
            DataValue::Text(_) => ValueKind::Text,
            DataValue::Binary(_) => ValueKind::Binary,
            DataValue::Guid(_) => ValueKind::Guid,
            DataValue::Date(_) => ValueKind::Date,
            DataValue::Time(_) => ValueKind::Time,
            DataValue::DateTime(_) => ValueKind::DateTime,
            DataValue::DateTimeOffset(_) => ValueKind::DateTimeOffset,
            DataValue::Null => ValueKind::Null,
        }
    }
}

impl Clone for DataValue {
    fn clone(&self) -> (copy: DataValue)
        ensures
            copy@ == self@,
    {
        match self {
            DataValue::TinyInt(v) => DataValue::TinyInt(*v),
            DataValue::SmallInt(v) => DataValue::SmallInt(*v),
            DataValue::Int(v) => DataValue::Int(*v),
            DataValue::BigInt(v) => DataValue::BigInt(*v),
            DataValue::Float(v) => DataValue::Float(*v),
            DataValue::Decimal(v) => DataValue::Decimal(*v),
            DataValue::Bool(v) => DataValue::Bool(*v),
            DataValue::Text(v) => DataValue::Text(v.clone()),
            DataValue::Binary(v) => {
                let bytes = v.clone();
                assert(bytes@ =~= v@);
                DataValue::Binary(bytes)
            },
            DataValue::Guid(v) => DataValue::Guid(*v),
            DataValue::Date(v) => DataValue::Date(*v),
            DataValue::Time(v) => DataValue::Time(*v),
            DataValue::DateTime(v) => DataValue::DateTime(*v),
            DataValue::DateTimeOffset(v) => DataValue::DateTimeOffset(*v),
            DataValue::Null => DataValue::Null,
        }
    }
}

impl Default for DataValue {
    fn default() -> (value: DataValue)
        ensures
            value@ is Null,
    {
        DataValue::Null
    }
}

impl PartialEq for DataValue {
    fn eq(&self, other: &DataValue) -> (r: bool) {
        match (self, other) {
            (DataValue::TinyInt(a), DataValue::TinyInt(b)) => *a == *b,
            (DataValue::SmallInt(a), DataValue::SmallInt(b)) => *a == *b,
            (DataValue::Int(a), DataValue::Int(b)) => *a == *b,
            (DataValue::BigInt(a), DataValue::BigInt(b)) => *a == *b,
            (DataValue::Float(a), DataValue::Float(b)) => *a == *b,
            (DataValue::Decimal(a), DataValue::Decimal(b)) => *a == *b,
            (DataValue::Bool(a), DataValue::Bool(b)) => *a == *b,
            (DataValue::Text(a), DataValue::Text(b)) => *a == *b,
            (DataValue::Binary(a), DataValue::Binary(b)) => bytes_equal(a.as_slice(), b.as_slice()),
            (DataValue::Guid(a), DataValue::Guid(b)) => *a == *b,
            (DataValue::Date(a), DataValue::Date(b)) => *a == *b,
            (DataValue::Time(a), DataValue::Time(b)) => *a == *b,
            (DataValue::DateTime(a), DataValue::DateTime(b)) => *a == *b,
            (DataValue::DateTimeOffset(a), DataValue::DateTimeOffset(b)) => *a == *b,
            (DataValue::Null, DataValue::Null) => true,
            _ => false,
        }
    }
}

impl vstd::std_specs::cmp::PartialEqSpecImpl for DataValue {
    open spec fn obeys_eq_spec() -> bool {
        true
    }

    open spec fn eq_spec(&self, other: &DataValue) -> bool {
        self@.equals(other@)
    }
}

} // verus!
