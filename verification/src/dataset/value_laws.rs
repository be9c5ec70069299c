use super::data_value::{DataValue, ValueKind, ValueView};
use super::sql_types::{
    lemma_pow10_positive, pow10, SqlDate, SqlDateTime, SqlDateTimeOffset, SqlDecimal, SqlFloat, SqlGuid, SqlTime,
};
use vstd::prelude::*;
use vstd::std_specs::cmp::PartialEqSpec;
use vstd::std_specs::convert::FromSpec;

verus! {

/// A value made from a native scalar equals that scalar. The one exception
/// is a float that is not a number, which equals nothing, itself included.
pub proof fn law_made_value_equals_its_source(
    integer: i32,
    boolean: bool,
    float: SqlFloat,
    decimal: SqlDecimal,
    text: String,
    bytes: Vec<u8>,
    guid: SqlGuid,
    date: SqlDate,
    time: SqlTime,
    date_time: SqlDateTime,
    date_time_offset: SqlDateTimeOffset,
)
    requires
        !float.is_nan(),
    ensures
        <DataValue as FromSpec<i32>>::from_spec(integer).eq_spec(&integer),
        <DataValue as FromSpec<bool>>::from_spec(boolean).eq_spec(&boolean),
        <DataValue as FromSpec<SqlFloat>>::from_spec(float).eq_spec(&float),
        <DataValue as FromSpec<SqlDecimal>>::from_spec(decimal).eq_spec(&decimal),
        <DataValue as FromSpec<String>>::from_spec(text).eq_spec(&text),
        <DataValue as FromSpec<Vec<u8>>>::from_spec(bytes).eq_spec(&bytes),
        <DataValue as FromSpec<SqlGuid>>::from_spec(guid).eq_spec(&guid),
        <DataValue as FromSpec<SqlDate>>::from_spec(date).eq_spec(&date),
        <DataValue as FromSpec<SqlTime>>::from_spec(time).eq_spec(&time),
        <DataValue as FromSpec<SqlDateTime>>::from_spec(date_time).eq_spec(&date_time),
        <DataValue as FromSpec<SqlDateTimeOffset>>::from_spec(date_time_offset).eq_spec(
            &date_time_offset,
        ),
{
}

/// A value made from borrowed text or bytes equals what it was made from.
pub proof fn law_made_value_equals_borrowed_source(
    from_text: DataValue,
    text: &str,
    from_bytes: DataValue,
    bytes: &[u8],
)
    requires
        from_text@ == ValueView::Text(text@),
        from_bytes@ == ValueView::Binary(bytes@),
    ensures
        from_text.eq_spec(&text),
        from_bytes.eq_spec(&bytes),
{
}

/// The kind of a value made from a native scalar is the kind of that scalar.
pub proof fn law_made_value_keeps_kind(
    tiny: u8,
    small: i16,
    integer: i32,
    big: i64,
    boolean: bool,
    float: SqlFloat,
    decimal: SqlDecimal,
    text: String,
    bytes: Vec<u8>,
    guid: SqlGuid,
    date: SqlDate,
    time: SqlTime,
    date_time: SqlDateTime,
    date_time_offset: SqlDateTimeOffset,
)
    ensures
        <DataValue as FromSpec<u8>>::from_spec(tiny)@.kind() == ValueKind::Integer,
        <DataValue as FromSpec<i16>>::from_spec(small)@.kind() == ValueKind::Integer,
        <DataValue as FromSpec<i32>>::from_spec(integer)@.kind() == ValueKind::Integer,
        <DataValue as FromSpec<i64>>::from_spec(big)@.kind() == ValueKind::Integer,
        <DataValue as FromSpec<bool>>::from_spec(boolean)@.kind() == ValueKind::Bool,
        <DataValue as FromSpec<SqlFloat>>::from_spec(float)@.kind() == ValueKind::Float,
        <DataValue as FromSpec<SqlDecimal>>::from_spec(decimal)@.kind() == ValueKind::Decimal,
        <DataValue as FromSpec<String>>::from_spec(text)@.kind() == ValueKind::Text,
        <DataValue as FromSpec<Vec<u8>>>::from_spec(bytes)@.kind() == ValueKind::Binary,
        <DataValue as FromSpec<SqlGuid>>::from_spec(guid)@.kind() == ValueKind::Guid,
        <DataValue as FromSpec<SqlDate>>::from_spec(date)@.kind() == ValueKind::Date,
        <DataValue as FromSpec<SqlTime>>::from_spec(time)@.kind() == ValueKind::Time,
        <DataValue as FromSpec<SqlDateTime>>::from_spec(date_time)@.kind() == ValueKind::DateTime,
        <DataValue as FromSpec<SqlDateTimeOffset>>::from_spec(date_time_offset)@.kind()
            == ValueKind::DateTimeOffset,
{
}

/// A value equals a native scalar only if it is of that scalar's kind:
/// values of different kinds are never equal, even where the numbers they
/// hold coincide, as with the integer 1 and the boolean `true`.
pub proof fn law_equal_only_within_kind(
    value: DataValue,
    integer: i32,
    boolean: bool,
    float: SqlFloat,
    decimal: SqlDecimal,
    text: String,
    borrowed_text: &str,
    bytes: Vec<u8>,
    borrowed_bytes: &[u8],
    guid: SqlGuid,
    date: SqlDate,
    time: SqlTime,
    date_time: SqlDateTime,
    date_time_offset: SqlDateTimeOffset,
)
    ensures
        value.eq_spec(&integer) ==> value@.kind() == ValueKind::Integer,
        value.eq_spec(&boolean) ==> value@.kind() == ValueKind::Bool,
        value.eq_spec(&float) ==> value@.kind() == ValueKind::Float,
        value.eq_spec(&decimal) ==> value@.kind() == ValueKind::Decimal,
        value.eq_spec(&text) ==> value@.kind() == ValueKind::Text,
        value.eq_spec(&borrowed_text) ==> value@.kind() == ValueKind::Text,
        value.eq_spec(&bytes) ==> value@.kind() == ValueKind::Binary,
        value.eq_spec(&borrowed_bytes) ==> value@.kind() == ValueKind::Binary,
        value.eq_spec(&guid) ==> value@.kind() == ValueKind::Guid,
        value.eq_spec(&date) ==> value@.kind() == ValueKind::Date,
        value.eq_spec(&time) ==> value@.kind() == ValueKind::Time,
        value.eq_spec(&date_time) ==> value@.kind() == ValueKind::DateTime,
        value.eq_spec(&date_time_offset) ==> value@.kind() == ValueKind::DateTimeOffset,
{
}

/// The null value equals no native scalar.
pub proof fn law_null_equals_no_native(
    integer: i32,
    boolean: bool,
    float: SqlFloat,
    decimal: SqlDecimal,
    text: String,
    borrowed_text: &str,
    bytes: Vec<u8>,
    borrowed_bytes: &[u8],
    guid: SqlGuid,
    date: SqlDate,
    time: SqlTime,
    date_time: SqlDateTime,
    date_time_offset: SqlDateTimeOffset,
)
    ensures
        !DataValue::Null.eq_spec(&integer),
        !DataValue::Null.eq_spec(&boolean),
        !DataValue::Null.eq_spec(&float),
        !DataValue::Null.eq_spec(&decimal),
        !DataValue::Null.eq_spec(&text),
        !DataValue::Null.eq_spec(&borrowed_text),
        !DataValue::Null.eq_spec(&bytes),
        !DataValue::Null.eq_spec(&borrowed_bytes),
        !DataValue::Null.eq_spec(&guid),
        !DataValue::Null.eq_spec(&date),
        !DataValue::Null.eq_spec(&time),
        !DataValue::Null.eq_spec(&date_time),
        !DataValue::Null.eq_spec(&date_time_offset),
{
}

/// No value equals a native scalar that is absent, and the null value
/// equals no native scalar, be it there or absent.
pub proof fn law_absent_scalar_equals_nothing<T>(value: DataValue, scalar: Option<T>) where
    DataValue: PartialEq<T>,

    ensures
        scalar is None ==> !<DataValue as PartialEqSpec<Option<T>>>::eq_spec(&value, &scalar),
        value@ is Null ==> !<DataValue as PartialEqSpec<Option<T>>>::eq_spec(&value, &scalar),
{
}

/// A value made from an integer of any width equals a 32-bit integer exactly
/// when the two are the same number; for a 64-bit integer the 32-bit one is
/// widened.
pub proof fn law_integer_widening(tiny: u8, small: i16, integer: i32, big: i64, other: i32)
    ensures
        <DataValue as FromSpec<u8>>::from_spec(tiny).eq_spec(&other) <==> tiny as int == other as int,
        <DataValue as FromSpec<i16>>::from_spec(small).eq_spec(&other) <==> small as int
            == other as int,
        <DataValue as FromSpec<i32>>::from_spec(integer).eq_spec(&other) <==> integer == other,
        <DataValue as FromSpec<i64>>::from_spec(big).eq_spec(&other) <==> big == other as i64,
{
}

/// Every value equals itself, except a float that is not a number.
pub proof fn law_equality_is_reflexive(value: DataValue)
    requires
        value@ matches ValueView::Float(float) ==> !float.is_nan(),
    ensures
        value.eq_spec(&value),
{
}

/// Two values that equal a third equal each other.
pub proof fn law_equality_is_transitive(a: DataValue, b: DataValue, c: DataValue)
    requires
        a.eq_spec(&b),
        b.eq_spec(&c),
    ensures
        a.eq_spec(&c),
{
    match (a@, b@, c@) {
        (
            ValueView::Decimal { mantissa: m1, scale: s1 },
            ValueView::Decimal { mantissa: m2, scale: s2 },
            ValueView::Decimal { mantissa: m3, scale: s3 },
        ) => {
            lemma_pow10_positive(s2);
            lemma_same_decimal_is_transitive(m1, pow10(s1), m2, pow10(s2), m3, pow10(s3));
        },
        _ => {},
    }
}

proof fn lemma_same_decimal_is_transitive(m1: int, p1: int, m2: int, p2: int, m3: int, p3: int)
    requires
        m1 * p2 == m2 * p1,
        m2 * p3 == m3 * p2,
    ensures
        p2 != 0 ==> m1 * p3 == m3 * p1,
{
    assert(p2 * (m1 * p3) == p2 * (m3 * p1)) by (nonlinear_arith)
        requires
            m1 * p2 == m2 * p1,
            m2 * p3 == m3 * p2,
    ;
    assert(p2 != 0 ==> m1 * p3 == m3 * p1) by (nonlinear_arith)
        requires
            p2 * (m1 * p3) == p2 * (m3 * p1),
    ;
}

/// Equality of two values does not depend on the side on which each stands.
pub proof fn law_equality_is_symmetric(a: DataValue, b: DataValue)
    ensures
        a.eq_spec(&b) == b.eq_spec(&a),
{
}

} // verus!
