use super::decode::{
    decoded, lemma_pow10_values, DecodeError, MAX_TIME_SCALE, NANOS_PER_SECOND, SECONDS_PER_DAY,
};
use super::wire::{WireCell, WireDate, WireDateTime2, WireDateTimeOffset, WireNumeric, WireTime};
use crate::dataset::data_value::{DataValue, ValueView};
use crate::dataset::sql_types::{
    decimal_in_range, SqlDate, SqlDateTime, SqlDateTimeOffset, SqlTime,
};
use tiberius::{ColumnData, ToSql};
use vstd::prelude::*;

verus! {

/// Why a value cannot be bound.
#[derive(Clone, Copy, Debug, PartialEq, Eq, Structural)]
pub enum EncodeError {
    /// A date before the year 1 or after the year 9999.
    DateOutOfRange,
    /// A time of day that is not less than a day, or that stands in a leap
    /// second.
    TimeOutOfRange,
    /// An offset from UTC of more than fourteen hours, or not of whole
    /// minutes.
    OffsetOutOfRange,
}

impl EncodeError {
    /// The words of `message`.
    pub open spec fn text(self) -> Seq<char> {
        match self {
            EncodeError::DateOutOfRange => "date cannot be bound"@,
            EncodeError::TimeOutOfRange => "time of day cannot be bound"@,
            EncodeError::OffsetOutOfRange => "offset from UTC cannot be bound"@,
        }
    }

    /// The error in words.
    pub fn message(&self) -> (text: &'static str)
        ensures
            text@ == self.text(),
    {
        match self {
            EncodeError::DateOutOfRange => "date cannot be bound",
            EncodeError::TimeOutOfRange => "time of day cannot be bound",
            EncodeError::OffsetOutOfRange => "offset from UTC cannot be bound",
        }
    }
}

/// The largest offset from UTC, in seconds.
pub const MAX_OFFSET_SECONDS: i32 = 50_400;

/// The day number of the last day that can go on the wire, December 31,
/// 9999.
pub const MAX_BINDABLE_DAY: i32 = 3_652_059;

impl SqlDate {
    /// Whether the date can go on the wire: from January 1 of the year 1 to
    /// December 31, 9999.
    pub open spec fn bindable(self) -> bool {
        1 <= self.days_from_ce <= MAX_BINDABLE_DAY
    }

    /// The date as it goes on the wire: the days since January 1 of the
    /// year 1.
    pub open spec fn wire(self) -> WireDate {
        WireDate { days: (self.days_from_ce - 1) as u32 }
    }
}

impl SqlTime {
    /// Whether the time can go on the wire: less than a day, and not in a
    /// leap second.
    pub open spec fn bindable(self) -> bool {
        &&& self.seconds < SECONDS_PER_DAY
        &&& self.nanoseconds < NANOS_PER_SECOND
    }

    /// The time in steps of 100 nanoseconds, rounded down.
    pub open spec fn wire(self) -> WireTime {
        WireTime {
            increments: ((self.seconds * NANOS_PER_SECOND + self.nanoseconds) / 100) as u64,
            scale: MAX_TIME_SCALE,
        }
    }

    /// Whether the time is a whole number of steps of 100 nanoseconds, which
    /// is as fine as the wire is.
    pub open spec fn wire_precise(self) -> bool {
        self.nanoseconds % 100 == 0
    }
}

impl SqlDateTime {
    /// The date and time as they go on the wire: each as it goes alone.
    pub open spec fn wire(self) -> WireDateTime2 {
        WireDateTime2 { date: self.date.wire(), time: self.time.wire() }
    }
}

impl SqlDateTimeOffset {
    /// Whether the offset can go on the wire: whole minutes, at most
    /// fourteen hours to either side.
    pub open spec fn offset_bindable(self) -> bool {
        &&& -MAX_OFFSET_SECONDS <= self.offset_seconds <= MAX_OFFSET_SECONDS
        &&& self.offset_seconds % 60 == 0
    }

    /// The instant as it goes on the wire: the date and time in UTC, and the
    /// offset in minutes.
    pub open spec fn wire(self) -> WireDateTimeOffset {
        WireDateTimeOffset { datetime2: self.utc.wire(), offset: (self.offset_seconds / 60) as i16 }
    }
}

/// `tiberius::ToSql` of `chrono::NaiveDate`, on the date made by
/// `from_num_days_from_ce_opt`: the days since January 1 of the year 1.
#[verifier::external_body]
fn date_to_wire(date: SqlDate) -> (wire: Option<WireDate>)
    requires
        date.bindable(),
    ensures
        wire == Some(date.wire()),
{
    let day = chrono::NaiveDate::from_num_days_from_ce_opt(date.days_from_ce)?;
    match day.to_sql() {
        ColumnData::Date(Some(raw)) => Some(WireDate { days: raw.days() }),
        _ => None,
    }
}

/// `tiberius::ToSql` of `chrono::NaiveTime`, on the time made by
/// `from_num_seconds_from_midnight_opt`: the nanoseconds since midnight in
/// steps of 100, rounded down, at scale 7.
#[verifier::external_body]
fn time_to_wire(time: SqlTime) -> (wire: Option<WireTime>)
    requires
        time.bindable(),
    ensures
        wire == Some(time.wire()),
{
    let at = chrono::NaiveTime::from_num_seconds_from_midnight_opt(time.seconds, time.nanoseconds)?;
    match at.to_sql() {
        ColumnData::Time(Some(raw)) => Some(WireTime { increments: raw.increments(), scale: raw.scale() }),
        _ => None,
    }
}

/// Why `value` cannot be bound, if it cannot.
pub open spec fn encode_error(value: ValueView) -> Option<EncodeError> {
    match value {
        ValueView::Date(v) => if !v.bindable() {
            Some(EncodeError::DateOutOfRange)
        } else {
            None
        },
        ValueView::Time(v) => if !v.bindable() {
            Some(EncodeError::TimeOutOfRange)
        } else {
            None
        },
        ValueView::DateTime(v) => if !v.date.bindable() {
            Some(EncodeError::DateOutOfRange)
        } else if !v.time.bindable() {
            Some(EncodeError::TimeOutOfRange)
        } else {
            None
        },
        ValueView::DateTimeOffset(v) => if !v.utc.date.bindable() {
            Some(EncodeError::DateOutOfRange)
        } else if !v.utc.time.bindable() {
            Some(EncodeError::TimeOutOfRange)
        } else if !v.offset_bindable() {
            Some(EncodeError::OffsetOutOfRange)
        } else {
            None
        },
        _ => None,
    }
}

/// Whether `cell` is the form in which `value` is bound: each variant as the
/// wire type of its own, and null as an absent 4-byte integer.
pub open spec fn encodes(value: ValueView, cell: WireCell) -> bool {
    match value {
        ValueView::TinyInt(v) => cell == WireCell::U8(Some(v)),
        ValueView::SmallInt(v) => cell == WireCell::I16(Some(v)),
        ValueView::Int(v) => cell == WireCell::I32(Some(v)),
        ValueView::BigInt(v) => cell == WireCell::I64(Some(v)),
        ValueView::Float(v) => cell == WireCell::F64(Some(v)),
        ValueView::Decimal { mantissa, scale } => cell matches WireCell::Numeric(Some(n))
            && n.value == mantissa && n.scale == scale,
        ValueView::Bool(v) => cell == WireCell::Bit(Some(v)),
        ValueView::Text(v) => cell matches WireCell::String(Some(text)) && text@ == v,
        ValueView::Binary(v) => cell matches WireCell::Binary(Some(bytes)) && bytes@ == v,
        ValueView::Guid(v) => cell == WireCell::Guid(Some(v.bits)),
        ValueView::Date(v) => cell == WireCell::Date(Some(v.wire())),
        ValueView::Time(v) => cell == WireCell::Time(Some(v.wire())),
        ValueView::DateTime(v) => cell == WireCell::DateTime2(Some(v.wire())),
        ValueView::DateTimeOffset(v) => cell == WireCell::DateTimeOffset(Some(v.wire())),
        ValueView::Null => cell == WireCell::I32(None),
    }
}

/// Whether `result` is the binding of `value`.
pub open spec fn binds_to(value: ValueView, result: Result<WireCell, EncodeError>) -> bool {
    match result {
        Ok(cell) => encode_error(value) is None && encodes(value, cell),
        Err(error) => encode_error(value) == Some(error),
    }
}

/// Whether no time of day in `value` is finer than the wire.
pub open spec fn wire_precise(value: ValueView) -> bool {
    match value {
        ValueView::Time(v) => v.wire_precise(),
        ValueView::DateTime(v) => v.time.wire_precise(),
        ValueView::DateTimeOffset(v) => v.utc.time.wire_precise(),
        _ => true,
    }
}

proof fn lemma_time_round_trip(time: SqlTime)
    requires
        time.bindable(),
        time.wire_precise(),
    ensures
        time.wire().in_range(),
        time.wire().time() == time,
{
    lemma_pow10_values();
    let nanos = time.seconds * NANOS_PER_SECOND + time.nanoseconds;
    assert(nanos < SECONDS_PER_DAY * NANOS_PER_SECOND);
    assert(nanos % 100 == 0);
    assert(time.wire().nanoseconds() == nanos);
}

proof fn lemma_date_round_trip(date: SqlDate)
    requires
        date.bindable(),
    ensures
        date.wire().in_range(),
        date.wire().date() == date,
{
}

/// What is bound decodes to the value it was bound from: no variant, width
/// or scale is lost on the way. A time of day that is finer than the wire
/// is rounded down to a step of 100 nanoseconds, so the law speaks of the
/// others.
pub proof fn law_bound_value_decodes_to_itself(value: ValueView, cell: WireCell)
    requires
        encode_error(value) is None,
        encodes(value, cell),
        wire_precise(value),
        value matches ValueView::Decimal { mantissa, scale } ==> decimal_in_range(
            mantissa,
            scale as int,
        ),
    ensures
        decoded(cell) == Ok::<ValueView, DecodeError>(value),
        cell.is_null() <==> value is Null,
{
    match value {
        ValueView::Date(v) => {
            lemma_date_round_trip(v);
        },
        ValueView::Time(v) => {
            lemma_time_round_trip(v);
        },
        ValueView::DateTime(v) => {
            lemma_date_round_trip(v.date);
            lemma_time_round_trip(v.time);
        },
        ValueView::DateTimeOffset(v) => {
            lemma_date_round_trip(v.utc.date);
            lemma_time_round_trip(v.utc.time);
        },
        _ => {},
    }
}

impl DataValue {
    /// The value in the form in which it is bound to a command: a cell of
    /// the wire type that belongs to its variant. Null is bound as an absent
    /// 4-byte integer.
    pub fn to_tiberius(&self) -> (result: Result<WireCell, EncodeError>)
        ensures
            binds_to(self@, result),
    {
        match self {
            DataValue::TinyInt(v) => Ok(WireCell::U8(Some(*v))),
            DataValue::SmallInt(v) => Ok(WireCell::I16(Some(*v))),
            DataValue::Int(v) => Ok(WireCell::I32(Some(*v))),
            DataValue::BigInt(v) => Ok(WireCell::I64(Some(*v))),
            DataValue::Float(v) => Ok(WireCell::F64(Some(*v))),
            DataValue::Decimal(v) => {
                let scale = v.scale();
                Ok(WireCell::Numeric(Some(WireNumeric { value: v.mantissa(), scale: scale as u8 })))
            },
            DataValue::Bool(v) => Ok(WireCell::Bit(Some(*v))),
            DataValue::Text(v) => Ok(WireCell::String(Some(v.clone()))),
            DataValue::Binary(v) => {
                let bytes = v.clone();
                assert(bytes@ =~= v@);
                Ok(WireCell::Binary(Some(bytes)))
            },
            DataValue::Guid(v) => Ok(WireCell::Guid(Some(v.bits))),
            DataValue::Date(v) => {
                if !date_bindable(*v) {
                    return Err(EncodeError::DateOutOfRange);
                }
                match date_to_wire(*v) {
                    Some(wire) => Ok(WireCell::Date(Some(wire))),
                    None => Err(EncodeError::DateOutOfRange),
                }
            },
            DataValue::Time(v) => {
                if !time_bindable(*v) {
                    return Err(EncodeError::TimeOutOfRange);
                }
                match time_to_wire(*v) {
                    Some(wire) => Ok(WireCell::Time(Some(wire))),
                    None => Err(EncodeError::TimeOutOfRange),
                }
            },
            DataValue::DateTime(v) => {
                if !date_bindable(v.date) {
                    return Err(EncodeError::DateOutOfRange);
                }
                if !time_bindable(v.time) {
                    return Err(EncodeError::TimeOutOfRange);
                }
                match (date_to_wire(v.date), time_to_wire(v.time)) {
                    (Some(date), Some(time)) => Ok(
                        WireCell::DateTime2(Some(WireDateTime2 { date, time })),
                    ),
                    (None, _) => Err(EncodeError::DateOutOfRange),
                    (_, None) => Err(EncodeError::TimeOutOfRange),
                }
            },
            DataValue::DateTimeOffset(v) => {
                if !date_bindable(v.utc.date) {
                    return Err(EncodeError::DateOutOfRange);
                }
                if !time_bindable(v.utc.time) {
                    return Err(EncodeError::TimeOutOfRange);
                }
                if v.offset_seconds < -MAX_OFFSET_SECONDS || v.offset_seconds > MAX_OFFSET_SECONDS
                    || v.offset_seconds % 60 != 0 {
                    return Err(EncodeError::OffsetOutOfRange);
                }
                match (date_to_wire(v.utc.date), time_to_wire(v.utc.time)) {
                    (Some(date), Some(time)) => Ok(
                        WireCell::DateTimeOffset(
                            Some(
                                WireDateTimeOffset {
                                    datetime2: WireDateTime2 { date, time },
                                    offset: (v.offset_seconds / 60) as i16,
                                },
                            ),
                        ),
                    ),
                    (None, _) => Err(EncodeError::DateOutOfRange),
                    (_, None) => Err(EncodeError::TimeOutOfRange),
                }
            },
            DataValue::Null => Ok(WireCell::I32(None)),
        }
    }
}

fn date_bindable(date: SqlDate) -> (bindable: bool)
    ensures
        bindable == date.bindable(),
{
    1 <= date.days_from_ce && date.days_from_ce <= MAX_BINDABLE_DAY
}

fn time_bindable(time: SqlTime) -> (bindable: bool)
    ensures
        bindable == time.bindable(),
{
    (time.seconds as u64) < SECONDS_PER_DAY && (time.nanoseconds as u64) < NANOS_PER_SECOND
}

} // verus!
