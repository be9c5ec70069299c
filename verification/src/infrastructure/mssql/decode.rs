use super::wire::{
    WireCell, WireDate, WireDateTime, WireDateTime2, WireDateTimeOffset, WireNumeric,
    WireSmallDateTime, WireTime,
};
use crate::dataset::data_value::{DataValue, ValueKind, ValueView};
use crate::dataset::sql_types::{
    decimal_in_range, pow10, SqlDate, SqlDateTime, SqlDateTimeOffset, SqlDecimal, SqlGuid, SqlTime,
};
use chrono::{Datelike, Timelike};
use tiberius::{ColumnData, FromSqlOwned};
use vstd::prelude::*;

verus! {

/// Why a cell could not be decoded.
#[derive(Clone, Copy, Debug, PartialEq, Eq, Structural)]
pub enum DecodeError {
    /// A fixed-point number with more digits, or a larger scale, than a
    /// decimal holds.
    NumericOutOfRange,
    /// A date outside the range of its wire type.
    DateOutOfRange,
    /// A time of day that is not less than a day, or a scale of more than
    /// seven digits.
    TimeOutOfRange,
    /// An offset from UTC of more than fourteen hours.
    OffsetOutOfRange,
}

impl DecodeError {
    /// The words of `message`.
    pub open spec fn text(self) -> Seq<char> {
        match self {
            DecodeError::NumericOutOfRange => "numeric value does not fit in a decimal"@,
            DecodeError::DateOutOfRange => "date is out of range"@,
            DecodeError::TimeOutOfRange => "time of day is out of range"@,
            DecodeError::OffsetOutOfRange => "offset from UTC is out of range"@,
        }
    }

    /// The error in words.
    pub fn message(&self) -> (text: &'static str)
        ensures
            text@ == self.text(),
    {
        match self {
            DecodeError::NumericOutOfRange => "numeric value does not fit in a decimal",
            DecodeError::DateOutOfRange => "date is out of range",
            DecodeError::TimeOutOfRange => "time of day is out of range",
            DecodeError::OffsetOutOfRange => "offset from UTC is out of range",
        }
    }
}

/// The day number, counted from the year 1, of January 1, 1900.
pub const EPOCH_1900: i32 = 693_596;

/// The last day that a `date` can hold, December 31, 9999, in days since
/// January 1 of the year 1.
pub const MAX_DATE_DAYS: u32 = 3_652_058;

/// The first day that a `datetime` can hold, January 1, 1753, in days since
/// January 1, 1900.
pub const MIN_DATETIME_DAYS: i32 = -53_690;

/// The last day that a `datetime` can hold, December 31, 9999, in days since
/// January 1, 1900.
pub const MAX_DATETIME_DAYS: i32 = 2_958_463;

/// Three-hundredths of a second in a day.
pub const FRAGMENTS_PER_DAY: u32 = 25_920_000;

/// Three-hundredths of a second in a minute.
pub const FRAGMENTS_PER_MINUTE: u32 = 18_000;

/// Minutes in a day.
pub const MINUTES_PER_DAY: u16 = 1_440;

/// Seconds in a day.
pub const SECONDS_PER_DAY: u64 = 86_400;

/// Nanoseconds in a second.
pub const NANOS_PER_SECOND: u64 = 1_000_000_000;

/// The largest scale of a time of day.
pub const MAX_TIME_SCALE: u8 = 7;

/// The largest offset from UTC, in minutes.
pub const MAX_OFFSET_MINUTES: i16 = 840;

impl WireDate {
    /// Whether the date is one that a `date` can hold: not after December
    /// 31, 9999.
    pub open spec fn in_range(self) -> bool {
        self.days <= MAX_DATE_DAYS
    }

    /// The date: January 1 of the year 1 is day 1, so the day number is one
    /// more than the days since then.
    pub open spec fn date(self) -> SqlDate {
        SqlDate { days_from_ce: (self.days + 1) as i32 }
    }
}

impl WireTime {
    /// Whether the time is one that a `time` can hold: a scale of at most
    /// seven digits, and less than a day.
    pub open spec fn in_range(self) -> bool {
        &&& self.scale <= MAX_TIME_SCALE
        &&& self.increments < SECONDS_PER_DAY * pow10(self.scale as nat)
    }

    /// The time of day in nanoseconds since midnight.
    pub open spec fn nanoseconds(self) -> int {
        self.increments * pow10((9 - self.scale) as nat)
    }

    /// The time of day: the whole seconds, and the nanoseconds that are
    /// left.
    pub open spec fn time(self) -> SqlTime {
        SqlTime {
            seconds: (self.nanoseconds() / NANOS_PER_SECOND as int) as u32,
            nanoseconds: (self.nanoseconds() % NANOS_PER_SECOND as int) as u32,
        }
    }
}

impl WireDateTime {
    /// Whether the date and time are such as a `datetime` can hold: from
    /// January 1, 1753 to December 31, 9999, and less than a day.
    pub open spec fn in_range(self) -> bool {
        &&& MIN_DATETIME_DAYS <= self.days <= MAX_DATETIME_DAYS
        &&& self.seconds_fragments < FRAGMENTS_PER_DAY
    }

    /// The time of day in nanoseconds since midnight, rounded down.
    pub open spec fn nanoseconds(self) -> int {
        self.seconds_fragments * NANOS_PER_SECOND / 300
    }

    /// The date and time: the day that many days from January 1, 1900, at
    /// the whole seconds and the nanoseconds that are left.
    pub open spec fn date_time(self) -> SqlDateTime {
        SqlDateTime {
            date: SqlDate { days_from_ce: (EPOCH_1900 + self.days) as i32 },
            time: SqlTime {
                seconds: (self.nanoseconds() / NANOS_PER_SECOND as int) as u32,
                nanoseconds: (self.nanoseconds() % NANOS_PER_SECOND as int) as u32,
            },
        }
    }
}

impl WireSmallDateTime {
    /// Whether the time is less than a day.
    pub open spec fn in_range(self) -> bool {
        self.seconds_fragments < MINUTES_PER_DAY
    }

    /// The date and time: the day that many days after January 1, 1900, at
    /// that many minutes after midnight. It is the `datetime` of the same
    /// days and of 18,000 three-hundredths of a second for each minute.
    pub open spec fn date_time(self) -> SqlDateTime {
        SqlDateTime {
            date: SqlDate { days_from_ce: (EPOCH_1900 + self.days) as i32 },
            time: SqlTime { seconds: (self.seconds_fragments * 60) as u32, nanoseconds: 0 },
        }
    }
}

impl WireDateTime2 {
    /// The date and time: the date of its date at the time of its time.
    pub open spec fn date_time(self) -> SqlDateTime {
        SqlDateTime { date: self.date.date(), time: self.time.time() }
    }
}

impl WireDateTimeOffset {
    /// Whether the offset is at most fourteen hours to either side.
    pub open spec fn offset_in_range(self) -> bool {
        -MAX_OFFSET_MINUTES <= self.offset <= MAX_OFFSET_MINUTES
    }

    /// The instant: its date and time, which are in UTC, and its offset in
    /// seconds.
    pub open spec fn date_time_offset(self) -> SqlDateTimeOffset {
        SqlDateTimeOffset {
            utc: self.datetime2.date_time(),
            offset_seconds: (self.offset * 60) as i32,
        }
    }
}

/// `tiberius::FromSqlOwned` of `chrono::NaiveDate` on a `date`, read back
/// through `num_days_from_ce`: the date that many days after January 1 of
/// the year 1, which is day 1.
#[verifier::external_body]
fn date_from_wire(wire: WireDate) -> (date: Option<SqlDate>)
    requires
        wire.in_range(),
    ensures
        date == Some(wire.date()),
{
    let data = ColumnData::Date(Some(tiberius::time::Date::new(wire.days)));
    match chrono::NaiveDate::from_sql_owned(data) {
        Ok(Some(date)) => Some(SqlDate { days_from_ce: date.num_days_from_ce() }),
        _ => None,
    }
}

/// `tiberius::FromSqlOwned` of `chrono::NaiveTime` on a `time`, read back
/// through `num_seconds_from_midnight` and `nanosecond`: midnight plus
/// `increments * 10^(9 - scale)` nanoseconds.
#[verifier::external_body]
fn time_from_wire(wire: WireTime) -> (time: Option<SqlTime>)
    requires
        wire.in_range(),
    ensures
        time == Some(wire.time()),
{
    let data = ColumnData::Time(Some(tiberius::time::Time::new(wire.increments, wire.scale)));
    match chrono::NaiveTime::from_sql_owned(data) {
        Ok(Some(time)) => Some(
            SqlTime { seconds: time.num_seconds_from_midnight(), nanoseconds: time.nanosecond() },
        ),
        _ => None,
    }
}

/// `tiberius::FromSqlOwned` of `chrono::NaiveDateTime` on a `datetime`, read
/// back through `num_days_from_ce`, `num_seconds_from_midnight` and
/// `nanosecond`: January 1, 1900 plus the days, at midnight plus the
/// three-hundredths of a second, in whole nanoseconds.
#[verifier::external_body]
fn date_time_from_wire(wire: WireDateTime) -> (date_time: Option<SqlDateTime>)
    requires
        wire.in_range(),
    ensures
        date_time == Some(wire.date_time()),
{
    let raw = tiberius::time::DateTime::new(wire.days, wire.seconds_fragments);
    match chrono::NaiveDateTime::from_sql_owned(ColumnData::DateTime(Some(raw))) {
        Ok(Some(at)) => Some(
            SqlDateTime {
                date: SqlDate { days_from_ce: at.num_days_from_ce() },
                time: SqlTime { seconds: at.num_seconds_from_midnight(), nanoseconds: at.nanosecond() },
            },
        ),
        _ => None,
    }
}

/// The value that a cell decodes to, or why it cannot be decoded. A null
/// cell decodes to `Null`, whatever its wire type.
pub open spec fn decoded(cell: WireCell) -> Result<ValueView, DecodeError> {
    match cell {
        WireCell::U8(Some(v)) => Ok(ValueView::TinyInt(v)),
        WireCell::I16(Some(v)) => Ok(ValueView::SmallInt(v)),
        WireCell::I32(Some(v)) => Ok(ValueView::Int(v)),
        WireCell::I64(Some(v)) => Ok(ValueView::BigInt(v)),
        WireCell::F32(Some(v)) => Ok(ValueView::Float(v)),
        WireCell::F64(Some(v)) => Ok(ValueView::Float(v)),
        WireCell::Bit(Some(v)) => Ok(ValueView::Bool(v)),
        WireCell::String(Some(v)) => Ok(ValueView::Text(v@)),
        WireCell::Guid(Some(v)) => Ok(ValueView::Guid(SqlGuid { bits: v })),
        WireCell::Binary(Some(v)) => Ok(ValueView::Binary(v@)),
        WireCell::Numeric(Some(v)) => if decimal_in_range(v.value as int, v.scale as int) {
            Ok(ValueView::Decimal { mantissa: v.value as int, scale: v.scale as nat })
        } else {
            Err(DecodeError::NumericOutOfRange)
        },
        WireCell::Xml(Some(v)) => Ok(ValueView::Text(v@)),
        WireCell::DateTime(Some(v)) => if !(MIN_DATETIME_DAYS <= v.days <= MAX_DATETIME_DAYS) {
            Err(DecodeError::DateOutOfRange)
        } else if !(v.seconds_fragments < FRAGMENTS_PER_DAY) {
            Err(DecodeError::TimeOutOfRange)
        } else {
            Ok(ValueView::DateTime(v.date_time()))
        },
        WireCell::SmallDateTime(Some(v)) => if !v.in_range() {
            Err(DecodeError::TimeOutOfRange)
        } else {
            Ok(ValueView::DateTime(v.date_time()))
        },
        WireCell::Time(Some(v)) => if !v.in_range() {
            Err(DecodeError::TimeOutOfRange)
        } else {
            Ok(ValueView::Time(v.time()))
        },
        WireCell::Date(Some(v)) => if !v.in_range() {
            Err(DecodeError::DateOutOfRange)
        } else {
            Ok(ValueView::Date(v.date()))
        },
        WireCell::DateTime2(Some(v)) => if !v.date.in_range() {
            Err(DecodeError::DateOutOfRange)
        } else if !v.time.in_range() {
            Err(DecodeError::TimeOutOfRange)
        } else {
            Ok(ValueView::DateTime(v.date_time()))
        },
        WireCell::DateTimeOffset(Some(v)) => if !v.datetime2.date.in_range() {
            Err(DecodeError::DateOutOfRange)
        } else if !v.datetime2.time.in_range() {
            Err(DecodeError::TimeOutOfRange)
        } else if !v.offset_in_range() {
            Err(DecodeError::OffsetOutOfRange)
        } else {
            Ok(ValueView::DateTimeOffset(v.date_time_offset()))
        },
        _ => Ok(ValueView::Null),
    }
}

/// The kind of value that a wire type decodes to.
pub open spec fn wire_kind(cell: WireCell) -> ValueKind {
    match cell {
        WireCell::U8(_) => ValueKind::Integer,
        WireCell::I16(_) => ValueKind::Integer,
        WireCell::I32(_) => ValueKind::Integer,
        WireCell::I64(_) => ValueKind::Integer,
        WireCell::F32(_) => ValueKind::Float,
        WireCell::F64(_) => ValueKind::Float,
        WireCell::Bit(_) => ValueKind::Bool,
        WireCell::String(_) => ValueKind::Text,
        WireCell::Guid(_) => ValueKind::Guid,
        WireCell::Binary(_) => ValueKind::Binary,
        WireCell::Numeric(_) => ValueKind::Decimal,
        WireCell::Xml(_) => ValueKind::Text,
        WireCell::DateTime(_) => ValueKind::DateTime,
        WireCell::SmallDateTime(_) => ValueKind::DateTime,
        WireCell::Time(_) => ValueKind::Time,
        WireCell::Date(_) => ValueKind::Date,
        WireCell::DateTime2(_) => ValueKind::DateTime,
        WireCell::DateTimeOffset(_) => ValueKind::DateTimeOffset,
    }
}

/// A cell decodes to the null value exactly when it is SQL null: a null on
/// the wire is never an error, and no payload is ever turned into a null.
pub proof fn law_null_decodes_to_null(cell: WireCell)
    ensures
        cell.is_null() <==> decoded(cell) == Ok::<ValueView, DecodeError>(ValueView::Null),
{
}

/// A cell that is not null decodes, if at all, to a value of the one kind
/// that belongs to its wire type.
pub proof fn law_decoded_kind(cell: WireCell)
    requires
        !cell.is_null(),
    ensures
        decoded(cell) matches Ok(value) ==> value.kind() == wire_kind(cell),
{
}

/// Whether the decoding of `cell` is `result`.
pub open spec fn decodes_to(cell: WireCell, result: Result<DataValue, DecodeError>) -> bool {
    match result {
        Ok(value) => decoded(cell) == Ok::<ValueView, DecodeError>(value@),
        Err(error) => decoded(cell) == Err::<ValueView, DecodeError>(error),
    }
}

/// The powers of ten up to the ninth.
pub proof fn lemma_pow10_values()
    ensures
        pow10(0) == 1,
        pow10(1) == 10,
        pow10(2) == 100,
        pow10(3) == 1_000,
        pow10(4) == 10_000,
        pow10(5) == 100_000,
        pow10(6) == 1_000_000,
        pow10(7) == 10_000_000,
        pow10(8) == 100_000_000,
        pow10(9) == 1_000_000_000,
{
    reveal_with_fuel(pow10, 10);
}

fn time_in_range(wire: WireTime) -> (in_range: bool)
    ensures
        in_range == wire.in_range(),
{
    if wire.scale > MAX_TIME_SCALE {
        return false;
    }
    proof {
        lemma_pow10_values();
    }
    let mut steps: u64 = SECONDS_PER_DAY;
    let mut digits: u8 = 0;
    while digits < wire.scale
        invariant
            digits <= wire.scale <= MAX_TIME_SCALE,
            steps == SECONDS_PER_DAY * pow10(digits as nat),
            steps <= 864_000_000_000,
        decreases wire.scale - digits,
    {
        proof {
            lemma_pow10_values();
        }
        steps = steps * 10;
        digits += 1;
    }
    wire.increments < steps
}

/// Decodes one cell. A null cell gives `Null`; a payload that its wire type
/// cannot hold gives the error, never a null.
pub fn decode(cell: WireCell) -> (result: Result<DataValue, DecodeError>)
    ensures
        decodes_to(cell, result),
{
    match cell {
        WireCell::U8(Some(v)) => Ok(DataValue::TinyInt(v)),
        WireCell::I16(Some(v)) => Ok(DataValue::SmallInt(v)),
        WireCell::I32(Some(v)) => Ok(DataValue::Int(v)),
        WireCell::I64(Some(v)) => Ok(DataValue::BigInt(v)),
        WireCell::F32(Some(v)) => Ok(DataValue::Float(v)),
        WireCell::F64(Some(v)) => Ok(DataValue::Float(v)),
        WireCell::Bit(Some(v)) => Ok(DataValue::Bool(v)),
        WireCell::String(Some(v)) => Ok(DataValue::Text(v)),
        WireCell::Guid(Some(v)) => Ok(DataValue::Guid(SqlGuid { bits: v })),
        WireCell::Binary(Some(v)) => Ok(DataValue::Binary(v)),
        WireCell::Numeric(Some(v)) => decode_numeric(v),
        WireCell::Xml(Some(v)) => Ok(DataValue::Text(v)),
        WireCell::DateTime(Some(v)) => {
            if v.days < MIN_DATETIME_DAYS || v.days > MAX_DATETIME_DAYS {
                Err(DecodeError::DateOutOfRange)
            } else if v.seconds_fragments >= FRAGMENTS_PER_DAY {
                Err(DecodeError::TimeOutOfRange)
            } else {
                match date_time_from_wire(v) {
                    Some(at) => Ok(DataValue::DateTime(at)),
                    None => Err(DecodeError::DateOutOfRange),
                }
            }
        },
        WireCell::SmallDateTime(Some(v)) => {
            if v.seconds_fragments >= MINUTES_PER_DAY {
                Err(DecodeError::TimeOutOfRange)
            } else {
                let same = WireDateTime {
                    days: v.days as i32,
                    seconds_fragments: v.seconds_fragments as u32 * FRAGMENTS_PER_MINUTE,
                };
                assert(same.date_time() == v.date_time()) by {
                    assert(same.nanoseconds() == v.seconds_fragments * 60 * NANOS_PER_SECOND);
                }
                match date_time_from_wire(same) {
                    Some(at) => Ok(DataValue::DateTime(at)),
                    None => Err(DecodeError::TimeOutOfRange),
                }
            }
        },
        WireCell::Time(Some(v)) => {
            if !time_in_range(v) {
                Err(DecodeError::TimeOutOfRange)
            } else {
                match time_from_wire(v) {
                    Some(at) => Ok(DataValue::Time(at)),
                    None => Err(DecodeError::TimeOutOfRange),
                }
            }
        },
        WireCell::Date(Some(v)) => {
            if v.days > MAX_DATE_DAYS {
                Err(DecodeError::DateOutOfRange)
            } else {
                match date_from_wire(v) {
                    Some(at) => Ok(DataValue::Date(at)),
                    None => Err(DecodeError::DateOutOfRange),
                }
            }
        },
        WireCell::DateTime2(Some(v)) => {
            if v.date.days > MAX_DATE_DAYS {
                Err(DecodeError::DateOutOfRange)
            } else if !time_in_range(v.time) {
                Err(DecodeError::TimeOutOfRange)
            } else {
                match (date_from_wire(v.date), time_from_wire(v.time)) {
                    (Some(date), Some(time)) => Ok(DataValue::DateTime(SqlDateTime { date, time })),
                    (None, _) => Err(DecodeError::DateOutOfRange),
                    (_, None) => Err(DecodeError::TimeOutOfRange),
                }
            }
        },
        WireCell::DateTimeOffset(Some(v)) => {
            if v.datetime2.date.days > MAX_DATE_DAYS {
                Err(DecodeError::DateOutOfRange)
            } else if !time_in_range(v.datetime2.time) {
                Err(DecodeError::TimeOutOfRange)
            } else if v.offset < -MAX_OFFSET_MINUTES || v.offset > MAX_OFFSET_MINUTES {
                Err(DecodeError::OffsetOutOfRange)
            } else {
                match (date_from_wire(v.datetime2.date), time_from_wire(v.datetime2.time)) {
                    (Some(date), Some(time)) => Ok(
                        DataValue::DateTimeOffset(
                            SqlDateTimeOffset {
                                utc: SqlDateTime { date, time },
                                offset_seconds: v.offset as i32 * 60,
                            },
                        ),
                    ),
                    (None, _) => Err(DecodeError::DateOutOfRange),
                    (_, None) => Err(DecodeError::TimeOutOfRange),
                }
            }
        },
        _ => Ok(DataValue::Null),
    }
}

fn decode_numeric(wire: WireNumeric) -> (result: Result<DataValue, DecodeError>)
    ensures
        decodes_to(WireCell::Numeric(Some(wire)), result),
{
    match SqlDecimal::new(wire.value, wire.scale as u32) {
        Some(decimal) => Ok(DataValue::Decimal(decimal)),
        None => Err(DecodeError::NumericOutOfRange),
    }
}

} // verus!
