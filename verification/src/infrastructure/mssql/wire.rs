use crate::dataset::sql_types::SqlFloat;
use vstd::prelude::*;

verus! {

/// A fixed-point number as the backend sends it: `value / 10^scale`.
#[derive(Clone, Copy, Debug)]
pub struct WireNumeric {
    pub value: i128,
    pub scale: u8,
}

/// A date as the backend sends it: days since January 1 of the year 1.
#[derive(Clone, Copy, Debug)]
pub struct WireDate {
    pub days: u32,
}

/// A time of day as the backend sends it: a count of steps of `10^-scale`
/// seconds since midnight.
#[derive(Clone, Copy, Debug)]
pub struct WireTime {
    pub increments: u64,
    pub scale: u8,
}

/// A `datetime`: days since January 1, 1900, and a count of three-hundredths
/// of a second since midnight.
#[derive(Clone, Copy, Debug)]
pub struct WireDateTime {
    pub days: i32,
    pub seconds_fragments: u32,
}

/// A `smalldatetime`: days since January 1, 1900, and minutes since midnight.
#[derive(Clone, Copy, Debug)]
pub struct WireSmallDateTime {
    pub days: u16,
    pub seconds_fragments: u16,
}

/// A `datetime2`: a date and a time of day.
#[derive(Clone, Copy, Debug)]
pub struct WireDateTime2 {
    pub date: WireDate,
    pub time: WireTime,
}

/// A `datetimeoffset`: a date and time in UTC, and the offset from UTC, in
/// minutes, of the zone in which it was written.
#[derive(Clone, Copy, Debug)]
pub struct WireDateTimeOffset {
    pub datetime2: WireDateTime2,
    pub offset: i16,
}

/// One cell of a row as the backend sends it: a tag for the wire type, and
/// the payload, or `None` for SQL null.
#[derive(Debug)]
pub enum WireCell {
    U8(Option<u8>),
    I16(Option<i16>),
    I32(Option<i32>),
    I64(Option<i64>),
    /// A 4-byte float, held as the bit pattern of the same number in double
    /// precision.
    F32(Option<SqlFloat>),
    F64(Option<SqlFloat>),
    Bit(Option<bool>),
    String(Option<String>),
    Guid(Option<u128>),
    Binary(Option<Vec<u8>>),
    Numeric(Option<WireNumeric>),
    Xml(Option<String>),
    DateTime(Option<WireDateTime>),
    SmallDateTime(Option<WireSmallDateTime>),
    Time(Option<WireTime>),
    Date(Option<WireDate>),
    DateTime2(Option<WireDateTime2>),
    DateTimeOffset(Option<WireDateTimeOffset>),
}

impl WireCell {
    /// Whether the cell is SQL null, whatever its wire type.
    pub open spec fn is_null(self) -> bool {
        match self {
            WireCell::U8(v) => v is None,
            WireCell::I16(v) => v is None,
            WireCell::I32(v) => v is None,
            WireCell::I64(v) => v is None,
            WireCell::F32(v) => v is None,
            WireCell::F64(v) => v is None,
            WireCell::Bit(v) => v is None,
            WireCell::String(v) => v is None,
            WireCell::Guid(v) => v is None,
            WireCell::Binary(v) => v is None,
            WireCell::Numeric(v) => v is None,
            WireCell::Xml(v) => v is None,
            WireCell::DateTime(v) => v is None,
            WireCell::SmallDateTime(v) => v is None,
            WireCell::Time(v) => v is None,
            WireCell::Date(v) => v is None,
            WireCell::DateTime2(v) => v is None,
            WireCell::DateTimeOffset(v) => v is None,
        }
    }
}

/// One column as the metadata of a result set announces it.
#[derive(Debug)]
pub struct ColumnMeta {
    pub name: String,
    pub sql_type: String,
    pub nullable: bool,
}

/// One unit of the backend's response.
#[derive(Debug)]
pub enum WireEvent {
    /// A new result set begins: its ordinal and its columns.
    Metadata { result_index: usize, columns: Vec<ColumnMeta> },
    /// One row of the result set that was announced last.
    Row { cells: Vec<WireCell> },
}

} // verus!
