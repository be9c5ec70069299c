use chrono::{FixedOffset, NaiveDate, NaiveDateTime, NaiveTime, TimeZone};
use mssqlrust::dataset::{
    DataValue, SqlDate, SqlDateTime, SqlDateTimeOffset, SqlDecimal, SqlFloat, SqlGuid, SqlTime,
};
use mssqlrust::infrastructure::mssql::{
    decode, EncodeError, WireCell, WireDate, WireDateTime2, WireDateTimeOffset, WireNumeric,
    WireTime,
};
use rust_decimal::Decimal;
use tiberius::{ColumnData, ToSql};

fn chrono_date(date: SqlDate) -> NaiveDate {
    NaiveDate::from_num_days_from_ce_opt(date.days_from_ce).unwrap()
}

fn chrono_time(time: SqlTime) -> NaiveTime {
    NaiveTime::from_num_seconds_from_midnight_opt(time.seconds, time.nanoseconds).unwrap()
}

fn sent_date(data: ColumnData<'_>) -> WireDate {
    match data {
        ColumnData::Date(Some(date)) => WireDate { days: date.days() },
        other => panic!("not a date: {:?}", other),
    }
}

fn sent_time(data: ColumnData<'_>) -> WireTime {
    match data {
        ColumnData::Time(Some(time)) => WireTime { increments: time.increments(), scale: time.scale() },
        other => panic!("not a time: {:?}", other),
    }
}

fn same_date(a: WireDate, b: WireDate) -> bool {
    a.days == b.days
}

fn same_time(a: WireTime, b: WireTime) -> bool {
    a.increments == b.increments && a.scale == b.scale
}

fn dates() -> Vec<SqlDate> {
    vec![
        SqlDate { days_from_ce: 1 },
        SqlDate { days_from_ce: 693_596 },
        SqlDate { days_from_ce: 738_521 },
        SqlDate { days_from_ce: 3_652_059 },
    ]
}

fn times() -> Vec<SqlTime> {
    vec![
        SqlTime { seconds: 0, nanoseconds: 0 },
        SqlTime { seconds: 45_296, nanoseconds: 0 },
        SqlTime { seconds: 1, nanoseconds: 100 },
        SqlTime { seconds: 1, nanoseconds: 123_456_789 },
        SqlTime { seconds: 86_399, nanoseconds: 999_999_999 },
    ]
}

#[test]
fn plain_values_are_bound_as_their_own_type() {
    assert!(matches!(DataValue::TinyInt(1).to_tiberius(), Ok(WireCell::U8(Some(1)))));
    assert!(matches!(DataValue::SmallInt(-2).to_tiberius(), Ok(WireCell::I16(Some(-2)))));
    assert!(matches!(DataValue::Int(3).to_tiberius(), Ok(WireCell::I32(Some(3)))));
    assert!(matches!(DataValue::BigInt(-4).to_tiberius(), Ok(WireCell::I64(Some(-4)))));
    assert!(matches!(DataValue::Bool(true).to_tiberius(), Ok(WireCell::Bit(Some(true)))));
    assert!(matches!(
        DataValue::Guid(SqlGuid { bits: 7 }).to_tiberius(),
        Ok(WireCell::Guid(Some(7)))
    ));
    match DataValue::Float(SqlFloat::from_bits(5.5f64.to_bits())).to_tiberius() {
        Ok(WireCell::F64(Some(float))) => assert_eq!(f64::from_bits(float.to_bits()), 5.5),
        other => panic!("not a float: {:?}", other),
    }
    match DataValue::Text("text".to_string()).to_tiberius() {
        Ok(WireCell::String(Some(text))) => assert_eq!(text, "text"),
        other => panic!("not text: {:?}", other),
    }
    match DataValue::Binary(vec![1, 2, 3]).to_tiberius() {
        Ok(WireCell::Binary(Some(bytes))) => assert_eq!(bytes, vec![1, 2, 3]),
        other => panic!("not bytes: {:?}", other),
    }
}

#[test]
fn null_is_bound_as_an_absent_integer() {
    assert!(matches!(DataValue::Null.to_tiberius(), Ok(WireCell::I32(None))));
    assert!(matches!(Option::<i32>::None.to_sql(), ColumnData::I32(None)));
}

#[test]
fn decimal_is_bound_like_the_driver_binds_it() {
    for (mantissa, scale) in [(12345i64, 2u32), (-1, 0), (0, 28), (i64::MAX, 10)] {
        let value = DataValue::Decimal(SqlDecimal::new(mantissa as i128, scale).unwrap());
        let sent = match Decimal::new(mantissa, scale).to_sql() {
            ColumnData::Numeric(Some(n)) => WireNumeric { value: n.value(), scale: n.scale() },
            other => panic!("not a numeric: {:?}", other),
        };
        match value.to_tiberius() {
            Ok(WireCell::Numeric(Some(bound))) => {
                assert_eq!(bound.value, sent.value);
                assert_eq!(bound.scale, sent.scale);
                assert_eq!(bound.value, mantissa as i128);
                assert_eq!(bound.scale as u32, scale);
            }
            other => panic!("not a numeric: {:?}", other),
        }
    }
}

#[test]
fn date_is_bound_like_the_driver_binds_it() {
    for date in dates() {
        match DataValue::Date(date).to_tiberius() {
            Ok(WireCell::Date(Some(bound))) => {
                assert!(same_date(bound, sent_date(chrono_date(date).to_sql())));
                assert_eq!(bound.days as i32, date.days_from_ce - 1);
            }
            other => panic!("not a date: {:?}", other),
        }
    }
}

#[test]
fn time_is_bound_like_the_driver_binds_it() {
    for time in times() {
        match DataValue::Time(time).to_tiberius() {
            Ok(WireCell::Time(Some(bound))) => {
                assert!(same_time(bound, sent_time(chrono_time(time).to_sql())));
                assert_eq!(bound.scale, 7);
                assert_eq!(
                    bound.increments,
                    (time.seconds as u64 * 1_000_000_000 + time.nanoseconds as u64) / 100
                );
            }
            other => panic!("not a time: {:?}", other),
        }
    }
}

#[test]
fn date_time_is_bound_like_the_driver_binds_it() {
    for date in dates() {
        for time in times() {
            let both = NaiveDateTime::new(chrono_date(date), chrono_time(time));
            let sent = match both.to_sql() {
                ColumnData::DateTime2(Some(raw)) => raw,
                other => panic!("not a datetime2: {:?}", other),
            };
            match DataValue::DateTime(SqlDateTime { date, time }).to_tiberius() {
                Ok(WireCell::DateTime2(Some(bound))) => {
                    assert_eq!(bound.date.days, sent.date().days());
                    assert_eq!(bound.time.increments, sent.time().increments());
                    assert_eq!(bound.time.scale, sent.time().scale());
                }
                other => panic!("not a datetime2: {:?}", other),
            }
        }
    }
}

#[test]
fn offset_date_time_is_bound_like_the_driver_binds_it() {
    for offset_seconds in [0, 7_200, -3_600, 50_400, -50_400, 19_800] {
        let date = SqlDate { days_from_ce: 738_521 };
        let time = SqlTime { seconds: 3_723, nanoseconds: 500 };
        let zone = FixedOffset::east_opt(offset_seconds).unwrap();
        let instant = zone.from_utc_datetime(&NaiveDateTime::new(chrono_date(date), chrono_time(time)));
        let sent = match instant.to_sql() {
            ColumnData::DateTimeOffset(Some(raw)) => raw,
            other => panic!("not a datetimeoffset: {:?}", other),
        };
        let value = DataValue::DateTimeOffset(SqlDateTimeOffset {
            utc: SqlDateTime { date, time },
            offset_seconds,
        });
        match value.to_tiberius() {
            Ok(WireCell::DateTimeOffset(Some(bound))) => {
                assert_eq!(bound.offset, sent.offset());
                assert_eq!(bound.offset as i32 * 60, offset_seconds);
                assert_eq!(bound.datetime2.date.days, sent.datetime2().date().days());
                assert_eq!(bound.datetime2.time.increments, sent.datetime2().time().increments());
                assert_eq!(bound.datetime2.time.scale, sent.datetime2().time().scale());
            }
            other => panic!("not a datetimeoffset: {:?}", other),
        }
    }
}

#[test]
fn what_cannot_go_on_the_wire_is_an_error() {
    let noon = SqlTime { seconds: 43_200, nanoseconds: 0 };
    let day = SqlDate { days_from_ce: 738_521 };
    for days_from_ce in [0, -1, i32::MIN, 3_652_060, i32::MAX] {
        let date = SqlDate { days_from_ce };
        assert_eq!(DataValue::Date(date).to_tiberius().unwrap_err(), EncodeError::DateOutOfRange);
        assert_eq!(
            DataValue::DateTime(SqlDateTime { date, time: noon }).to_tiberius().unwrap_err(),
            EncodeError::DateOutOfRange
        );
    }
    for (seconds, nanoseconds) in [(86_400, 0), (0, 1_000_000_000), (86_399, 1_500_000_000), (u32::MAX, u32::MAX)] {
        let time = SqlTime { seconds, nanoseconds };
        assert_eq!(DataValue::Time(time).to_tiberius().unwrap_err(), EncodeError::TimeOutOfRange);
        assert_eq!(
            DataValue::DateTime(SqlDateTime { date: day, time }).to_tiberius().unwrap_err(),
            EncodeError::TimeOutOfRange
        );
    }
    for offset_seconds in [50_460, -50_460, 30, -59, 86_400, i32::MIN, i32::MAX] {
        let value = DataValue::DateTimeOffset(SqlDateTimeOffset {
            utc: SqlDateTime { date: day, time: noon },
            offset_seconds,
        });
        assert_eq!(value.to_tiberius().unwrap_err(), EncodeError::OffsetOutOfRange);
    }
    let both = DataValue::DateTimeOffset(SqlDateTimeOffset {
        utc: SqlDateTime { date: SqlDate { days_from_ce: 0 }, time: SqlTime { seconds: 86_400, nanoseconds: 0 } },
        offset_seconds: 1,
    });
    assert_eq!(both.to_tiberius().unwrap_err(), EncodeError::DateOutOfRange);
}

#[test]
fn bound_values_decode_to_themselves() {
    let day = SqlDate { days_from_ce: 738_521 };
    let time = SqlTime { seconds: 45_296, nanoseconds: 123_456_700 };
    let values = vec![
        DataValue::TinyInt(255),
        DataValue::SmallInt(i16::MIN),
        DataValue::Int(i32::MAX),
        DataValue::BigInt(i64::MIN),
        DataValue::Float(SqlFloat::from_bits(5.5f64.to_bits())),
        DataValue::Decimal(SqlDecimal::new(-12345, 2).unwrap()),
        DataValue::Bool(false),
        DataValue::Text("caf\u{e9}".to_string()),
        DataValue::Binary(vec![0, 255]),
        DataValue::Guid(SqlGuid { bits: u128::MAX }),
        DataValue::Date(day),
        DataValue::Time(time),
        DataValue::DateTime(SqlDateTime { date: day, time }),
        DataValue::DateTimeOffset(SqlDateTimeOffset {
            utc: SqlDateTime { date: day, time },
            offset_seconds: -19_800,
        }),
        DataValue::Null,
    ];
    for value in values {
        let back = decode(value.to_tiberius().unwrap()).unwrap();
        assert_eq!(back.kind(), value.kind());
        assert_eq!(back.is_null(), value.is_null());
        if !matches!(value, DataValue::DateTimeOffset(_)) {
            assert_eq!(back, value);
        }
        match (back, value) {
            (DataValue::DateTimeOffset(a), DataValue::DateTimeOffset(b)) => {
                assert_eq!(a.utc, b.utc);
                assert_eq!(a.offset_seconds, b.offset_seconds);
            }
            (DataValue::Decimal(a), DataValue::Decimal(b)) => {
                assert_eq!(a.mantissa(), b.mantissa());
                assert_eq!(a.scale(), b.scale());
            }
            _ => {}
        }
    }
}

#[test]
fn a_time_finer_than_the_wire_is_rounded_down() {
    let fine = SqlTime { seconds: 1, nanoseconds: 199 };
    let back = decode(DataValue::Time(fine).to_tiberius().unwrap()).unwrap();
    assert_eq!(back, SqlTime { seconds: 1, nanoseconds: 100 });
}

#[test]
fn encode_errors_have_messages() {
    assert_eq!(EncodeError::DateOutOfRange.message(), "date cannot be bound");
    assert_eq!(EncodeError::TimeOutOfRange.message(), "time of day cannot be bound");
    assert_eq!(EncodeError::OffsetOutOfRange.message(), "offset from UTC cannot be bound");
}

#[test]
fn wire_date_time2_fields() {
    let wire = WireDateTime2 { date: WireDate { days: 1 }, time: WireTime { increments: 2, scale: 3 } };
    let offset = WireDateTimeOffset { datetime2: wire, offset: 4 };
    assert_eq!(offset.datetime2.date.days, 1);
    assert_eq!(offset.datetime2.time.increments, 2);
    assert_eq!(offset.datetime2.time.scale, 3);
    assert_eq!(offset.offset, 4);
}
