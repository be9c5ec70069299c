use mssqlrust::dataset::{
    DataCell, DataValue, SqlDate, SqlDateTime, SqlDateTimeOffset, SqlDecimal, SqlFloat, SqlGuid,
    SqlTime, ValueKind,
};
use rust_decimal::Decimal;

fn float(value: f64) -> SqlFloat {
    SqlFloat::from_bits(value.to_bits())
}

fn decimal(mantissa: i128, scale: u32) -> SqlDecimal {
    SqlDecimal::new(mantissa, scale).unwrap()
}

fn noon() -> SqlTime {
    SqlTime { seconds: 43_200, nanoseconds: 0 }
}

fn new_year() -> SqlDate {
    SqlDate { days_from_ce: 738_521 }
}

fn one_of_each() -> Vec<DataValue> {
    vec![
        DataValue::from(1u8),
        DataValue::from(1i16),
        DataValue::from(1i32),
        DataValue::from(1i64),
        DataValue::from(float(1.0)),
        DataValue::from(decimal(1, 0)),
        DataValue::from(true),
        DataValue::from("1"),
        DataValue::from(vec![1u8]),
        DataValue::from(SqlGuid { bits: 1 }),
        DataValue::from(SqlDate { days_from_ce: 1 }),
        DataValue::from(SqlTime { seconds: 1, nanoseconds: 0 }),
        DataValue::from(SqlDateTime {
            date: SqlDate { days_from_ce: 1 },
            time: SqlTime { seconds: 1, nanoseconds: 0 },
        }),
        DataValue::from(SqlDateTimeOffset {
            utc: SqlDateTime {
                date: SqlDate { days_from_ce: 1 },
                time: SqlTime { seconds: 1, nanoseconds: 0 },
            },
            offset_seconds: 0,
        }),
        DataValue::Null,
    ]
}

#[test]
fn value_made_from_a_scalar_equals_it() {
    assert_eq!(DataValue::from(42i32), 42);
    assert_eq!(DataValue::from(-7i32), -7);
    assert_eq!(DataValue::from(true), true);
    assert_eq!(DataValue::from(false), false);
    assert_eq!(DataValue::from(float(5.5)), float(5.5));
    assert_eq!(DataValue::from(decimal(12345, 2)), decimal(12345, 2));
    assert_eq!(DataValue::from("Hello, world!"), "Hello, world!");
    assert_eq!(DataValue::from("Hello".to_string()), "Hello".to_string());
    assert_eq!(DataValue::from("Hello".to_string()), "Hello");
    assert_eq!(DataValue::from(vec![1u8, 2, 3]), vec![1u8, 2, 3]);
    assert_eq!(DataValue::from(&[1u8, 2, 3][..]), &[1u8, 2, 3][..]);
    assert_eq!(DataValue::from(SqlGuid { bits: 9 }), SqlGuid { bits: 9 });
    assert_eq!(DataValue::from(new_year()), new_year());
    assert_eq!(DataValue::from(noon()), noon());
    let at = SqlDateTime { date: new_year(), time: noon() };
    assert_eq!(DataValue::from(at), at);
    let instant = SqlDateTimeOffset { utc: at, offset_seconds: 3_600 };
    assert_eq!(DataValue::from(instant), instant);
}

#[test]
fn value_made_from_a_scalar_has_its_variant() {
    assert!(matches!(DataValue::from(1u8), DataValue::TinyInt(1)));
    assert!(matches!(DataValue::from(1i16), DataValue::SmallInt(1)));
    assert!(matches!(DataValue::from(1i32), DataValue::Int(1)));
    assert!(matches!(DataValue::from(1i64), DataValue::BigInt(1)));
    assert!(matches!(DataValue::from(true), DataValue::Bool(true)));
    assert!(matches!(DataValue::from(float(1.0)), DataValue::Float(_)));
    assert!(matches!(DataValue::from(decimal(1, 0)), DataValue::Decimal(_)));
    assert!(matches!(DataValue::from("a"), DataValue::Text(_)));
    assert!(matches!(DataValue::from("a".to_string()), DataValue::Text(_)));
    assert!(matches!(DataValue::from(vec![1u8]), DataValue::Binary(_)));
    assert!(matches!(DataValue::from(&[1u8][..]), DataValue::Binary(_)));
    assert!(matches!(DataValue::from(SqlGuid { bits: 1 }), DataValue::Guid(_)));
    assert!(matches!(DataValue::from(new_year()), DataValue::Date(_)));
    assert!(matches!(DataValue::from(noon()), DataValue::Time(_)));
    assert_eq!(DataCell::new(1).value, DataValue::Int(1));
    assert_eq!(DataCell::new("a").value, DataValue::Text("a".to_string()));
}

#[test]
fn values_of_different_kinds_are_never_equal() {
    assert_ne!(DataValue::from(1i32), true);
    assert_ne!(DataValue::from(true), 1);
    assert_ne!(DataValue::from(1i32), float(1.0));
    assert_ne!(DataValue::from(float(1.0)), 1);
    assert_ne!(DataValue::from(1i32), decimal(1, 0));
    assert_ne!(DataValue::from(decimal(1, 0)), 1);
    assert_ne!(DataValue::from(decimal(1, 0)), float(1.0));
    assert_ne!(DataValue::from(float(1.0)), decimal(1, 0));
    assert_ne!(DataValue::from(1i32), "1");
    assert_ne!(DataValue::from("1"), 1);
    assert_ne!(DataValue::from("1"), vec![b'1']);
    assert_ne!(DataValue::from(vec![b'1']), "1");
    assert_ne!(DataValue::from(SqlGuid { bits: 1 }), 1);
    assert_ne!(DataValue::from(SqlDate { days_from_ce: 1 }), 1);
    let values = one_of_each();
    for (i, a) in values.iter().enumerate() {
        for (j, b) in values.iter().enumerate() {
            if a.kind() != b.kind() {
                assert_ne!(a, b, "values {} and {}", i, j);
            }
        }
        assert_eq!(*a == 1, a.kind() == ValueKind::Integer);
        assert_eq!(*a == true, a.kind() == ValueKind::Bool);
        assert_eq!(*a == "1", a.kind() == ValueKind::Text);
    }
}

#[test]
fn null_equals_no_native_scalar() {
    let null = DataValue::Null;
    assert!(null.is_null());
    assert_eq!(null.kind(), ValueKind::Null);
    assert_ne!(null, 0);
    assert_ne!(null, false);
    assert_ne!(null, float(0.0));
    assert_ne!(null, decimal(0, 0));
    assert_ne!(null, "");
    assert_ne!(null, String::new());
    assert_ne!(null, Vec::<u8>::new());
    assert_ne!(null, &[0u8; 0][..]);
    assert_ne!(null, SqlGuid { bits: 0 });
    assert_ne!(null, SqlDate { days_from_ce: 0 });
    assert_ne!(null, SqlTime { seconds: 0, nanoseconds: 0 });
    assert_eq!(null, DataValue::Null);
    assert_eq!(DataValue::default(), DataValue::Null);
    assert!(DataValue::default().is_null());
    assert!(DataCell::default().value.is_null());
    assert!(!DataValue::Int(0).is_null());
}

#[test]
fn integers_compare_by_number_whatever_their_width() {
    assert_eq!(DataValue::from(200u8), 200);
    assert_eq!(DataValue::from(-300i16), -300);
    assert_eq!(DataValue::from(70_000i32), 70_000);
    assert_eq!(DataValue::from(-70_000i64), -70_000);
    assert_eq!(DataValue::from(i32::MIN as i64), i32::MIN);
    assert_eq!(DataValue::from(i32::MAX as i64), i32::MAX);
    assert_ne!(DataValue::from(i32::MAX as i64 + 1), i32::MAX);
    assert_ne!(DataValue::from(1i64 << 32), 0);
    assert_ne!(DataValue::from(255u8), -1);
    assert_ne!(DataValue::from(2u8), 3);
    assert_ne!(DataValue::TinyInt(1), DataValue::Int(1));
    assert_ne!(DataValue::BigInt(1), DataValue::Int(1));
    assert_eq!(DataValue::SmallInt(1), DataValue::SmallInt(1));
}

#[test]
fn floats_compare_as_numbers() {
    assert_eq!(float(5.5), float(5.5));
    assert_ne!(float(5.5), float(5.25));
    assert_eq!(float(0.0), float(-0.0));
    assert_ne!(float(f64::NAN), float(f64::NAN));
    assert_ne!(float(f64::NAN), float(0.0));
    assert_eq!(float(f64::INFINITY), float(f64::INFINITY));
    assert_ne!(float(f64::INFINITY), float(f64::NEG_INFINITY));
    assert_ne!(float(f64::INFINITY), float(f64::NAN));
    assert_eq!(float(f64::MIN_POSITIVE), float(f64::MIN_POSITIVE));
    let samples = [
        0.0,
        -0.0,
        1.0,
        -1.0,
        5.5,
        f64::MAX,
        f64::MIN,
        f64::MIN_POSITIVE,
        f64::EPSILON,
        5e-324,
        f64::INFINITY,
        f64::NEG_INFINITY,
        f64::NAN,
        -f64::NAN,
    ];
    for a in samples {
        for b in samples {
            assert_eq!(float(a) == float(b), a == b, "{} and {}", a, b);
            assert_eq!(DataValue::Float(float(a)) == float(b), a == b);
            assert_eq!(DataValue::Float(float(a)) == DataValue::Float(float(b)), a == b);
        }
    }
    assert_eq!(float(5.5).to_bits(), 5.5f64.to_bits());
}

#[test]
fn decimals_compare_as_numbers() {
    assert_eq!(decimal(12345, 2), decimal(12345, 2));
    assert_eq!(decimal(12345, 2), decimal(123450, 3));
    assert_eq!(decimal(1, 0), decimal(10_000_000_000_000_000_000_000_000_000, 28));
    assert_ne!(decimal(12345, 2), decimal(12345, 3));
    assert_ne!(decimal(12345, 2), decimal(-12345, 2));
    assert_eq!(decimal(0, 0), decimal(0, 28));
    assert_ne!(decimal(1, 28), decimal(0, 0));
    let largest: i128 = 0xffff_ffff_ffff_ffff_ffff_ffff;
    assert_ne!(decimal(largest, 0), decimal(largest, 1));
    assert_eq!(decimal(-largest, 28), decimal(-largest, 28));
    assert_eq!(DataValue::Decimal(decimal(5, 1)), DataValue::Decimal(decimal(50, 2)));
    let cases = [(12345i64, 2u32), (123450, 3), (-1, 0), (-10, 1), (0, 5), (7, 28)];
    for (m1, s1) in cases {
        for (m2, s2) in cases {
            assert_eq!(
                decimal(m1 as i128, s1) == decimal(m2 as i128, s2),
                Decimal::new(m1, s1) == Decimal::new(m2, s2)
            );
        }
    }
}

#[test]
fn decimal_holds_what_fits() {
    let largest: i128 = 0xffff_ffff_ffff_ffff_ffff_ffff;
    let made = SqlDecimal::new(-12345, 2).unwrap();
    assert_eq!(made.mantissa(), -12345);
    assert_eq!(made.scale(), 2);
    assert!(SqlDecimal::new(largest, 28).is_some());
    assert!(SqlDecimal::new(-largest, 28).is_some());
    assert!(SqlDecimal::new(largest + 1, 0).is_none());
    assert!(SqlDecimal::new(-largest - 1, 0).is_none());
    assert!(SqlDecimal::new(0, 29).is_none());
    assert!(SqlDecimal::new(i128::MAX, u32::MAX).is_none());
    assert!(SqlDecimal::new(i128::MIN, 0).is_none());
}

#[test]
fn offset_date_times_compare_as_instants() {
    let at = SqlDateTime { date: new_year(), time: noon() };
    let east = SqlDateTimeOffset { utc: at, offset_seconds: 7_200 };
    let west = SqlDateTimeOffset { utc: at, offset_seconds: -3_600 };
    assert_eq!(east, west);
    assert_eq!(DataValue::DateTimeOffset(east), west);
    assert_eq!(DataValue::DateTimeOffset(east), DataValue::DateTimeOffset(west));
    let later = SqlDateTimeOffset {
        utc: SqlDateTime { date: new_year(), time: SqlTime { seconds: 43_201, nanoseconds: 0 } },
        offset_seconds: 7_200,
    };
    assert_ne!(east, later);
}

#[test]
fn clone_keeps_the_value() {
    for value in one_of_each() {
        let copy = value.clone();
        assert_eq!(copy.kind(), value.kind());
        assert_eq!(copy, value);
    }
    let text = DataValue::from("some text");
    assert_eq!(text.clone(), "some text");
    let bytes = DataValue::from(vec![9u8, 8, 7]);
    assert_eq!(bytes.clone(), vec![9u8, 8, 7]);
}

#[test]
fn kinds_of_values() {
    let kinds: Vec<ValueKind> = one_of_each().iter().map(|value| value.kind()).collect();
    assert_eq!(
        kinds,
        vec![
            ValueKind::Integer,
            ValueKind::Integer,
            ValueKind::Integer,
            ValueKind::Integer,
            ValueKind::Float,
            ValueKind::Decimal,
            ValueKind::Bool,
            ValueKind::Text,
            ValueKind::Binary,
            ValueKind::Guid,
            ValueKind::Date,
            ValueKind::Time,
            ValueKind::DateTime,
            ValueKind::DateTimeOffset,
            ValueKind::Null,
        ]
    );
}

#[test]
fn absent_scalar_equals_nothing() {
    assert_ne!(DataValue::Null, None::<i32>);
    assert_ne!(DataValue::Null, None::<bool>);
    assert_ne!(DataValue::Null, None::<String>);
    assert_ne!(DataValue::Null, Some(0));
    assert_ne!(DataValue::Int(0), None::<i32>);
    assert_ne!(DataValue::Bool(false), None::<bool>);
    assert_eq!(DataValue::Int(5), Some(5));
    assert_ne!(DataValue::Int(5), Some(6));
    assert_eq!(DataValue::from("a"), Some("a"));
    assert_ne!(DataValue::from("a"), Some(1));
    for value in one_of_each() {
        assert_ne!(value, None::<i32>);
        assert_ne!(value, None::<&str>);
    }
}
