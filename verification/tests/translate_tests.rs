//! Unit tests for the field translator: one exact expected value per
//! variant, the numeric edge cases, and every error variant.

use from_parquet::translate::translate;
use from_parquet::{ConversionError, DynamicValue, TypedField, UnsupportedKind};

fn ok(f: TypedField) -> DynamicValue {
    translate(f).expect("expected a convertible field")
}

fn err(f: TypedField) -> ConversionError {
    translate(f).expect_err("expected a conversion error")
}

#[test]
fn null_becomes_nothing() {
    assert!(matches!(ok(TypedField::Null), DynamicValue::Nothing));
}

#[test]
fn bool_is_identity() {
    assert!(matches!(ok(TypedField::Bool(true)), DynamicValue::Bool(true)));
    assert!(matches!(ok(TypedField::Bool(false)), DynamicValue::Bool(false)));
}

#[test]
fn bytes_become_one_byte_blobs() {
    match ok(TypedField::Byte(-1)) {
        DynamicValue::Binary(b) => assert_eq!(b, vec![0xffu8]),
        other => panic!("unexpected value {:?}", other),
    }
    match ok(TypedField::UByte(7)) {
        DynamicValue::Binary(b) => assert_eq!(b, vec![7u8]),
        other => panic!("unexpected value {:?}", other),
    }
}

#[test]
fn mid_width_integers_widen_losslessly() {
    assert!(matches!(ok(TypedField::Short(-32768)), DynamicValue::Int(-32768)));
    assert!(matches!(ok(TypedField::UShort(65535)), DynamicValue::Int(65535)));
    assert!(matches!(ok(TypedField::Int(-2147483648)), DynamicValue::Int(-2147483648)));
    assert!(matches!(ok(TypedField::UInt(4294967295)), DynamicValue::Int(4294967295)));
}

#[test]
fn long_is_identity() {
    assert!(matches!(ok(TypedField::Long(i64::MIN)), DynamicValue::Int(i64::MIN)));
    assert!(matches!(ok(TypedField::Long(i64::MAX)), DynamicValue::Int(i64::MAX)));
}

#[test]
fn ulong_in_range_round_trips() {
    match ok(TypedField::ULong(i64::MAX as u64)) {
        DynamicValue::Int(n) => {
            assert_eq!(n, i64::MAX);
            assert_eq!(n as u64, i64::MAX as u64);
        },
        other => panic!("unexpected value {:?}", other),
    }
    assert!(matches!(ok(TypedField::ULong(0)), DynamicValue::Int(0)));
}

#[test]
fn ulong_above_max_overflows() {
    assert_eq!(err(TypedField::ULong(u64::MAX)), ConversionError::Overflow { value: u64::MAX });
    assert_eq!(
        err(TypedField::ULong(i64::MAX as u64 + 1)),
        ConversionError::Overflow { value: i64::MAX as u64 + 1 },
    );
}

fn widened(x: f32) -> u64 {
    match ok(TypedField::Float(x.to_bits())) {
        DynamicValue::Float(w) => w,
        other => panic!("unexpected value {:?}", other),
    }
}

#[test]
fn float_widens_exactly_as_the_hardware_does() {
    for x in [
        0.0f32,
        -0.0,
        1.0,
        1.5,
        -3.25,
        f32::MAX,
        f32::MIN,
        f32::MIN_POSITIVE,
        f32::INFINITY,
        f32::NEG_INFINITY,
        1.0e-40,
        -1.0e-40,
    ] {
        assert_eq!(widened(x), (x as f64).to_bits(), "widening {:?}", x);
    }
    // The smallest and largest subnormal singles.
    assert_eq!(widened(f32::from_bits(1)), (f32::from_bits(1) as f64).to_bits());
    assert_eq!(
        widened(f32::from_bits(0x007f_ffff)),
        (f32::from_bits(0x007f_ffff) as f64).to_bits(),
    );
    assert_eq!(
        widened(f32::from_bits(0x807f_ffff)),
        (f32::from_bits(0x807f_ffff) as f64).to_bits(),
    );
}

#[test]
fn float_nan_stays_nan() {
    let w = widened(f32::NAN);
    assert!(f64::from_bits(w).is_nan());
}

#[test]
fn double_passes_through_bit_for_bit() {
    let bits = (2.75f64).to_bits();
    match ok(TypedField::Double(bits)) {
        DynamicValue::Float(w) => assert_eq!(w, bits),
        other => panic!("unexpected value {:?}", other),
    }
}

#[test]
fn string_and_bytes_are_identity() {
    match ok(TypedField::Str(String::from("Ann"))) {
        DynamicValue::Str(s) => assert_eq!(s, "Ann"),
        other => panic!("unexpected value {:?}", other),
    }
    match ok(TypedField::Bytes(vec![1, 2, 3])) {
        DynamicValue::Binary(b) => assert_eq!(b, vec![1, 2, 3]),
        other => panic!("unexpected value {:?}", other),
    }
}

#[test]
fn date_is_epoch_plus_whole_days() {
    match ok(TypedField::Date(0)) {
        DynamicValue::Date(ts) => assert_eq!(ts.micros, 0),
        other => panic!("unexpected value {:?}", other),
    }
    match ok(TypedField::Date(1)) {
        DynamicValue::Date(ts) => {
            assert_eq!(ts.micros, 86_400_000_000);
            assert_eq!(ts.micros % 86_400_000_000, 0);
        },
        other => panic!("unexpected value {:?}", other),
    }
    match ok(TypedField::Date(-1)) {
        DynamicValue::Date(ts) => assert_eq!(ts.micros, -86_400_000_000),
        other => panic!("unexpected value {:?}", other),
    }
}

#[test]
fn timestamp_millis_round_trips() {
    for ms in [0i64, 1, -1, 1_600_000_000_123, i64::MIN / 1000] {
        match ok(TypedField::TimestampMillis(ms)) {
            DynamicValue::Date(ts) => {
                assert_eq!(ts.micros, ms as i128 * 1000);
                assert_eq!((ts.micros / 1000) as i64, ms);
            },
            other => panic!("unexpected value {:?}", other),
        }
    }
}

#[test]
fn timestamp_micros_round_trips() {
    for us in [0i64, 5, -5, i64::MAX, i64::MIN] {
        match ok(TypedField::TimestampMicros(us)) {
            DynamicValue::Date(ts) => assert_eq!(ts.micros, us as i128),
            other => panic!("unexpected value {:?}", other),
        }
    }
}

#[test]
fn unsupported_types_fail_with_their_kind() {
    assert_eq!(err(TypedField::Decimal), ConversionError::Unsupported {
        kind: UnsupportedKind::Decimal,
    });
    assert_eq!(err(TypedField::Group), ConversionError::Unsupported {
        kind: UnsupportedKind::Group,
    });
    assert_eq!(err(TypedField::List), ConversionError::Unsupported {
        kind: UnsupportedKind::List,
    });
    assert_eq!(err(TypedField::MapKv), ConversionError::Unsupported {
        kind: UnsupportedKind::MapKv,
    });
    assert_eq!(err(TypedField::Float16(0x3c00)), ConversionError::Unsupported {
        kind: UnsupportedKind::Float16,
    });
    assert_eq!(err(TypedField::TimeMillis(1200)), ConversionError::Unsupported {
        kind: UnsupportedKind::TimeMillis,
    });
    assert_eq!(err(TypedField::TimeMicros(1200)), ConversionError::Unsupported {
        kind: UnsupportedKind::TimeMicros,
    });
}
