//! Tests for the row materializer: order preservation, empty rows, and
//! abort on the first failing field.

use from_parquet::materialize::materialize_row;
use from_parquet::{ConversionError, DynamicValue, TypedField, UnsupportedKind};

#[test]
fn record_keeps_names_and_column_order() {
    let row = vec![
        (String::from("name"), TypedField::Str(String::from("Ann"))),
        (String::from("age"), TypedField::Int(30)),
    ];
    match materialize_row(row).expect("row should materialize") {
        DynamicValue::Record(fields) => {
            assert_eq!(fields.len(), 2);
            assert_eq!(fields[0].0, "name");
            match &fields[0].1 {
                DynamicValue::Str(s) => assert_eq!(s, "Ann"),
                other => panic!("unexpected value {:?}", other),
            }
            assert_eq!(fields[1].0, "age");
            assert!(matches!(fields[1].1, DynamicValue::Int(30)));
        },
        other => panic!("unexpected value {:?}", other),
    }
}

#[test]
fn empty_row_gives_empty_record() {
    match materialize_row(Vec::new()).expect("empty row should materialize") {
        DynamicValue::Record(fields) => assert_eq!(fields.len(), 0),
        other => panic!("unexpected value {:?}", other),
    }
}

#[test]
fn unsupported_field_fails_the_row_wherever_it_stands() {
    for position in 0..3 {
        let mut row = vec![
            (String::from("a"), TypedField::Int(1)),
            (String::from("b"), TypedField::Int(2)),
        ];
        row.insert(position, (String::from("d"), TypedField::Decimal));
        assert_eq!(
            materialize_row(row).expect_err("decimal must fail"),
            ConversionError::Unsupported { kind: UnsupportedKind::Decimal },
        );
    }
}

#[test]
fn first_failing_field_wins() {
    let row = vec![
        (String::from("a"), TypedField::ULong(u64::MAX)),
        (String::from("b"), TypedField::Group),
    ];
    assert_eq!(
        materialize_row(row).expect_err("row must fail"),
        ConversionError::Overflow { value: u64::MAX },
    );
    let row = vec![
        (String::from("a"), TypedField::Group),
        (String::from("b"), TypedField::ULong(u64::MAX)),
    ];
    assert_eq!(
        materialize_row(row).expect_err("row must fail"),
        ConversionError::Unsupported { kind: UnsupportedKind::Group },
    );
}
