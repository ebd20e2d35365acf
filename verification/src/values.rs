//! The two value models: typed column fields (input) and dynamic values
//! (output), together with the conversion error taxonomy.

use vstd::prelude::*;

verus! {

/// Microseconds in one day: 24 * 60 * 60 * 1_000_000.
pub const MICROS_PER_DAY: i128 = 86_400_000_000;

/// Microseconds in one millisecond.
pub const MICROS_PER_MILLI: i128 = 1_000;

/// One decoded column value, tagged with its physical/logical type.
///
/// Floating-point fields carry their raw IEEE 754 bit patterns, so that the
/// numeric translation can be stated and checked exactly, bit for bit.
/// The trailing variants are logical types that the translator deliberately
/// does not map to a dynamic value; they fail with an explicit
/// [`ConversionError::Unsupported`] rather than being dropped silently.
#[derive(Debug, Clone)]
pub enum TypedField {
    /// Null value.
    Null,
    /// Boolean value.
    Bool(bool),
    /// Signed 8-bit integer.
    Byte(i8),
    /// Signed 16-bit integer.
    Short(i16),
    /// Signed 32-bit integer.
    Int(i32),
    /// Signed 64-bit integer.
    Long(i64),
    /// Unsigned 8-bit integer.
    UByte(u8),
    /// Unsigned 16-bit integer.
    UShort(u16),
    /// Unsigned 32-bit integer.
    UInt(u32),
    /// Unsigned 64-bit integer; may exceed the signed 64-bit range.
    ULong(u64),
    /// IEEE 754 half-precision bit pattern (not convertible).
    Float16(u16),
    /// IEEE 754 single-precision bit pattern.
    Float(u32),
    /// IEEE 754 double-precision bit pattern.
    Double(u64),
    /// UTF-8 string.
    Str(String),
    /// Opaque byte sequence.
    Bytes(Vec<u8>),
    /// Days since the epoch 1970-01-01.
    Date(i32),
    /// Milliseconds since midnight, a time of day (not convertible).
    TimeMillis(i32),
    /// Microseconds since midnight, a time of day (not convertible).
    TimeMicros(i64),
    /// Milliseconds since the epoch instant.
    TimestampMillis(i64),
    /// Microseconds since the epoch instant.
    TimestampMicros(i64),
    /// Arbitrary-precision decimal (not convertible).
    Decimal,
    /// Nested group/struct (not convertible).
    Group,
    /// List of elements (not convertible).
    List,
    /// Key-value map (not convertible).
    MapKv,
}

/// An absolute instant: microseconds since 1970-01-01T00:00:00 at zero
/// UTC offset. Wide enough to hold any day number of a signed 32-bit day
/// count and any 64-bit millisecond or microsecond timestamp exactly.
#[derive(Debug, PartialEq, Eq, Structural, Clone, Copy)]
pub struct Timestamp {
    pub micros: i128,
}

impl Timestamp {
    /// The instant exactly `days` whole days after the epoch instant.
    pub fn from_days(days: i32) -> (t: Timestamp)
        ensures
            t.micros as int == days as int * MICROS_PER_DAY as int,
    {
        Timestamp { micros: days as i128 * MICROS_PER_DAY }
    }

    /// The instant exactly `ms` milliseconds after the epoch instant.
    pub fn from_millis(ms: i64) -> (t: Timestamp)
        ensures
            t.micros as int == ms as int * MICROS_PER_MILLI as int,
    {
        Timestamp { micros: ms as i128 * MICROS_PER_MILLI }
    }

    /// The instant exactly `us` microseconds after the epoch instant.
    pub fn from_micros(us: i64) -> (t: Timestamp)
        ensures
            t.micros as int == us as int,
    {
        Timestamp { micros: us as i128 }
    }
}

/// The generic, self-describing runtime value model.
///
/// Numbers widen into a single canonical signed 64-bit integer; both float
/// widths widen exactly into the canonical IEEE 754 double bit pattern, so
/// no rounding ever occurs. A record is an ordered sequence of (name, value)
/// pairs; the final aggregate is a list of such records.
#[derive(Debug)]
pub enum DynamicValue {
    /// Absence of a value.
    Nothing,
    /// Boolean value.
    Bool(bool),
    /// Canonical signed integer.
    Int(i64),
    /// Canonical floating-point value, as its IEEE 754 double bit pattern.
    Float(u64),
    /// UTF-8 string.
    Str(String),
    /// Opaque byte sequence.
    Binary(Vec<u8>),
    /// An absolute timestamp.
    Date(Timestamp),
    /// One decoded row: ordered (column name, value) pairs, order preserved.
    Record(Vec<(String, DynamicValue)>),
    /// The aggregate result: one record per input row, in input order.
    List(Vec<DynamicValue>),
}

/// Names the logical type that the translator does not map.
#[derive(Debug, PartialEq, Eq, Structural, Clone, Copy)]
pub enum UnsupportedKind {
    /// Arbitrary-precision decimal.
    Decimal,
    /// Nested group/struct.
    Group,
    /// List of elements.
    List,
    /// Key-value map.
    MapKv,
    /// IEEE 754 half-precision float.
    Float16,
    /// Time of day in milliseconds.
    TimeMillis,
    /// Time of day in microseconds.
    TimeMicros,
}

/// Why a decode failed. All variants are terminal for the whole decode:
/// no partial result is ever produced.
#[derive(Debug, PartialEq, Eq, Structural, Clone, Copy)]
pub enum ConversionError {
    /// An unsigned 64-bit value did not fit the canonical signed integer;
    /// carries the offending value. The source type is always the unsigned
    /// 64-bit integer and the target the signed 64-bit integer, the one
    /// fallible narrowing of the translation.
    Overflow { value: u64 },
    /// A field used a logical type this translator does not yet implement.
    Unsupported { kind: UnsupportedKind },
    /// The row source itself failed to parse its input; opaque to this
    /// layer, surfaced as-is.
    UpstreamParseFault,
}

} // verus!
