//! The field translator: a total mapping from one typed column value to one
//! dynamic value, or to an explicit conversion error.

use vstd::prelude::*;
use vstd::arithmetic::div_mod::{lemma_fundamental_div_mod_converse};
use crate::float_bits::{widen_f32_bits, widened_f32_bits};
use crate::values::{
    ConversionError, DynamicValue, Timestamp, TypedField, UnsupportedKind, MICROS_PER_DAY,
    MICROS_PER_MILLI,
};

verus! {

/// The error translating `f` produces, or `None` when `f` is convertible.
///
/// Exactly two conditions fail: an unsigned 64-bit value above the signed
/// maximum, and the logical types the translator deliberately does not map.
pub open spec fn translate_err(f: TypedField) -> Option<ConversionError> {
    match f {
        TypedField::ULong(x) => if x > i64::MAX as u64 {
            Some(ConversionError::Overflow { value: x })
        } else {
            None
        },
        TypedField::Float16(_) => Some(
            ConversionError::Unsupported { kind: UnsupportedKind::Float16 },
        ),
        TypedField::TimeMillis(_) => Some(
            ConversionError::Unsupported { kind: UnsupportedKind::TimeMillis },
        ),
        TypedField::TimeMicros(_) => Some(
            ConversionError::Unsupported { kind: UnsupportedKind::TimeMicros },
        ),
        TypedField::Decimal => Some(ConversionError::Unsupported { kind: UnsupportedKind::Decimal }),
        TypedField::Group => Some(ConversionError::Unsupported { kind: UnsupportedKind::Group }),
        TypedField::List => Some(ConversionError::Unsupported { kind: UnsupportedKind::List }),
        TypedField::MapKv => Some(ConversionError::Unsupported { kind: UnsupportedKind::MapKv }),
        _ => None,
    }
}

/// What it means for the dynamic value `v` to be the translation of the
/// convertible field `f`: the per-variant policy of the translator, pinned
/// value by value.
pub open spec fn is_translation(f: TypedField, v: DynamicValue) -> bool {
    match f {
        TypedField::Null => v == DynamicValue::Nothing,
        TypedField::Bool(b) => v == DynamicValue::Bool(b),
        // 8-bit values pass through as a one-byte binary blob holding the
        // raw bit pattern: the value model has no dedicated byte scalar.
        TypedField::Byte(x) => v matches DynamicValue::Binary(bs) && bs@ == seq![x as u8],
        TypedField::UByte(x) => v matches DynamicValue::Binary(bs) && bs@ == seq![x],
        TypedField::Short(x) => v == DynamicValue::Int(x as i64),
        TypedField::UShort(x) => v == DynamicValue::Int(x as i64),
        TypedField::Int(x) => v == DynamicValue::Int(x as i64),
        TypedField::UInt(x) => v == DynamicValue::Int(x as i64),
        TypedField::Long(x) => v == DynamicValue::Int(x),
        TypedField::ULong(x) => x <= i64::MAX as u64 && v == DynamicValue::Int(x as i64),
        TypedField::Float(bits) => v matches DynamicValue::Float(w) && w as int == widened_f32_bits(
            bits,
        ),
        TypedField::Double(bits) => v == DynamicValue::Float(bits),
        TypedField::Str(s) => v matches DynamicValue::Str(t) && t@ == s@,
        TypedField::Bytes(bs) => v matches DynamicValue::Binary(cs) && cs@ == bs@,
        TypedField::Date(d) => v matches DynamicValue::Date(ts) && ts.micros as int == d as int
            * MICROS_PER_DAY as int,
        TypedField::TimestampMillis(ms) => v matches DynamicValue::Date(ts) && ts.micros as int
            == ms as int * MICROS_PER_MILLI as int,
        TypedField::TimestampMicros(us) => v matches DynamicValue::Date(ts) && ts.micros as int
            == us as int,
        _ => false,
    }
}

/// Translates one typed column value into a dynamic value, or fails with
/// the explicit error that `translate_err` assigns to it. Nothing is ever
/// silently wrapped, truncated, defaulted or dropped.
pub fn translate(field: TypedField) -> (r: Result<DynamicValue, ConversionError>)
    ensures
        match translate_err(field) {
            Some(e) => r == Result::<DynamicValue, ConversionError>::Err(e),
            None => r matches Ok(v) && is_translation(field, v),
        },
{
    match field {
        TypedField::Null => Ok(DynamicValue::Nothing),
        TypedField::Bool(b) => Ok(DynamicValue::Bool(b)),
        TypedField::Byte(x) => {
            let mut bs: Vec<u8> = Vec::new();
            bs.push(x as u8);
            proof {
                assert(bs@ =~= seq![x as u8]);
            }
            Ok(DynamicValue::Binary(bs))
        },
        TypedField::UByte(x) => {
            let mut bs: Vec<u8> = Vec::new();
            bs.push(x);
            proof {
                assert(bs@ =~= seq![x]);
            }
            Ok(DynamicValue::Binary(bs))
        },
        TypedField::Short(x) => Ok(DynamicValue::Int(x as i64)),
        TypedField::UShort(x) => Ok(DynamicValue::Int(x as i64)),
        TypedField::Int(x) => Ok(DynamicValue::Int(x as i64)),
        TypedField::UInt(x) => Ok(DynamicValue::Int(x as i64)),
        TypedField::Long(x) => Ok(DynamicValue::Int(x)),
        TypedField::ULong(x) => {
            if x <= i64::MAX as u64 {
                Ok(DynamicValue::Int(x as i64))
            } else {
                Err(ConversionError::Overflow { value: x })
            }
        },
        TypedField::Float(bits) => Ok(DynamicValue::Float(widen_f32_bits(bits))),
        TypedField::Double(bits) => Ok(DynamicValue::Float(bits)),
        TypedField::Str(s) => Ok(DynamicValue::Str(s)),
        TypedField::Bytes(bs) => Ok(DynamicValue::Binary(bs)),
        TypedField::Date(d) => Ok(DynamicValue::Date(Timestamp::from_days(d))),
        TypedField::TimestampMillis(ms) => Ok(DynamicValue::Date(Timestamp::from_millis(ms))),
        TypedField::TimestampMicros(us) => Ok(DynamicValue::Date(Timestamp::from_micros(us))),
        TypedField::Float16(_) => Err(
            ConversionError::Unsupported { kind: UnsupportedKind::Float16 },
        ),
        TypedField::TimeMillis(_) => Err(
            ConversionError::Unsupported { kind: UnsupportedKind::TimeMillis },
        ),
        TypedField::TimeMicros(_) => Err(
            ConversionError::Unsupported { kind: UnsupportedKind::TimeMicros },
        ),
        TypedField::Decimal => Err(ConversionError::Unsupported { kind: UnsupportedKind::Decimal }),
        TypedField::Group => Err(ConversionError::Unsupported { kind: UnsupportedKind::Group }),
        TypedField::List => Err(ConversionError::Unsupported { kind: UnsupportedKind::List }),
        TypedField::MapKv => Err(ConversionError::Unsupported { kind: UnsupportedKind::MapKv }),
    }
}

/// Which 16- or 32-bit integer fields there are.
pub open spec fn is_mid_width_int(f: TypedField) -> bool {
    ||| f matches TypedField::Short(_)
    ||| f matches TypedField::UShort(_)
    ||| f matches TypedField::Int(_)
    ||| f matches TypedField::UInt(_)
}

/// The numeric value a 16- or 32-bit integer field holds.
pub open spec fn mid_width_value(f: TypedField) -> int {
    match f {
        TypedField::Short(x) => x as int,
        TypedField::UShort(x) => x as int,
        TypedField::Int(x) => x as int,
        TypedField::UInt(x) => x as int,
        _ => 0,
    }
}

/// Whether `f` and `g` are the same integer field variant.
pub open spec fn same_int_variant(f: TypedField, g: TypedField) -> bool {
    match (f, g) {
        (TypedField::Short(_), TypedField::Short(_)) => true,
        (TypedField::UShort(_), TypedField::UShort(_)) => true,
        (TypedField::Int(_), TypedField::Int(_)) => true,
        (TypedField::UInt(_), TypedField::UInt(_)) => true,
        _ => false,
    }
}

/// Law: every 16- or 32-bit integer field, signed or unsigned, translates
/// losslessly into the canonical signed integer — the translated value is
/// numerically equal to the source value.
pub proof fn lemma_mid_width_lossless(f: TypedField, v: DynamicValue)
    requires
        is_mid_width_int(f),
        is_translation(f, v),
    ensures
        v matches DynamicValue::Int(n) && n as int == mid_width_value(f),
{
}

/// Law: within each 16- or 32-bit integer width and signedness, translation
/// is injective — two fields of the same variant with the same translation
/// are the same field.
pub proof fn lemma_mid_width_injective(f: TypedField, g: TypedField, v: DynamicValue)
    requires
        same_int_variant(f, g),
        is_translation(f, v),
        is_translation(g, v),
    ensures
        f == g,
{
}

/// Law: an unsigned 64-bit value within the canonical signed range
/// translates to the numerically equal integer and round-trips exactly.
pub proof fn lemma_ulong_round_trip(x: u64, v: DynamicValue)
    requires
        x <= i64::MAX as u64,
        is_translation(TypedField::ULong(x), v),
    ensures
        v matches DynamicValue::Int(n) && n == x as i64 && n as u64 == x,
{
}

/// Law: an unsigned 64-bit value above the canonical signed maximum never
/// translates; it fails with the overflow error carrying that value.
pub proof fn lemma_ulong_overflow(x: u64)
    requires
        x > i64::MAX as u64,
    ensures
        translate_err(TypedField::ULong(x)) == Some(
            ConversionError::Overflow { value: x },
        ),
        forall|v: DynamicValue| !is_translation(TypedField::ULong(x), v),
{
}

/// Law: a date field of `d` days translates to exactly the epoch plus `d`
/// whole days — the instant is divisible by a day, with no sub-day part,
/// and the day count is recoverable.
pub proof fn lemma_date_whole_days(d: i32, v: DynamicValue)
    requires
        is_translation(TypedField::Date(d), v),
    ensures
        v matches DynamicValue::Date(ts) && ts.micros as int == d as int * MICROS_PER_DAY as int
            && ts.micros as int % MICROS_PER_DAY as int == 0 && ts.micros as int
            / MICROS_PER_DAY as int == d as int,
{
    let ts = v->Date_0;
    lemma_fundamental_div_mod_converse(ts.micros as int, MICROS_PER_DAY as int, d as int, 0);
}

/// Law: a millisecond timestamp decodes to an instant that re-encodes to
/// the same millisecond count — the microsecond form is divisible by a
/// millisecond and dividing recovers the input exactly.
pub proof fn lemma_timestamp_millis_round_trip(ms: i64, v: DynamicValue)
    requires
        is_translation(TypedField::TimestampMillis(ms), v),
    ensures
        v matches DynamicValue::Date(ts) && ts.micros as int == ms as int
            * MICROS_PER_MILLI as int && ts.micros as int % MICROS_PER_MILLI as int == 0
            && ts.micros as int / MICROS_PER_MILLI as int == ms as int,
{
    let ts = v->Date_0;
    lemma_fundamental_div_mod_converse(ts.micros as int, MICROS_PER_MILLI as int, ms as int, 0);
}

/// Law: a microsecond timestamp decodes to the instant of exactly that
/// microsecond count, so re-encoding to microseconds is the identity.
pub proof fn lemma_timestamp_micros_round_trip(us: i64, v: DynamicValue)
    requires
        is_translation(TypedField::TimestampMicros(us), v),
    ensures
        v matches DynamicValue::Date(ts) && ts.micros as int == us as int,
{
}

} // verus!
