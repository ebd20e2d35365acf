//! The trusted boundary to the columnar file reader: type declarations,
//! names for what the reader produces, and thin wrappers around its calls.
//!
//! Everything the proofs know about the reader is stated here, over the
//! names `parsed_rows`, `parse_clean`, `source_items`, `source_clean`,
//! `row_view` and `field_view`. Parsing a byte buffer is deterministic, so
//! each name is a function of its argument alone.

use vstd::prelude::*;
use crate::values::{ConversionError, TypedField};
use parquet::file::serialized_reader::SerializedFileReader;
use parquet::record::reader::RowIter;
use parquet::record::Field;
use parquet::record::Row;

verus! {

#[verifier::external_type_specification]
#[verifier::external_body]
pub struct ExRow(Row);

#[verifier::external_type_specification]
#[verifier::external_body]
pub struct ExField(Field);

/// A finite, forward-only source of rows over one in-memory buffer. Holds
/// the reader's row iterator; opaque to the proofs, which see only
/// `source_items` and `source_clean`.
#[verifier::external_body]
pub struct RowSource {
    iter: RowIter<'static>,
}

/// The rows a row source will still yield, in order, each as its column
/// (name, field) view, up to the point where the source either ends or
/// fails.
pub uninterp spec fn source_items(s: RowSource) -> Seq<Seq<(String, TypedField)>>;

/// Whether the row source, after yielding `source_items`, ends cleanly
/// rather than with a decode failure of the underlying reader.
pub uninterp spec fn source_clean(s: RowSource) -> bool;

/// The rows that parsing the byte buffer `b` yields, in file order, up to
/// the point where the reader either ends or fails.
pub uninterp spec fn parsed_rows(b: Seq<u8>) -> Seq<Seq<(String, TypedField)>>;

/// Whether the byte buffer `b` parses cleanly: the reader opens and yields
/// all of `parsed_rows(b)` without a failure.
pub uninterp spec fn parse_clean(b: Seq<u8>) -> bool;

/// One row as the ordered sequence of its (column name, field) pairs.
pub uninterp spec fn row_view(r: Row) -> Seq<(String, TypedField)>;

/// The typed field a reader field carries, with floating-point payloads
/// read as their IEEE 754 bit patterns.
pub uninterp spec fn field_view(f: Field) -> TypedField;

/// Relies on `SerializedFileReader::new` and `RowIter::from_file_into` of
/// the columnar reader: parsing the buffer's footer and metadata is
/// deterministic in the bytes; on success the iterator yields the file's
/// rows in file order. A buffer the reader rejects outright has no rows.
#[verifier::external_body]
pub(crate) fn open_row_source(buf: Vec<u8>) -> (r: Result<RowSource, ConversionError>)
    ensures
        match r {
            Ok(s) => source_items(s) == parsed_rows(buf@) && source_clean(s) == parse_clean(buf@),
            Err(e) => e == ConversionError::UpstreamParseFault && !parse_clean(buf@)
                && parsed_rows(buf@).len() == 0,
        },
{
    match SerializedFileReader::new(bytes::Bytes::from(buf)) {
        Ok(rd) => Ok(RowSource { iter: RowIter::from_file_into(Box::new(rd)) }),
        Err(_) => Err(ConversionError::UpstreamParseFault),
    }
}

/// Relies on `next` of the reader's row iterator: it yields the remaining
/// rows in order, ends with nothing once they are exhausted, and surfaces
/// a decode failure of the underlying reader as an error item.
#[verifier::external_body]
pub(crate) fn next_row(s: &mut RowSource) -> (r: Result<Option<Row>, ConversionError>)
    ensures
        match r {
            Ok(opt) => match opt {
                Some(row) => source_items(*old(s)).len() > 0 && row_view(row) == source_items(
                    *old(s),
                )[0] && source_items(*final(s)) == source_items(*old(s)).drop_first()
                    && source_clean(*final(s)) == source_clean(*old(s)),
                None => source_items(*old(s)).len() == 0 && source_clean(*old(s)),
            },
            Err(e) => e == ConversionError::UpstreamParseFault && source_items(*old(s)).len() == 0
                && !source_clean(*old(s)),
        },
{
    match s.iter.next() {
        None => Ok(None),
        Some(Ok(row)) => Ok(Some(row)),
        Some(Err(_)) => Err(ConversionError::UpstreamParseFault),
    }
}

/// Relies on `Row::into_columns`: hands out the row's (column name, field)
/// pairs in column order, moving them out of the row.
#[verifier::external_body]
pub(crate) fn row_columns(r: Row) -> (out: Vec<(String, Field)>)
    ensures
        out@.len() == row_view(r).len(),
        forall|i: int|
            0 <= i < out@.len() ==> (#[trigger] out@[i]).0 == row_view(r)[i].0 && field_view(
                out@[i].1,
            ) == row_view(r)[i].1,
{
    r.into_columns()
}

/// The integer field variants, at every width and signedness.
pub open spec fn is_int_field(t: TypedField) -> bool {
    ||| t matches TypedField::Byte(_)
    ||| t matches TypedField::Short(_)
    ||| t matches TypedField::Int(_)
    ||| t matches TypedField::Long(_)
    ||| t matches TypedField::UByte(_)
    ||| t matches TypedField::UShort(_)
    ||| t matches TypedField::UInt(_)
    ||| t matches TypedField::ULong(_)
}

/// The remaining fixed-width field variants: null, boolean, the floats
/// and the epoch-relative temporals.
pub open spec fn is_plain_field(t: TypedField) -> bool {
    ||| t matches TypedField::Null
    ||| t matches TypedField::Bool(_)
    ||| t matches TypedField::Float16(_)
    ||| t matches TypedField::Float(_)
    ||| t matches TypedField::Double(_)
    ||| t matches TypedField::Date(_)
    ||| t matches TypedField::TimestampMillis(_)
    ||| t matches TypedField::TimestampMicros(_)
}

/// The rest: variable-length payloads, times of day, and the logical
/// types the translator does not map.
pub open spec fn is_other_field(t: TypedField) -> bool {
    ||| t matches TypedField::Str(_)
    ||| t matches TypedField::Bytes(_)
    ||| t matches TypedField::TimeMillis(_)
    ||| t matches TypedField::TimeMicros(_)
    ||| t matches TypedField::Decimal
    ||| t matches TypedField::Group
    ||| t matches TypedField::List
    ||| t matches TypedField::MapKv
}

/// Relies on the integer variants of the reader's field enum: tells them
/// apart, one arm each, copying the value.
#[verifier::external_body]
fn field_int(f: &Field) -> (o: Option<TypedField>)
    ensures
        match o {
            Some(t) => t == field_view(*f),
            None => !is_int_field(field_view(*f)),
        },
{
    match f {
        Field::Byte(x) => Some(TypedField::Byte(*x)),
        Field::Short(x) => Some(TypedField::Short(*x)),
        Field::Int(x) => Some(TypedField::Int(*x)),
        Field::Long(x) => Some(TypedField::Long(*x)),
        Field::UByte(x) => Some(TypedField::UByte(*x)),
        Field::UShort(x) => Some(TypedField::UShort(*x)),
        Field::UInt(x) => Some(TypedField::UInt(*x)),
        Field::ULong(x) => Some(TypedField::ULong(*x)),
        _ => None,
    }
}

/// Relies on the null, boolean, floating-point and epoch-relative variants
/// of the reader's field enum: tells them apart, one arm each, copying the
/// value; floating-point payloads copy as their IEEE 754 bit patterns.
#[verifier::external_body]
fn field_plain(f: &Field) -> (o: Option<TypedField>)
    ensures
        match o {
            Some(t) => t == field_view(*f),
            None => !is_plain_field(field_view(*f)),
        },
{
    match f {
        Field::Null => Some(TypedField::Null),
        Field::Bool(b) => Some(TypedField::Bool(*b)),
        Field::Float16(x) => Some(TypedField::Float16(x.to_bits())),
        Field::Float(x) => Some(TypedField::Float(x.to_bits())),
        Field::Double(x) => Some(TypedField::Double(x.to_bits())),
        Field::Date(d) => Some(TypedField::Date(*d)),
        Field::TimestampMillis(t) => Some(TypedField::TimestampMillis(*t)),
        Field::TimestampMicros(t) => Some(TypedField::TimestampMicros(*t)),
        _ => None,
    }
}

/// Relies on the remaining variants of the reader's field enum: tells them
/// apart, one arm each, cloning string and byte payloads; the payloads of
/// the logical types the translator does not map are dropped, since
/// nothing reads them.
#[verifier::external_body]
fn field_other(f: &Field) -> (o: Option<TypedField>)
    ensures
        match o {
            Some(t) => t == field_view(*f),
            None => !is_other_field(field_view(*f)),
        },
{
    match f {
        Field::Str(s) => Some(TypedField::Str(s.clone())),
        Field::Bytes(b) => Some(TypedField::Bytes(b.data().to_vec())),
        Field::TimeMillis(t) => Some(TypedField::TimeMillis(*t)),
        Field::TimeMicros(t) => Some(TypedField::TimeMicros(*t)),
        Field::Decimal(_) => Some(TypedField::Decimal),
        Field::Group(_) => Some(TypedField::Group),
        Field::ListInternal(_) => Some(TypedField::List),
        Field::MapInternal(_) => Some(TypedField::MapKv),
        _ => None,
    }
}

/// Reads one reader field as its typed field. The three variant classes
/// cover the whole field enum, so one of the three reads succeeds.
pub(crate) fn typed_of(f: &Field) -> (t: TypedField)
    ensures
        t == field_view(*f),
{
    if let Some(t) = field_int(f) {
        t
    } else if let Some(t) = field_plain(f) {
        t
    } else if let Some(t) = field_other(f) {
        t
    } else {
        proof {
            assert(false);
        }
        TypedField::Null
    }
}

} // verus!
