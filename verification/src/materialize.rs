//! The row materializer: translates every field of a row in column order
//! into an ordered record, and defines what the whole decode of a row
//! sequence must produce — including abort-on-first-error.

use vstd::prelude::*;
use crate::translate::{is_translation, translate, translate_err};
use crate::values::{ConversionError, DynamicValue, TypedField};

verus! {

/// The first conversion error among the fields of one row, scanning in
/// column order; `None` when every field converts.
pub open spec fn row_first_error(row: Seq<(String, TypedField)>) -> Option<ConversionError>
    decreases row.len(),
{
    if row.len() == 0 {
        None
    } else {
        match translate_err(row[0].1) {
            Some(e) => Some(e),
            None => row_first_error(row.drop_first()),
        }
    }
}

/// The first conversion error over a sequence of rows, scanning rows in
/// order and each row in column order; `None` when everything converts.
pub open spec fn rows_first_error(rows: Seq<Seq<(String, TypedField)>>) -> Option<
    ConversionError,
>
    decreases rows.len(),
{
    if rows.len() == 0 {
        None
    } else {
        match row_first_error(rows[0]) {
            Some(e) => Some(e),
            None => rows_first_error(rows.drop_first()),
        }
    }
}

/// What it means for `rec` to be the record materialized from `row`: the
/// ordered-record variant with exactly one field per input column, names
/// and column order preserved, each value the translation of its field.
pub open spec fn record_matches(row: Seq<(String, TypedField)>, rec: DynamicValue) -> bool {
    rec matches DynamicValue::Record(fs) && fs@.len() == row.len() && (forall|j: int|
        0 <= j < row.len() ==> (#[trigger] fs@[j]).0@ == row[j].0@ && is_translation(
            row[j].1,
            fs@[j].1,
        ))
}

/// What the whole decode of `rows` must produce when the row source parses
/// cleanly (`clean`): the first conversion error if any field fails; else
/// the upstream fault if the source did not parse; else the aggregate list
/// holding exactly one matching record per row, in row order.
pub open spec fn decode_rel(
    rows: Seq<Seq<(String, TypedField)>>,
    clean: bool,
    r: Result<DynamicValue, ConversionError>,
) -> bool {
    match rows_first_error(rows) {
        Some(e) => r == Result::<DynamicValue, ConversionError>::Err(e),
        None => if !clean {
            r == Result::<DynamicValue, ConversionError>::Err(ConversionError::UpstreamParseFault)
        } else {
            r matches Ok(v) && v matches DynamicValue::List(recs) && recs@.len() == rows.len()
                && (forall|i: int|
                0 <= i < rows.len() ==> record_matches(rows[i], #[trigger] recs@[i]))
        },
    }
}

/// Materializes one row into its ordered record, translating every field
/// in column order; aborts with the row's first conversion error.
#[verifier::loop_isolation(false)]
pub fn materialize_row(row: Vec<(String, TypedField)>) -> (r: Result<
    DynamicValue,
    ConversionError,
>)
    ensures
        row_first_error(row@) is Some ==> r == Result::<DynamicValue, ConversionError>::Err(
            row_first_error(row@)->0,
        ),
        row_first_error(row@) is None ==> (r matches Ok(rec) && record_matches(row@, rec)),
{
    let ghost all = row@;
    let mut rest = row;
    let mut fields: Vec<(String, DynamicValue)> = Vec::new();
    while rest.len() > 0
        invariant
            fields@.len() + rest@.len() == all.len(),
            rest@ =~= all.subrange(fields@.len() as int, all.len() as int),
            row_first_error(all) == row_first_error(rest@),
            forall|j: int|
                0 <= j < fields@.len() ==> (#[trigger] fields@[j]).0@ == all[j].0@
                    && is_translation(all[j].1, fields@[j].1),
        decreases rest@.len(),
    {
        let ghost row_before = rest@;
        let (name, field) = rest.remove(0);
        proof {
            assert(rest@ =~= row_before.drop_first());
        }
        match translate(field) {
            Ok(v) => {
                fields.push((name, v));
            },
            Err(e) => {
                return Err(e);
            },
        }
    }
    Ok(DynamicValue::Record(fields))
}

proof fn lemma_row_first_error_at(row: Seq<(String, TypedField)>, j: int)
    requires
        0 <= j < row.len(),
        translate_err(row[j].1) is Some,
        forall|j2: int| 0 <= j2 < j ==> translate_err(#[trigger] row[j2].1) is None,
    ensures
        row_first_error(row) == translate_err(row[j].1),
    decreases j,
{
    if j > 0 {
        lemma_row_first_error_at(row.drop_first(), j - 1);
    }
}

pub(crate) proof fn lemma_rows_first_error_at(rows: Seq<Seq<(String, TypedField)>>, i: int)
    requires
        0 <= i < rows.len(),
        row_first_error(rows[i]) is Some,
        forall|i2: int| 0 <= i2 < i ==> row_first_error(#[trigger] rows[i2]) is None,
    ensures
        rows_first_error(rows) == row_first_error(rows[i]),
    decreases i,
{
    if i > 0 {
        lemma_rows_first_error_at(rows.drop_first(), i - 1);
    }
}

pub(crate) proof fn lemma_rows_all_ok(rows: Seq<Seq<(String, TypedField)>>)
    requires
        forall|i: int| 0 <= i < rows.len() ==> row_first_error(#[trigger] rows[i]) is None,
    ensures
        rows_first_error(rows) is None,
    decreases rows.len(),
{
    if rows.len() > 0 {
        assert(row_first_error(rows[0]) is None);
        assert forall|i: int|
            0 <= i < rows.drop_first().len() implies row_first_error(
            #[trigger] rows.drop_first()[i],
        ) is None by {
            assert(rows.drop_first()[i] == rows[i + 1]);
        }
        lemma_rows_all_ok(rows.drop_first());
    }
}

proof fn lemma_row_error_somewhere(row: Seq<(String, TypedField)>, j: int)
    requires
        0 <= j < row.len(),
        translate_err(row[j].1) is Some,
    ensures
        row_first_error(row) is Some,
    decreases j,
{
    if j > 0 && translate_err(row[0].1) is None {
        lemma_row_error_somewhere(row.drop_first(), j - 1);
    }
}

proof fn lemma_rows_error_somewhere(rows: Seq<Seq<(String, TypedField)>>, i: int)
    requires
        0 <= i < rows.len(),
        row_first_error(rows[i]) is Some,
    ensures
        rows_first_error(rows) is Some,
    decreases i,
{
    if i > 0 && row_first_error(rows[0]) is None {
        lemma_rows_error_somewhere(rows.drop_first(), i - 1);
    }
}

/// Law: an empty row source that parses cleanly decodes to the empty
/// sequence of records, not to an error.
pub proof fn lemma_empty_source_empty_list(
    clean: bool,
    r: Result<DynamicValue, ConversionError>,
)
    requires
        decode_rel(Seq::<Seq<(String, TypedField)>>::empty(), clean, r),
        clean,
    ensures
        r matches Ok(v) && v matches DynamicValue::List(recs) && recs@.len() == 0,
{
}

/// Law: a single unconvertible field anywhere in the input — an
/// unsupported logical type or an overflowing value, in any row, at any
/// column — makes the whole decode fail; there is no partial result.
pub proof fn lemma_field_error_aborts(
    rows: Seq<Seq<(String, TypedField)>>,
    clean: bool,
    r: Result<DynamicValue, ConversionError>,
    i: int,
    j: int,
)
    requires
        decode_rel(rows, clean, r),
        0 <= i < rows.len(),
        0 <= j < rows[i].len(),
        translate_err(rows[i][j].1) is Some,
    ensures
        r is Err,
{
    lemma_row_error_somewhere(rows[i], j);
    lemma_rows_error_somewhere(rows, i);
}

/// Law: the error the decode reports is exactly that of the first failing
/// field, in row order and then column order.
pub proof fn lemma_first_field_error_reported(
    rows: Seq<Seq<(String, TypedField)>>,
    clean: bool,
    r: Result<DynamicValue, ConversionError>,
    i: int,
    j: int,
)
    requires
        decode_rel(rows, clean, r),
        0 <= i < rows.len(),
        0 <= j < rows[i].len(),
        translate_err(rows[i][j].1) is Some,
        forall|j2: int| 0 <= j2 < j ==> translate_err(#[trigger] rows[i][j2].1) is None,
        forall|i2: int| 0 <= i2 < i ==> row_first_error(#[trigger] rows[i2]) is None,
    ensures
        r == Result::<DynamicValue, ConversionError>::Err(translate_err(rows[i][j].1)->0),
{
    lemma_row_first_error_at(rows[i], j);
    lemma_rows_first_error_at(rows, i);
}

} // verus!
