//! The decode entry point: pulls rows one at a time from the row source,
//! materializes each into a record, and accumulates the aggregate value —
//! aborting the whole decode on the first error.

use vstd::prelude::*;
use crate::materialize::{
    decode_rel, lemma_rows_all_ok, lemma_rows_first_error_at, materialize_row, record_matches,
    row_first_error,
};
use crate::source::{
    next_row, open_row_source, parse_clean, parsed_rows, row_columns, row_view, source_clean,
    source_items, typed_of,
};
use crate::values::{ConversionError, DynamicValue, TypedField};

verus! {

/// Moves one reader row into owned (column name, typed field) pairs,
/// preserving column order.
#[verifier::loop_isolation(false)]
fn read_row(r: parquet::record::Row) -> (out: Vec<(String, TypedField)>)
    ensures
        out@ == row_view(r),
{
    let ghost rv = row_view(r);
    let mut cols = row_columns(r);
    let ghost all = cols@;
    let mut out: Vec<(String, TypedField)> = Vec::new();
    while cols.len() > 0
        invariant
            out@.len() + cols@.len() == all.len(),
            cols@ =~= all.subrange(out@.len() as int, all.len() as int),
            forall|j: int|
                0 <= j < out@.len() ==> (#[trigger] out@[j]).0 == rv[j].0 && out@[j].1 == rv[j].1,
        decreases cols@.len(),
    {
        let ghost cols_before = cols@;
        let (name, field) = cols.remove(0);
        proof {
            assert(cols@ =~= cols_before.drop_first());
        }
        let t = typed_of(&field);
        out.push((name, t));
    }
    proof {
        assert forall|j: int| 0 <= j < out@.len() implies #[trigger] out@[j] == rv[j] by {
            assert(out@[j] == (out@[j].0, out@[j].1));
            assert(rv[j] == (rv[j].0, rv[j].1));
        }
        assert(out@ =~= rv);
    }
    out
}

/// Decodes one complete columnar file, held in `buf`, into the aggregate
/// sequence-of-records value: one ordered record per row, in file order,
/// every field translated per the field translator. The first conversion
/// error of any field aborts the whole decode and is returned; a buffer
/// the reader cannot parse yields the upstream fault. No partial result is
/// ever returned.
#[verifier::loop_isolation(false)]
pub fn from_parquet_bytes(buf: Vec<u8>) -> (r: Result<DynamicValue, ConversionError>)
    ensures
        decode_rel(parsed_rows(buf@), parse_clean(buf@), r),
{
    let ghost rows = parsed_rows(buf@);
    let ghost clean = parse_clean(buf@);
    let mut src = match open_row_source(buf) {
        Ok(s) => s,
        Err(e) => {
            return Err(e);
        },
    };
    let mut recs: Vec<DynamicValue> = Vec::new();
    loop
        invariant
            recs@.len() <= rows.len(),
            source_items(src) =~= rows.skip(recs@.len() as int),
            source_clean(src) == clean,
            forall|i: int| 0 <= i < recs@.len() ==> row_first_error(#[trigger] rows[i]) is None,
            forall|i: int|
                0 <= i < recs@.len() ==> record_matches(rows[i], #[trigger] recs@[i]),
        decreases rows.len() - recs@.len(),
    {
        let ghost k = recs@.len() as int;
        match next_row(&mut src) {
            Ok(Some(row)) => {
                proof {
                    assert(row_view(row) == rows.skip(k)[0]);
                    assert(rows.skip(k)[0] == rows[k]);
                }
                let fields = read_row(row);
                match materialize_row(fields) {
                    Ok(rec) => {
                        recs.push(rec);
                        proof {
                            assert(source_items(src) =~= rows.skip(k + 1));
                        }
                    },
                    Err(e) => {
                        proof {
                            lemma_rows_first_error_at(rows, k);
                        }
                        return Err(e);
                    },
                }
            },
            Ok(None) => {
                proof {
                    assert(rows.skip(k).len() == 0);
                    assert(recs@.len() == rows.len());
                    lemma_rows_all_ok(rows);
                }
                return Ok(DynamicValue::List(recs));
            },
            Err(e) => {
                proof {
                    assert(rows.skip(k).len() == 0);
                    lemma_rows_all_ok(rows);
                }
                return Err(e);
            },
        }
    }
}

} // verus!
