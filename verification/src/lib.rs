//! Materializes rows of a columnar, strongly typed file format into a
//! dynamically typed, self-describing value tree.
//!
//! The core is a total mapping of a closed set of physical/logical column
//! types ([`values::TypedField`]) into a generic runtime value model
//! ([`values::DynamicValue`]), together with a row materializer that folds a
//! finite, forward-only row source into a single sequence-of-records value.

pub mod decode;
pub mod float_bits;
pub mod materialize;
pub mod source;
pub mod translate;
pub mod values;

pub use decode::from_parquet_bytes;
pub use values::ConversionError;
pub use values::DynamicValue;
pub use values::Timestamp;
pub use values::TypedField;
pub use values::UnsupportedKind;
