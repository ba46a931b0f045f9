//! Errors of the table layer, and the identifier and size types.
use vstd::prelude::*;

verus! {

/// Code of the storage error: a table already holds as many rows as an
/// identifier can address.
pub const TABLE_OVERFLOW: i32 = -703;

/// A failure of the metadata codec.
#[derive(Debug)]
pub enum MetadataError {
    /// Encoding or decoding failed; `value` says why.
    RoundtripError { value: String },
}

/// An error of the table layer.
#[derive(Debug)]
pub enum TskitError {
    /// An index was out of range.
    IndexError,
    /// The storage returned the error `code`.
    ErrorCode { code: i32 },
    /// The metadata codec failed.
    MetadataError { value: MetadataError },
}

/// Identifier of a population: its row in the population table.
#[derive(Clone, Copy, Debug, PartialEq, Eq, Structural)]
pub struct PopulationId(pub i32);

impl From<i32> for PopulationId {
    fn from(value: i32) -> (r: Self) {
        PopulationId(value)
    }
}

impl vstd::std_specs::convert::FromSpecImpl<i32> for PopulationId {
    open spec fn obeys_from_spec() -> bool {
        true
    }

    open spec fn from_spec(value: i32) -> Self {
        PopulationId(value)
    }
}

/// A number of rows.
#[derive(Clone, Copy, Debug, PartialEq, Eq, Structural)]
pub struct SizeType(pub u64);

} // verus!
