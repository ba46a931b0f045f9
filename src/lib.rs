//! Typed tables of genealogical records and the option flags of the
//! operations on them.
//!
//! A table holds rows addressed by dense ids `0..num_rows`, each with optional
//! metadata bytes that a codec turns into a typed value. Tables are read
//! through a borrowed view or owned outright; both answer the same queries.
use vstd::prelude::*;

pub mod bits;
pub mod error;
pub mod flags;
pub mod metadata;
pub mod population_table;

verus! {

} // verus!
