//! Row construction from decoded columns.

use crate::types::NativeSqlType;
use vstd::prelude::*;

verus! {

/// Host values that can be built from a row of SQL type `ST`.
pub trait Queriable<ST: NativeSqlType>: Sized {
    /// The decoded form of the row this value is built from.
    type Row;

    /// The value that a decoded row gives.
    spec fn built(row: Self::Row) -> Self;

    /// Builds the value from a decoded row.
    fn build(row: Self::Row) -> (value: Self)
        ensures
            value == Self::built(row),
    ;
}

} // verus!
