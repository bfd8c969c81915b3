//! A row read from a turso database, owning its values.

use std::sync::Arc;
use vstd::prelude::*;
use crate::decode::TryFromTursoValue;
use crate::error::{Error, ErrorView, result_deep_view};
use crate::text::{decimal, u64_to_decimal};
use crate::value::TursoValue;

verus! {

/// The values of one row, with the names of the columns of its result set
/// (shared by all rows of that result set).
pub struct TursoOwnedRow {
    pub data: Vec<TursoValue>,
    pub columns: Arc<Vec<String>>,
}

/// What reading column `idx` of a row holding `data` as a `T` gives.
pub open spec fn column_read<T: TryFromTursoValue>(data: Seq<TursoValue>, idx: int) -> Result<T::V, ErrorView> {
    if 0 <= idx < data.len() {
        T::from_turso_view(data[idx]@)
    } else {
        Err(ErrorView::ColumnNotFound(decimal(idx as nat)))
    }
}

impl TursoOwnedRow {
    /// Reads column `idx` as a `T`; a column past the end is `ColumnNotFound`
    /// with the index in decimal.
    pub fn try_get<T: TryFromTursoValue>(&self, idx: usize) -> (r: Result<T, Error>)
        ensures
            result_deep_view(r) == column_read::<T>(self.data@, idx as int),
    {
        if idx < self.data.len() {
            T::try_from_turso(&self.data[idx])
        } else {
            Err(Error::ColumnNotFound(u64_to_decimal(idx as u64)))
        }
    }
}

} // verus!
