//! The typed failures surfaced by the catalog API. None is retried or
//! swallowed: an error aborts the in-progress operation entirely.

use vstd::prelude::*;

verus! {

/// A failure of a catalog operation.
#[derive(Debug)]
pub enum ApiError {
    /// The backing store could not be opened, verified or queried.
    Storage(rusqlite::Error),
    /// An enumerated query identifier had no registered text or an
    /// unexpected mapper kind; a programmer error that the catalog's
    /// totality rules out.
    CatalogLookup,
    /// A result row missed the named column or held an incompatible value;
    /// indicates schema drift.
    Decode(String),
    /// The next-char fetcher rejected the mask it was handed.
    Fetcher(String),
}

impl ApiError {
    /// True of the failures a well-formed catalog query may surface:
    /// a store failure or a row that does not decode.
    pub open spec fn is_runtime(&self) -> bool {
        self matches ApiError::Storage(_) || self matches ApiError::Decode(_)
    }
}

} // verus!
