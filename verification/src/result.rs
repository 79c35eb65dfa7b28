//! The single result shape returned from every operation: an error code
//! with optional message, a rows-affected count for mutations, an
//! optionally re-issued transaction handle, a column-schema descriptor
//! derived from the first row of a fetch, and the translated rows.

use crate::errors::ErrorCode;
use crate::registry::Handle;
use vstd::prelude::*;

verus! {

/// One entry of the column-schema descriptor: position, column name and
/// the driver-reported type name.
pub struct SchemaColumn {
    pub ordinal: usize,
    pub name: String,
    pub kind: String,
}

/// One column of one translated row: position and nullable text value.
/// `None` is a NULL slot, distinguishable from the empty string.
pub struct ResultColumn {
    pub ordinal: usize,
    pub value: Option<String>,
}

/// One translated row.
pub struct ResultRow {
    pub columns: Vec<ResultColumn>,
}

/// The one record every operation completes with.
pub struct QueryResult {
    /// `None` is the no-error sentinel; `Some` carries the category.
    pub error: Option<ErrorCode>,
    /// Fully materialised message of a surfaced error.
    pub error_message: Option<String>,
    /// Rows affected by a mutation; zero for fetch-style calls.
    pub rows_affected: u64,
    /// The transaction handle handed back out for the next call, when the
    /// operation round-trips one.
    pub tx: Option<Handle>,
    /// Schema descriptor derived from the first row; empty when no row
    /// was fetched.
    pub schema: Vec<SchemaColumn>,
    /// The translated rows.
    pub rows: Vec<ResultRow>,
}

impl QueryResult {
    /// Whether the record reports success.
    pub open spec fn is_ok(self) -> bool {
        self.error is None
    }

    /// An empty success record.
    pub fn ok() -> (r: QueryResult)
        ensures
            r.error is None,
            r.error_message is None,
            r.rows_affected == 0,
            r.tx is None,
            r.schema@ == Seq::<SchemaColumn>::empty(),
            r.rows@ == Seq::<ResultRow>::empty(),
    {
        QueryResult {
            error: Option::None,
            error_message: Option::None,
            rows_affected: 0,
            tx: Option::None,
            schema: Vec::new(),
            rows: Vec::new(),
        }
    }

    /// The same record with a re-issued transaction handle attached.
    pub fn with_tx(self, h: Handle) -> (r: QueryResult)
        ensures
            r.tx == Option::Some(h),
            r.error == self.error,
            r.error_message == self.error_message,
            r.rows_affected == self.rows_affected,
            r.schema == self.schema,
            r.rows == self.rows,
    {
        QueryResult { tx: Option::Some(h), ..self }
    }
}

} // verus!
