//! Result translator and value marshaler: turns a driver query outcome —
//! an ordered list of rows of typed columns, or a typed error — into
//! exactly one result record.
//!
//! The schema descriptor is derived from the first row only; later rows
//! are assumed homogeneous and are not re-validated (a heterogeneous
//! result set would yield a schema that disagrees with later rows — a
//! known limitation of the boundary contract, kept as is).

use crate::codec::hex_encode;
use crate::codec::hex_of;
use crate::errors::error_code;
use crate::errors::error_message;
use crate::errors::spec_error_code;
use crate::errors::spec_error_message;
use crate::errors::spec_recoverable;
use crate::errors::DriverError;
use crate::result::QueryResult;
use crate::result::ResultColumn;
use crate::result::ResultRow;
use crate::result::SchemaColumn;
use vstd::prelude::*;

verus! {

/// What the driver hands back for one column of one row: NULL, a
/// text-format value, or a raw byte array.
pub enum DriverField {
    Null,
    Text(String),
    Blob(Vec<u8>),
}

/// One column of one driver row.
pub struct DriverColumn {
    pub name: String,
    pub kind: String,
    pub value: DriverField,
}

/// One driver row.
pub struct DriverRow {
    pub columns: Vec<DriverColumn>,
}

/// View of an optional owned string.
pub open spec fn opt_str_view(v: Option<String>) -> Option<Seq<char>> {
    match v {
        Option::None => Option::None,
        Option::Some(s) => Option::Some(s@),
    }
}

/// The boundary text of one driver field: text passes through, byte
/// arrays render as lowercase hex, NULL stays NULL.
pub open spec fn spec_field_text(f: DriverField) -> Option<Seq<char>> {
    match f {
        DriverField::Null => Option::None,
        DriverField::Text(s) => Option::Some(s@),
        DriverField::Blob(b) => Option::Some(hex_of(b@)),
    }
}

/// A schema descriptor that describes a driver row: one entry per
/// column, at its position, carrying name and driver-reported type name.
pub open spec fn spec_schema_matches(s: Seq<SchemaColumn>, row: DriverRow) -> bool {
    &&& s.len() == row.columns@.len()
    &&& forall|i: int|
        0 <= i < s.len() ==> (#[trigger] s[i]).ordinal == i && s[i].name@ == row.columns@[i].name@
            && s[i].kind@ == row.columns@[i].kind@
}

/// A translated row that matches a driver row: one column per driver
/// column, at its position, carrying the field's boundary text.
pub open spec fn spec_row_matches(r: ResultRow, row: DriverRow) -> bool {
    &&& r.columns@.len() == row.columns@.len()
    &&& forall|i: int|
        0 <= i < r.columns@.len() ==> (#[trigger] r.columns@[i]).ordinal == i && opt_str_view(
            r.columns@[i].value,
        ) == spec_field_text(row.columns@[i].value)
}

/// Derives the schema descriptor from one row (the first row of a
/// result set).
pub fn schema_of(row: &DriverRow) -> (r: Vec<SchemaColumn>)
    ensures
        spec_schema_matches(r@, *row),
{
    let mut schema: Vec<SchemaColumn> = Vec::new();
    let n = row.columns.len();
    let mut i: usize = 0;
    while i < n
        invariant
            i <= n,
            n == row.columns@.len(),
            schema@.len() == i,
            forall|j: int|
                0 <= j < i ==> (#[trigger] schema@[j]).ordinal == j && schema@[j].name@
                    == row.columns@[j].name@ && schema@[j].kind@
                    == row.columns@[j].kind@,
        decreases n - i,
    {
        let c = &row.columns[i];
        schema.push(SchemaColumn { ordinal: i, name: c.name.clone(), kind: c.kind.clone() });
        i = i + 1;
    }
    schema
}

/// Translates one driver row: every column keeps its position as its
/// ordinal; byte arrays render as lowercase hex; NULL stays a NULL slot.
pub fn row_of(row: &DriverRow) -> (r: ResultRow)
    ensures
        spec_row_matches(r, *row),
{
    let mut columns: Vec<ResultColumn> = Vec::new();
    let n = row.columns.len();
    let mut i: usize = 0;
    while i < n
        invariant
            i <= n,
            n == row.columns@.len(),
            columns@.len() == i,
            forall|j: int|
                0 <= j < i ==> (#[trigger] columns@[j]).ordinal == j && opt_str_view(
                    columns@[j].value,
                ) == spec_field_text(row.columns@[j].value),
        decreases n - i,
    {
        let value: Option<String> = match &row.columns[i].value {
            DriverField::Null => Option::None,
            DriverField::Text(s) => Option::Some(s.clone()),
            DriverField::Blob(b) => Option::Some(hex_encode(b)),
        };
        columns.push(ResultColumn { ordinal: i, value });
        i = i + 1;
    }
    ResultRow { columns }
}

/// Builds the error record of a recoverable driver failure: the mapped
/// category, the materialised message, and nothing else.
pub fn error_result_of(e: &DriverError) -> (r: QueryResult)
    requires
        spec_recoverable(*e),
    ensures
        r.error == Option::Some(spec_error_code(*e)),
        r.error_message is Some && r.error_message->Some_0@ == spec_error_message(*e),
        r.rows_affected == 0,
        r.tx is None,
        r.schema@.len() == 0,
        r.rows@.len() == 0,
{
    let code = error_code(e);
    let message = error_message(e);
    let mut r = QueryResult::ok();
    r.error = code;
    r.error_message = Option::Some(message);
    r
}

/// Translates a fetch outcome. On success the schema comes from the
/// first row only (empty when no row was returned), every row is
/// translated independently, and rows-affected stays zero; a recoverable
/// failure becomes an error record. A non-recoverable failure must abort
/// the process before this point.
pub fn fetch_result_of(out: Result<Vec<DriverRow>, DriverError>) -> (r: QueryResult)
    requires
        out is Err ==> spec_recoverable(out->Err_0),
    ensures
        out is Ok ==> {
            &&& r.error is None
            &&& r.error_message is None
            &&& r.rows_affected == 0
            &&& r.tx is None
            &&& r.rows@.len() == out->Ok_0@.len()
            &&& (out->Ok_0@.len() > 0 ==> spec_schema_matches(r.schema@, out->Ok_0@[0]))
            &&& (out->Ok_0@.len() == 0 ==> r.schema@.len() == 0)
            &&& forall|i: int|
                0 <= i < r.rows@.len() ==> spec_row_matches(#[trigger] r.rows@[i], out->Ok_0@[i])
        },
        out is Err ==> {
            &&& r.error == Option::Some(spec_error_code(out->Err_0))
            &&& r.error_message is Some && r.error_message->Some_0@ == spec_error_message(
                out->Err_0,
            )
            &&& r.rows_affected == 0
            &&& r.tx is None
            &&& r.schema@.len() == 0
            &&& r.rows@.len() == 0
        },
{
    match out {
        Result::Ok(driver_rows) => {
            let mut rows: Vec<ResultRow> = Vec::new();
            let n = driver_rows.len();
            let schema: Vec<SchemaColumn> = if n > 0 {
                schema_of(&driver_rows[0])
            } else {
                Vec::new()
            };
            let mut i: usize = 0;
            while i < n
                invariant
                    i <= n,
                    n == driver_rows@.len(),
                    rows@.len() == i,
                    forall|j: int|
                        0 <= j < i ==> spec_row_matches(#[trigger] rows@[j], driver_rows@[j]),
                decreases n - i,
            {
                rows.push(row_of(&driver_rows[i]));
                i = i + 1;
            }
            let mut r = QueryResult::ok();
            r.schema = schema;
            r.rows = rows;
            r
        },
        Result::Err(e) => error_result_of(&e),
    }
}

/// Translates a mutation outcome: on success only the rows-affected
/// count is populated; a recoverable failure becomes an error record.
pub fn exec_result_of(out: Result<u64, DriverError>) -> (r: QueryResult)
    requires
        out is Err ==> spec_recoverable(out->Err_0),
    ensures
        out is Ok ==> {
            &&& r.error is None
            &&& r.error_message is None
            &&& r.rows_affected == out->Ok_0
            &&& r.tx is None
            &&& r.schema@.len() == 0
            &&& r.rows@.len() == 0
        },
        out is Err ==> {
            &&& r.error == Option::Some(spec_error_code(out->Err_0))
            &&& r.error_message is Some && r.error_message->Some_0@ == spec_error_message(
                out->Err_0,
            )
            &&& r.rows_affected == 0
            &&& r.tx is None
            &&& r.schema@.len() == 0
            &&& r.rows@.len() == 0
        },
{
    match out {
        Result::Ok(n) => {
            let mut r = QueryResult::ok();
            r.rows_affected = n;
            r
        },
        Result::Err(e) => error_result_of(&e),
    }
}

/// A one-row event record: no error, the schema names the channel with
/// type name TEXT, and the single column carries the payload at ordinal
/// zero.
pub open spec fn spec_notification_shape(r: QueryResult, channel: Seq<char>, payload: Seq<char>) -> bool {
    &&& r.error is None
    &&& r.error_message is None
    &&& r.rows_affected == 0
    &&& r.tx is None
    &&& r.schema@.len() == 1
    &&& r.schema@[0].ordinal == 0
    &&& r.schema@[0].name@ == channel
    &&& r.schema@[0].kind@ == "TEXT"@
    &&& r.rows@.len() == 1
    &&& r.rows@[0].columns@.len() == 1
    &&& r.rows@[0].columns@[0].ordinal == 0
    &&& opt_str_view(r.rows@[0].columns@[0].value) == Option::Some(payload)
}

/// Shapes one pub/sub event as a one-row result: the schema names the
/// channel with type name TEXT, and the single column carries the
/// payload at ordinal zero.
pub fn notification_result_of(channel: &str, payload: &str) -> (r: QueryResult)
    ensures
        spec_notification_shape(r, channel@, payload@),
{
    let mut schema: Vec<SchemaColumn> = Vec::new();
    schema.push(
        SchemaColumn {
            ordinal: 0,
            name: channel.to_owned(),
            kind: String::from_str("TEXT"),
        },
    );
    let mut columns: Vec<ResultColumn> = Vec::new();
    columns.push(ResultColumn { ordinal: 0, value: Option::Some(payload.to_owned()) });
    let mut rows: Vec<ResultRow> = Vec::new();
    rows.push(ResultRow { columns });
    let mut r = QueryResult::ok();
    r.schema = schema;
    r.rows = rows;
    r
}

/// Shape of a successful fetch: when every driver row is M columns wide,
/// the schema descriptor (derived from the first row, when one exists)
/// has exactly M entries and every translated row has exactly M column
/// entries, each at its ordinal position — so every ordinal lies in
/// [0, M).
pub proof fn lemma_fetch_shape(
    driver_rows: Seq<DriverRow>,
    schema: Seq<SchemaColumn>,
    rows: Seq<ResultRow>,
    m: nat,
)
    requires
        forall|i: int| 0 <= i < driver_rows.len() ==> (#[trigger] driver_rows[i]).columns@.len() == m,
        driver_rows.len() > 0 ==> spec_schema_matches(schema, driver_rows[0]),
        driver_rows.len() == 0 ==> schema.len() == 0,
        rows.len() == driver_rows.len(),
        forall|i: int| 0 <= i < rows.len() ==> spec_row_matches(#[trigger] rows[i], driver_rows[i]),
    ensures
        driver_rows.len() > 0 ==> schema.len() == m,
        forall|i: int| 0 <= i < rows.len() ==> (#[trigger] rows[i]).columns@.len() == m,
        forall|i: int, j: int|
            0 <= i < rows.len() && 0 <= j < rows[i].columns@.len() ==> (#[trigger] rows[i].columns@[j]).ordinal
                == j && 0 <= rows[i].columns@[j].ordinal < m,
{
}

} // verus!
