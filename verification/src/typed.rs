//! Typed result variant: every column carries an enumerated type tag
//! beside its text-format value, instead of the free-form type name.
//!
//! The tag set is fixed; a driver-reported type name outside it is a
//! fatal condition, so marshaling yields nothing and the boundary
//! adapter aborts rather than inventing a recoverable error.

use crate::kind::TypeTag;
use crate::translate::opt_str_view;
use crate::translate::spec_field_text;
use crate::translate::DriverRow;
use crate::translate::DriverField;
use crate::codec::hex_encode;
use vstd::prelude::*;

verus! {

/// One column of one typed row: position, name, enumerated tag and
/// nullable text-format value.
pub struct TypedColumn {
    pub ordinal: usize,
    pub name: String,
    pub tag: TypeTag,
    pub value: Option<String>,
}

/// One typed row.
pub struct TypedRow {
    pub columns: Vec<TypedColumn>,
}

/// Whether every column's driver-reported type name maps onto a tag.
pub open spec fn spec_row_tags_known(row: DriverRow) -> bool {
    forall|i: int|
        0 <= i < row.columns@.len() ==> TypeTag::spec_of_name(
            (#[trigger] row.columns@[i]).kind@,
        ) is Some
}

/// A typed row that matches a driver row: one column per driver column,
/// at its position, with the name, the tag its type name maps onto, and
/// the field's boundary text.
pub open spec fn spec_typed_row_matches(r: TypedRow, row: DriverRow) -> bool {
    &&& r.columns@.len() == row.columns@.len()
    &&& forall|i: int|
        0 <= i < r.columns@.len() ==> {
            &&& (#[trigger] r.columns@[i]).ordinal == i
            &&& r.columns@[i].name@ == row.columns@[i].name@
            &&& Option::Some(r.columns@[i].tag) == TypeTag::spec_of_name(row.columns@[i].kind@)
            &&& opt_str_view(r.columns@[i].value) == spec_field_text(row.columns@[i].value)
        }
}

/// Marshals one driver row into the typed representation. Succeeds
/// exactly when every column's type name is one of the enumerated tags;
/// an unsupported type is fatal, not a recoverable error.
pub fn typed_row_of(row: &DriverRow) -> (r: Option<TypedRow>)
    ensures
        r is Some <==> spec_row_tags_known(*row),
        r is Some ==> spec_typed_row_matches(r->Some_0, *row),
{
    let mut columns: Vec<TypedColumn> = Vec::new();
    let n = row.columns.len();
    let mut i: usize = 0;
    while i < n
        invariant
            i <= n,
            n == row.columns@.len(),
            columns@.len() == i,
            forall|j: int|
                0 <= j < i ==> TypeTag::spec_of_name(
                    (#[trigger] row.columns@[j]).kind@,
                ) is Some,
            forall|j: int|
                0 <= j < i ==> {
                    &&& (#[trigger] columns@[j]).ordinal == j
                    &&& columns@[j].name@ == row.columns@[j].name@
                    &&& Option::Some(columns@[j].tag) == TypeTag::spec_of_name(
                        row.columns@[j].kind@,
                    )
                    &&& opt_str_view(columns@[j].value) == spec_field_text(
                        row.columns@[j].value,
                    )
                },
        decreases n - i,
    {
        let c = &row.columns[i];
        let tag = match TypeTag::of_type_name(c.kind.as_str()) {
            Option::Some(tag) => tag,
            Option::None => {
                assert(!spec_row_tags_known(*row));
                return Option::None;
            },
        };
        let value: Option<String> = match &c.value {
            DriverField::Null => Option::None,
            DriverField::Text(s) => Option::Some(s.clone()),
            DriverField::Blob(b) => Option::Some(hex_encode(b)),
        };
        columns.push(TypedColumn { ordinal: i, name: c.name.clone(), tag, value });
        i = i + 1;
    }
    Option::Some(TypedRow { columns })
}

} // verus!
