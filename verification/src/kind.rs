//! The fixed, enumerated set of column types the typed result variant can
//! carry, and the mapping from the driver's reported type names onto it.
//! A type name outside this set is a fatal condition, not a recoverable
//! error; the mapping therefore returns `None` and the boundary adapter
//! aborts.

use crate::text::str_eq;
use vstd::prelude::*;

verus! {

/// Enumerated kind of a typed column value.
#[derive(Clone, Copy, PartialEq, Eq, Structural, Debug)]
pub enum TypeTag {
    Bool,
    Int2,
    Int4,
    Int8,
    Float4,
    Float8,
    Numeric,
    Char,
    Varchar,
    Text,
    Timestamp,
    Timestamptz,
    Date,
    Time,
    Bytea,
    Uuid,
    Json,
    Jsonb,
}

impl TypeTag {
    /// Stable integer value of each tag at the flat boundary.
    pub open spec fn spec_code(self) -> int {
        match self {
            TypeTag::Bool => 0,
            TypeTag::Int2 => 1,
            TypeTag::Int4 => 2,
            TypeTag::Int8 => 3,
            TypeTag::Float4 => 4,
            TypeTag::Float8 => 5,
            TypeTag::Numeric => 6,
            TypeTag::Char => 7,
            TypeTag::Varchar => 8,
            TypeTag::Text => 9,
            TypeTag::Timestamp => 10,
            TypeTag::Timestamptz => 11,
            TypeTag::Date => 12,
            TypeTag::Time => 13,
            TypeTag::Bytea => 14,
            TypeTag::Uuid => 15,
            TypeTag::Json => 16,
            TypeTag::Jsonb => 17,
        }
    }

    /// Integer value of this tag.
    pub fn code(&self) -> (c: i32)
        ensures
            c == self.spec_code(),
    {
        match self {
            TypeTag::Bool => 0,
            TypeTag::Int2 => 1,
            TypeTag::Int4 => 2,
            TypeTag::Int8 => 3,
            TypeTag::Float4 => 4,
            TypeTag::Float8 => 5,
            TypeTag::Numeric => 6,
            TypeTag::Char => 7,
            TypeTag::Varchar => 8,
            TypeTag::Text => 9,
            TypeTag::Timestamp => 10,
            TypeTag::Timestamptz => 11,
            TypeTag::Date => 12,
            TypeTag::Time => 13,
            TypeTag::Bytea => 14,
            TypeTag::Uuid => 15,
            TypeTag::Json => 16,
            TypeTag::Jsonb => 17,
        }
    }

    /// The tag a driver-reported type name maps onto, if any.
    pub open spec fn spec_of_name(s: Seq<char>) -> Option<TypeTag> {
        if s == "BOOL"@ {
            Option::Some(TypeTag::Bool)
        } else if s == "INT2"@ {
            Option::Some(TypeTag::Int2)
        } else if s == "INT4"@ {
            Option::Some(TypeTag::Int4)
        } else if s == "INT8"@ {
            Option::Some(TypeTag::Int8)
        } else if s == "FLOAT4"@ {
            Option::Some(TypeTag::Float4)
        } else if s == "FLOAT8"@ {
            Option::Some(TypeTag::Float8)
        } else if s == "NUMERIC"@ {
            Option::Some(TypeTag::Numeric)
        } else if s == "CHAR"@ {
            Option::Some(TypeTag::Char)
        } else if s == "VARCHAR"@ {
            Option::Some(TypeTag::Varchar)
        } else if s == "TEXT"@ {
            Option::Some(TypeTag::Text)
        } else if s == "TIMESTAMP"@ {
            Option::Some(TypeTag::Timestamp)
        } else if s == "TIMESTAMPTZ"@ {
            Option::Some(TypeTag::Timestamptz)
        } else if s == "DATE"@ {
            Option::Some(TypeTag::Date)
        } else if s == "TIME"@ {
            Option::Some(TypeTag::Time)
        } else if s == "BYTEA"@ {
            Option::Some(TypeTag::Bytea)
        } else if s == "UUID"@ {
            Option::Some(TypeTag::Uuid)
        } else if s == "JSON"@ {
            Option::Some(TypeTag::Json)
        } else if s == "JSONB"@ {
            Option::Some(TypeTag::Jsonb)
        } else {
            Option::None
        }
    }

    /// Maps a driver-reported type name onto its tag; `None` marks an
    /// unsupported type, which the boundary treats as fatal.
    pub fn of_type_name(s: &str) -> (r: Option<TypeTag>)
        ensures
            r == TypeTag::spec_of_name(s@),
    {
        if str_eq(s, "BOOL") {
            Option::Some(TypeTag::Bool)
        } else if str_eq(s, "INT2") {
            Option::Some(TypeTag::Int2)
        } else if str_eq(s, "INT4") {
            Option::Some(TypeTag::Int4)
        } else if str_eq(s, "INT8") {
            Option::Some(TypeTag::Int8)
        } else if str_eq(s, "FLOAT4") {
            Option::Some(TypeTag::Float4)
        } else if str_eq(s, "FLOAT8") {
            Option::Some(TypeTag::Float8)
        } else if str_eq(s, "NUMERIC") {
            Option::Some(TypeTag::Numeric)
        } else if str_eq(s, "CHAR") {
            Option::Some(TypeTag::Char)
        } else if str_eq(s, "VARCHAR") {
            Option::Some(TypeTag::Varchar)
        } else if str_eq(s, "TEXT") {
            Option::Some(TypeTag::Text)
        } else if str_eq(s, "TIMESTAMP") {
            Option::Some(TypeTag::Timestamp)
        } else if str_eq(s, "TIMESTAMPTZ") {
            Option::Some(TypeTag::Timestamptz)
        } else if str_eq(s, "DATE") {
            Option::Some(TypeTag::Date)
        } else if str_eq(s, "TIME") {
            Option::Some(TypeTag::Time)
        } else if str_eq(s, "BYTEA") {
            Option::Some(TypeTag::Bytea)
        } else if str_eq(s, "UUID") {
            Option::Some(TypeTag::Uuid)
        } else if str_eq(s, "JSON") {
            Option::Some(TypeTag::Json)
        } else if str_eq(s, "JSONB") {
            Option::Some(TypeTag::Jsonb)
        } else {
            Option::None
        }
    }
}

} // verus!
