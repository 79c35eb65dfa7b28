//! Error taxonomy: the driver's failure categories and their deterministic
//! mapping onto the small outward-visible error-code space.
//!
//! Only four driver categories are recoverable and surface to the caller as
//! an error record; every other category signals a programming or
//! environment defect and must abort the process instead of producing a
//! result (the caller of [`error_code`] aborts on `None`).

use vstd::prelude::*;

verus! {

/// Outward-visible error categories. The absence of an error is represented
/// by `Option::<ErrorCode>::None` wherever a result record carries a code.
#[derive(Clone, Copy, PartialEq, Eq, Structural, Debug)]
pub enum ErrorCode {
    /// The database engine itself rejected the statement.
    Database,
    /// Waiting for a pooled connection exceeded the acquire timeout.
    PoolTimedOut,
    /// The connection pool has already been closed.
    PoolClosed,
    /// A background pool worker crashed.
    WorkerCrashed,
}

/// Integer value of the no-error sentinel at the flat boundary.
pub const NO_ERROR: i32 = -1;

impl ErrorCode {
    /// Stable integer code of each category at the flat boundary.
    pub open spec fn spec_code(self) -> int {
        match self {
            ErrorCode::Database => 0,
            ErrorCode::PoolTimedOut => 1,
            ErrorCode::PoolClosed => 2,
            ErrorCode::WorkerCrashed => 3,
        }
    }

    /// Integer code of this category.
    pub fn code(&self) -> (c: i32)
        ensures
            c == self.spec_code(),
    {
        match self {
            ErrorCode::Database => 0,
            ErrorCode::PoolTimedOut => 1,
            ErrorCode::PoolClosed => 2,
            ErrorCode::WorkerCrashed => 3,
        }
    }
}

/// Integer code of an optional error, with `None` as the no-error sentinel.
pub open spec fn spec_code_or_sentinel(e: Option<ErrorCode>) -> int {
    match e {
        Option::None => NO_ERROR as int,
        Option::Some(c) => c.spec_code(),
    }
}

/// Integer code of an optional error, with `None` as the no-error sentinel.
pub fn code_or_sentinel(e: &Option<ErrorCode>) -> (c: i32)
    ensures
        c == spec_code_or_sentinel(*e),
{
    match e {
        Option::None => NO_ERROR,
        Option::Some(code) => code.code(),
    }
}

/// A driver failure, reduced to the categories the driver distinguishes.
/// Only `Database` carries data: the engine's own error code (when it
/// reports one) and its message.
pub enum DriverError {
    /// The database engine rejected the statement.
    Database { code: Option<String>, message: String },
    /// Waiting for a pooled connection exceeded the acquire timeout.
    PoolTimedOut,
    /// The connection pool has already been closed.
    PoolClosed,
    /// A background pool worker crashed.
    WorkerCrashed,
    /// Bad connection configuration.
    Configuration,
    /// Transport failure.
    Io,
    /// TLS failure.
    Tls,
    /// Wire-protocol desynchronisation.
    Protocol,
    /// A row was expected and none was returned.
    RowNotFound,
    /// A named type is unknown to the driver.
    TypeNotFound,
    /// A column index was out of bounds.
    ColumnIndexOutOfBounds,
    /// A named column does not exist.
    ColumnNotFound,
    /// Decoding one column failed.
    ColumnDecode,
    /// Decoding a value failed.
    Decode,
    /// A driver-specific failure behind the type-erased driver interface.
    AnyDriver,
    /// Running migrations failed.
    Migrate,
    /// Any category the driver may add later.
    Other,
}

/// The four categories that surface to the caller; everything else is
/// treated as a process-fatal defect.
pub open spec fn spec_recoverable(e: DriverError) -> bool {
    match e {
        DriverError::Database { .. } => true,
        DriverError::PoolTimedOut => true,
        DriverError::PoolClosed => true,
        DriverError::WorkerCrashed => true,
        _ => false,
    }
}

/// Outward category of a recoverable driver failure.
pub open spec fn spec_error_code(e: DriverError) -> ErrorCode
    recommends
        spec_recoverable(e),
{
    match e {
        DriverError::Database { .. } => ErrorCode::Database,
        DriverError::PoolTimedOut => ErrorCode::PoolTimedOut,
        DriverError::PoolClosed => ErrorCode::PoolClosed,
        _ => ErrorCode::WorkerCrashed,
    }
}

/// Message text of a recoverable driver failure. An engine error that
/// carries a code renders as `[code] message`.
pub open spec fn spec_error_message(e: DriverError) -> Seq<char>
    recommends
        spec_recoverable(e),
{
    match e {
        DriverError::Database { code: Option::Some(c), message } => "["@ + c@ + "] "@ + message@,
        DriverError::Database { code: Option::None, message } => message@,
        DriverError::PoolTimedOut => "PoolTimedOut"@,
        DriverError::PoolClosed => "The connection pool is already closed"@,
        _ => "WorkerCrashed"@,
    }
}

/// Classifies a driver failure: the outward category for the four
/// recoverable ones, `None` for every category that must abort the process.
pub fn error_code(e: &DriverError) -> (r: Option<ErrorCode>)
    ensures
        r is Some <==> spec_recoverable(*e),
        spec_recoverable(*e) ==> r == Option::Some(spec_error_code(*e)),
{
    match e {
        DriverError::Database { .. } => Option::Some(ErrorCode::Database),
        DriverError::PoolTimedOut => Option::Some(ErrorCode::PoolTimedOut),
        DriverError::PoolClosed => Option::Some(ErrorCode::PoolClosed),
        DriverError::WorkerCrashed => Option::Some(ErrorCode::WorkerCrashed),
        _ => Option::None,
    }
}

/// Renders the message of a recoverable driver failure.
pub fn error_message(e: &DriverError) -> (m: String)
    requires
        spec_recoverable(*e),
    ensures
        m@ == spec_error_message(*e),
{
    match e {
        DriverError::Database { code: Option::Some(c), message } => {
            let mut m = String::from_str("[");
            m.append(c.as_str());
            m.append("] ");
            m.append(message.as_str());
            m
        },
        DriverError::Database { code: Option::None, message } => message.clone(),
        DriverError::PoolTimedOut => String::from_str("PoolTimedOut"),
        DriverError::PoolClosed => String::from_str("The connection pool is already closed"),
        _ => String::from_str("WorkerCrashed"),
    }
}

} // verus!
