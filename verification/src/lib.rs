//! Core logic of a database bridge: a connection/transaction/result lifecycle
//! manager that owns pooled-connection and transaction handles, translates
//! driver query outcomes into a single self-describing result record, and
//! classifies driver failures into a small stable error-code space.
//!
//! The asynchronous plumbing (the task scheduler, the SQL wire protocol and
//! the callbacks into the host) lives outside this crate; everything here
//! works on plain values and is verified.

pub mod codec;
pub mod errors;
pub mod kind;
pub mod listen;
pub mod pool;
pub mod registry;
pub mod result;
pub mod scalar;
pub mod store;
pub mod text;
pub mod translate;
pub mod tx;
pub mod typed;

use vstd::prelude::*;

verus! {

} // verus!
