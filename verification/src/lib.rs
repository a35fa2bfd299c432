//! Test harness for detecting mishandled partial I/O operations.
//!
//! Code that consumes a byte-stream reader or writer must tolerate short
//! reads and short writes: calls that transfer fewer bytes than requested.
//! This library exercises a caller-supplied probe against deliberately
//! misbehaving streams and, when the probe fails, narrows the failure down
//! to the exact split boundary responsible.

use vstd::prelude::*;

pub mod backtrace_impl;
pub mod fault;
pub mod read;
pub mod text;
pub mod write;

verus! {

} // verus!
