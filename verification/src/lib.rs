//! A minimal pod-task runner core.
//!
//! The crate turns a declarative pod manifest into the three
//! Container-Runtime-Interface (CRI) request shapes needed to provision a
//! pod sandbox and its containers, and sequences those requests through a
//! small state machine.  The RPC transport and the manifest file I/O live
//! outside this library; everything here is pure computation over plain
//! values.

pub mod builder;
pub mod cri;
pub mod driver;
pub mod errors;
pub mod manifest;

use vstd::prelude::*;

verus! {

} // verus!
