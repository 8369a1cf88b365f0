//! Orchestration logic of a documentation builder: toolchain reconciliation,
//! the per-package build pipeline, command construction, coverage aggregation
//! and the essential-asset bootstrap. Everything that talks to a sandbox, a
//! database or an artifact store lives outside this crate and drives these
//! verified decisions.
use vstd::prelude::*;

pub mod batch;
pub mod command;
pub mod config;
pub mod coverage;
pub mod essential;
pub mod pipeline;
pub mod reconcile;
pub mod targets;
pub mod toolchain;

verus! {

} // verus!
