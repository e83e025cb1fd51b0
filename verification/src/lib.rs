//! The maturity pipeline that carries raw intake material through
//! sensemaking, decisions, planning and actions to a plan for execution.
//!
//! Every produced object carries the id of its source, so the chain can be
//! walked backwards from the plan handed to execution to the raw item that
//! seeded it:
//!
//! - [`artifacts`]: each layer's artifacts as plain values, with their views;
//! - [`adapters`]: the hop from one layer's artifact to the next;
//! - [`pipeline`]: the content the pipeline fills in itself, and the steps
//!   of one run;
//! - [`laws`]: what each hop and each piece of filled-in content produces,
//!   field by field, and what trimming and clipping do;
//! - [`lineage`]: what the hops promise together;
//! - [`text`]: trimming, clipping and joining text for reports.
use vstd::prelude::*;

pub mod adapters;
pub mod artifacts;
pub mod laws;
pub mod lineage;
pub mod pipeline;
pub mod text;

pub use pipeline::{PipelineError, PipelineRun};
