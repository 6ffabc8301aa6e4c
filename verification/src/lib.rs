//! Conversion of hierarchical CPU-profiling traces into annotated call-graph
//! renderings.
//!
//! A trace arrives as a loosely-typed structured document ([`doc::DocValue`]).
//! The model builder ([`models::Profile::parse`] / [`models::Profile::build`])
//! turns it into a typed [`models::Profile`] whose per-node cost metrics are
//! derived from the edge data. The renderer
//! ([`dot_generator::DotGenerator`]) serializes the annotated graph into a
//! textual graph-description format, and [`reflect`] serializes the profile
//! back into a structured document without loss.

pub mod doc;
pub mod dot_generator;
pub mod models;
pub mod reflect;
pub mod text;
