//! Field-level compiler for model selection operations.
//!
//! The crate turns one client-requested field (a select-one or select-many
//! operation against a named data model) into the intermediate representation
//! handed to a data-source connector, and builds the schema descriptor that
//! advertises such a field with its arguments. Compilation threads a shared
//! usage counter through every call, merges server-side preset arguments with
//! client input, and emits the row filter in one of two IR dialects.

use vstd::prelude::*;

pub mod annotation;
pub mod arguments;
pub mod error;
pub mod filter;
pub mod model;
pub mod model_selection;
pub mod permissions;
pub mod request;
pub mod select_many;
pub mod select_one;
pub mod types;
pub mod usage;

verus! {

/// The IR dialect selected for one request: the engine is mid-migration
/// between the column-oriented legacy representation and the structured,
/// connector-agnostic one. Every dialect-dependent decision matches
/// exhaustively on this tag.
#[derive(Clone, Copy, PartialEq, Eq, Structural, Debug)]
pub enum GraphqlRequestPipeline {
    Old,
    OpenDd,
}

} // verus!
