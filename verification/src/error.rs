//! Compilation failures. Every failure aborts the current field's
//! compilation; none is transient, so nothing here is retried or recovered.

use vstd::prelude::*;
use crate::annotation::Annotation;

verus! {

/// The closed set of failures this compiler can raise or propagate.
#[derive(Debug, PartialEq, Eq)]
pub enum Error {
    /// An argument carries schema metadata this compiler does not recognize:
    /// a defensive guard against schema/compiler version mismatch.
    UnexpectedAnnotation { annotation: Annotation },
    /// A unique-identifier annotation lacks its required connector column
    /// mapping: an internal-consistency defect in the built schema.
    MissingNdcColumnMapping { argument_name: String, field_name: String },
    /// A field call's permission annotation has a shape that cannot belong
    /// to a model-backed field.
    UnexpectedNamespaceAnnotation,
    /// A model-backed field call carries no permission annotation at all, so
    /// no row filter can be derived for the caller's role.
    FilterPermissionNotFound,
    /// A preset refers to a session variable the caller's session does not
    /// define.
    SessionVariableNotFound { variable_name: String },
    /// A model argument has no connector-level argument mapping in the
    /// model's source.
    ArgumentMappingNotFound { argument_name: String },
    /// Two independently declared arguments resolve to the same name.
    GraphQlArgumentConflict { argument_name: String, field_name: String, parent_type: String },
}

} // verus!
