//! Compile-time argument metadata: the annotations the schema builder attaches
//! to a field's formal arguments, and their classification at request time.

use vstd::prelude::*;
use crate::types::Value;

verus! {

/// The connector-level column a unique-identifier field maps to, together
/// with the connector's designated equality operator for that column.
#[derive(Debug, PartialEq, Eq)]
pub struct NdcColumn {
    pub column: String,
    pub equal_operator: String,
}

impl Clone for NdcColumn {
    fn clone(&self) -> (res: Self)
        ensures
            res == *self,
    {
        NdcColumn { column: self.column.clone(), equal_operator: self.equal_operator.clone() }
    }
}

/// Metadata attached to one formal argument of a model-backed field.
///
/// A select-one field carries a `ModelUniqueIdentifierArgument` per key
/// component; a select-many field carries pagination, ordering and filtering
/// arguments beside the bundled `ModelArgument`s. The connector column of a
/// unique-identifier annotation is optional only because the schema type
/// admits its absence; the builder must never emit `None` there, and the
/// classifier treats such an annotation as an internal-consistency failure.
#[derive(Debug, PartialEq, Eq)]
pub enum ModelInputAnnotation {
    ModelArgument,
    ModelUniqueIdentifierArgument { field_name: String, ndc_column: Option<NdcColumn> },
    ModelLimitArgument,
    ModelOffsetArgument,
    ModelOrderByExpression,
    ModelFilterExpression,
    ModelArgumentsExpression,
}

/// Input-side annotations; only model annotations are meaningful to this
/// compiler.
#[derive(Debug, PartialEq, Eq)]
pub enum InputAnnotation {
    Model(ModelInputAnnotation),
    BooleanExpression,
}

/// Which root operation a schema field stands for.
#[derive(Clone, Copy, PartialEq, Eq, Structural, Debug)]
pub enum RootFieldKind {
    SelectOne,
    SelectMany,
}

/// Output-side annotation of a root field: the model it selects from.
#[derive(Debug, PartialEq, Eq)]
pub enum OutputAnnotation {
    RootField { data_type: String, kind: RootFieldKind, name: String },
}

/// Schema metadata attached to a field or argument.
#[derive(Debug, PartialEq, Eq)]
pub enum Annotation {
    Input(InputAnnotation),
    Output(OutputAnnotation),
}

impl Clone for ModelInputAnnotation {
    fn clone(&self) -> (res: Self)
        ensures
            res == *self,
    {
        match self {
            ModelInputAnnotation::ModelArgument => ModelInputAnnotation::ModelArgument,
            ModelInputAnnotation::ModelUniqueIdentifierArgument { field_name, ndc_column } => {
                ModelInputAnnotation::ModelUniqueIdentifierArgument {
                    field_name: field_name.clone(),
                    ndc_column: match ndc_column {
                        Some(c) => Some(c.clone()),
                        None => None,
                    },
                }
            },
            ModelInputAnnotation::ModelLimitArgument => ModelInputAnnotation::ModelLimitArgument,
            ModelInputAnnotation::ModelOffsetArgument => ModelInputAnnotation::ModelOffsetArgument,
            ModelInputAnnotation::ModelOrderByExpression => ModelInputAnnotation::ModelOrderByExpression,
            ModelInputAnnotation::ModelFilterExpression => ModelInputAnnotation::ModelFilterExpression,
            ModelInputAnnotation::ModelArgumentsExpression => ModelInputAnnotation::ModelArgumentsExpression,
        }
    }
}

impl Clone for Annotation {
    fn clone(&self) -> (res: Self)
        ensures
            res == *self,
    {
        match self {
            Annotation::Input(InputAnnotation::Model(m)) => {
                Annotation::Input(InputAnnotation::Model(m.clone()))
            },
            Annotation::Input(InputAnnotation::BooleanExpression) => {
                Annotation::Input(InputAnnotation::BooleanExpression)
            },
            Annotation::Output(OutputAnnotation::RootField { data_type, kind, name }) => {
                Annotation::Output(OutputAnnotation::RootField {
                    data_type: data_type.clone(),
                    kind: *kind,
                    name: name.clone(),
                })
            },
        }
    }
}

/// One unique-identifier lookup collected from a field invocation: the
/// connector column mapping, the logical field name, and the literal value
/// the client supplied for it.
#[derive(Debug, PartialEq, Eq)]
pub struct UniqueIdentifierComponent {
    pub ndc_column: NdcColumn,
    pub field_name: String,
    pub value: Value,
}

/// The annotation marks a plain model argument, forwarded as-is.
pub open spec fn is_model_argument_annotation(a: Annotation) -> bool {
    a == Annotation::Input(InputAnnotation::Model(ModelInputAnnotation::ModelArgument))
}

/// The annotation marks a unique-identifier component with its required
/// connector column mapping present.
pub open spec fn is_unique_identifier_annotation(a: Annotation) -> bool {
    match a {
        Annotation::Input(InputAnnotation::Model(
            ModelInputAnnotation::ModelUniqueIdentifierArgument { ndc_column, .. },
        )) => ndc_column is Some,
        _ => false,
    }
}

/// The annotation is a unique-identifier component whose connector column
/// mapping is missing: a schema-build defect the classifier must surface.
pub open spec fn is_missing_mapping_annotation(a: Annotation) -> bool {
    match a {
        Annotation::Input(InputAnnotation::Model(
            ModelInputAnnotation::ModelUniqueIdentifierArgument { ndc_column, .. },
        )) => ndc_column is None,
        _ => false,
    }
}

/// The annotation is outside the closed set a model field's arguments may
/// legally carry: an impossible state guarding against schema/compiler
/// version mismatch.
pub open spec fn is_unexpected_annotation(a: Annotation) -> bool {
    !(is_model_argument_annotation(a) || a matches Annotation::Input(
        InputAnnotation::Model(ModelInputAnnotation::ModelUniqueIdentifierArgument { .. }),
    ))
}

/// Classification totality: every annotation falls in exactly one of the
/// four classes the classifier distinguishes — plain model argument,
/// unique-identifier component, unique-identifier component with a missing
/// connector mapping, or unexpected. Never both, never neither.
pub proof fn lemma_annotation_classification_total(a: Annotation)
    ensures
        is_model_argument_annotation(a) || is_unique_identifier_annotation(a)
            || is_missing_mapping_annotation(a) || is_unexpected_annotation(a),
        is_model_argument_annotation(a) ==> !is_unique_identifier_annotation(a)
            && !is_missing_mapping_annotation(a) && !is_unexpected_annotation(a),
        is_unique_identifier_annotation(a) ==> !is_model_argument_annotation(a)
            && !is_missing_mapping_annotation(a) && !is_unexpected_annotation(a),
        is_missing_mapping_annotation(a) ==> !is_model_argument_annotation(a)
            && !is_unique_identifier_annotation(a) && !is_unexpected_annotation(a),
{
}

} // verus!
